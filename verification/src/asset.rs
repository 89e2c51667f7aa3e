//! The temporary file that holds the scaled logo.
//!
//! Each job writes its scaled logo to a file of its own, named with a tag
//! that is drawn at random so that jobs running side by side do not collide.

use vstd::prelude::*;
use crate::output_path::join;
use crate::output_path::joined;

verus! {

/// One more than the largest tag that a drawn name carries.
pub const TAG_LIMIT: u32 = 1000;

/// The character that stands for the digit `d`.
pub open spec fn digit_char(d: nat) -> char {
    if d == 0 {
        '0'
    } else if d == 1 {
        '1'
    } else if d == 2 {
        '2'
    } else if d == 3 {
        '3'
    } else if d == 4 {
        '4'
    } else if d == 5 {
        '5'
    } else if d == 6 {
        '6'
    } else if d == 7 {
        '7'
    } else if d == 8 {
        '8'
    } else {
        '9'
    }
}

/// `n` written in base ten, without leading zeros.
pub open spec fn decimal(n: nat) -> Seq<char>
    decreases n,
{
    if n < 10 {
        seq![digit_char(n)]
    } else {
        decimal(n / 10) + seq![digit_char(n % 10)]
    }
}

/// The file name of the asset with the given tag.
pub open spec fn asset_name_of(tag: nat) -> Seq<char> {
    "cfclogo-"@ + decimal(tag) + ".png"@
}

/// A number drawn with `rand::random`, from the generator of the calling
/// thread. Nothing is claimed of the number. The outside function panics
/// where the operating system gives the generator no seed.
#[verifier::external_body]
fn draw() -> u32 {
    rand::random::<u32>()
}

/// The digit `d` as text.
fn digit_text(d: u32) -> (text: &'static str)
    requires
        d < 10,
    ensures
        text@ == seq![digit_char(d as nat)],
{
    proof {
        reveal_strlit("0");
        reveal_strlit("1");
        reveal_strlit("2");
        reveal_strlit("3");
        reveal_strlit("4");
        reveal_strlit("5");
        reveal_strlit("6");
        reveal_strlit("7");
        reveal_strlit("8");
        reveal_strlit("9");
    }
    let text = match d {
        0 => "0",
        1 => "1",
        2 => "2",
        3 => "3",
        4 => "4",
        5 => "5",
        6 => "6",
        7 => "7",
        8 => "8",
        _ => "9",
    };
    assert(text@ =~= seq![digit_char(d as nat)]);
    text
}

/// Appends `n`, written in base ten, to `out`.
fn append_decimal(out: &mut String, n: u32)
    ensures
        final(out)@ == old(out)@ + decimal(n as nat),
    decreases n,
{
    if n >= 10 {
        append_decimal(out, n / 10);
    }
    out.append(digit_text(n % 10));
    assert(final(out)@ =~= old(out)@ + decimal(n as nat));
}

/// The file name of the asset with the given tag: `cfclogo-`, the tag in
/// base ten, `.png`.
pub fn asset_name(tag: u32) -> (name: String)
    ensures
        name@ == asset_name_of(tag as nat),
{
    let mut name = String::from_str("cfclogo-");
    append_decimal(&mut name, tag);
    name.append(".png");
    name
}

/// The path of the asset with the given tag inside `directory`.
pub fn asset_path(directory: &str, tag: u32) -> (path: String)
    ensures
        path@ == joined(directory@, asset_name_of(tag as nat)),
{
    let name = asset_name(tag);
    join(directory, name.as_str())
}

/// The path of a new asset inside `directory`, with a tag below
/// `TAG_LIMIT` that is drawn at random.
pub fn fresh_asset_path(directory: &str) -> (path: String)
    ensures
        exists|tag: nat| tag < TAG_LIMIT && path@ == joined(directory@, #[trigger] asset_name_of(tag)),
{
    let tag: u32 = draw() % TAG_LIMIT;
    asset_path(directory, tag)
}

} // verus!

//! The name of the file that a job writes.
//!
//! A path is read as text in which `/` separates the components. The output
//! keeps the base name of the source video, marks it with a fixed suffix and
//! carries the extension of an MP4 container. It lies beside the source, or
//! in a directory of the caller's choice.

use vstd::prelude::*;

verus! {

/// Separates the components of a path.
pub const SEPARATOR: char = '/';

/// Why no output path could be derived.
#[derive(Clone, Copy, Debug, PartialEq, Eq, Structural)]
pub enum PathError {
    /// The source path names no file: it is empty, it is made of separators
    /// alone, or its last component is `.` or `..`.
    InvalidPath,
}

/// What is appended to the base name of the source.
pub open spec fn marker() -> Seq<char> {
    "-com-logo"@
}

/// The extension of every output file, with its dot.
pub open spec fn extension() -> Seq<char> {
    ".mp4"@
}

/// `path` without the separators that end it.
pub open spec fn trimmed(path: Seq<char>) -> Seq<char>
    decreases path.len(),
{
    if path.len() > 0 && path.last() == SEPARATOR {
        trimmed(path.drop_last())
    } else {
        path
    }
}

/// Where the last component of `path` starts: just behind its last
/// separator, or at 0 where it has none.
pub open spec fn last_component_start(path: Seq<char>) -> int
    decreases path.len(),
{
    if path.len() == 0 || path.last() == SEPARATOR {
        path.len() as int
    } else {
        last_component_start(path.drop_last())
    }
}

/// Index of the last dot in `name`, or -1 where it has none.
pub open spec fn last_dot(name: Seq<char>) -> int
    decreases name.len(),
{
    if name.len() == 0 {
        -1
    } else if name.last() == '.' {
        name.len() - 1
    } else {
        last_dot(name.drop_last())
    }
}

/// The directory part of `path`: all that stands before its last component,
/// the separator included. Empty where the path is a bare file name.
pub open spec fn directory_part(path: Seq<char>) -> Seq<char> {
    let t = trimmed(path);
    t.take(last_component_start(t))
}

/// The last component of `path`, trailing separators set aside.
pub open spec fn last_component(path: Seq<char>) -> Seq<char> {
    let t = trimmed(path);
    t.skip(last_component_start(t))
}

/// The file name of `path`: its last component, unless that is empty, `.` or `..`.
pub open spec fn file_name(path: Seq<char>) -> Option<Seq<char>> {
    let name = last_component(path);
    if name.len() == 0 || name == seq!['.'] || name == seq!['.', '.'] {
        None
    } else {
        Some(name)
    }
}

/// A file name without its extension: what stands before the last dot. A
/// name without a dot, or whose only dot comes first, is kept whole.
pub open spec fn base_name(name: Seq<char>) -> Seq<char> {
    if last_dot(name) <= 0 {
        name
    } else {
        name.take(last_dot(name))
    }
}

/// The name of the output file for a source file called `name`.
pub open spec fn output_name(name: Seq<char>) -> Seq<char> {
    base_name(name) + marker() + extension()
}

/// `name` placed in the directory `dir`.
pub open spec fn joined(dir: Seq<char>, name: Seq<char>) -> Seq<char> {
    if dir.len() == 0 || dir.last() == SEPARATOR {
        dir + name
    } else {
        dir + seq![SEPARATOR] + name
    }
}

/// The text of an optional directory.
pub open spec fn directory_view(output_dir: Option<&str>) -> Option<Seq<char>> {
    match output_dir {
        Some(dir) => Some(dir@),
        None => None,
    }
}

/// The text of an outcome of `resolve`.
pub open spec fn outcome_view(outcome: Result<String, PathError>) -> Result<Seq<char>, PathError> {
    match outcome {
        Ok(path) => Ok(path@),
        Err(e) => Err(e),
    }
}

/// The output path for `source`: in `output_dir` where one is given, else
/// beside the source. There is none where the source names no file.
pub open spec fn resolved(source: Seq<char>, output_dir: Option<Seq<char>>) -> Result<
    Seq<char>,
    PathError,
> {
    match file_name(source) {
        None => Err(PathError::InvalidPath),
        Some(name) => match output_dir {
            Some(dir) => Ok(joined(dir, output_name(name))),
            None => Ok(directory_part(source) + output_name(name)),
        },
    }
}

/// Number of characters of `path` that are left once its trailing
/// separators are set aside.
fn trimmed_length(path: &str) -> (n: usize)
    ensures
        n <= path@.len(),
        path@.take(n as int) == trimmed(path@),
{
    let mut n: usize = path.unicode_len();
    assert(path@.take(n as int) =~= path@);
    while n > 0 && path.get_char(n - 1) == SEPARATOR
        invariant
            n <= path@.len(),
            trimmed(path@.take(n as int)) == trimmed(path@),
        decreases n,
    {
        assert(path@.take(n as int).drop_last() =~= path@.take(n - 1));
        n = n - 1;
    }
    n
}

/// Position at which the last component of the first `end` characters of
/// `path` starts.
fn component_start(path: &str, end: usize) -> (start: usize)
    requires
        end <= path@.len(),
    ensures
        start <= end,
        start == last_component_start(path@.take(end as int)),
{
    let mut start: usize = end;
    while start > 0 && path.get_char(start - 1) != SEPARATOR
        invariant
            start <= end <= path@.len(),
            last_component_start(path@.take(start as int)) == last_component_start(
                path@.take(end as int),
            ),
        decreases start,
    {
        assert(path@.take(start as int).drop_last() =~= path@.take(start - 1));
        start = start - 1;
    }
    start
}

/// Number of characters of `name` that make up its base name.
fn base_length(name: &str) -> (n: usize)
    ensures
        n <= name@.len(),
        name@.take(n as int) == base_name(name@),
{
    let len: usize = name.unicode_len();
    let mut k: usize = len;
    assert(name@.take(k as int) =~= name@);
    while k > 0 && name.get_char(k - 1) != '.'
        invariant
            k <= len == name@.len(),
            last_dot(name@.take(k as int)) == last_dot(name@),
        decreases k,
    {
        assert(name@.take(k as int).drop_last() =~= name@.take(k - 1));
        k = k - 1;
    }
    if k <= 1 {
        assert(name@.take(len as int) =~= name@);
        len
    } else {
        k - 1
    }
}

/// Whether `name` is `.` or `..`.
fn is_dots(name: &str) -> (dots: bool)
    ensures
        dots == (name@ == seq!['.'] || name@ == seq!['.', '.']),
{
    let len: usize = name.unicode_len();
    if len == 1 {
        let only = name.get_char(0);
        assert(only == '.' ==> name@ =~= seq!['.']);
        only == '.'
    } else if len == 2 {
        let first = name.get_char(0);
        let second = name.get_char(1);
        assert(first == '.' && second == '.' ==> name@ =~= seq!['.', '.']);
        first == '.' && second == '.'
    } else {
        false
    }
}

/// Places the file `name` in the directory `dir`: a separator is put
/// between the two unless `dir` is empty or already ends with one.
pub fn join(dir: &str, name: &str) -> (path: String)
    ensures
        path@ == joined(dir@, name@),
{
    let mut path = String::from_str(dir);
    let len: usize = dir.unicode_len();
    if len > 0 && dir.get_char(len - 1) != SEPARATOR {
        proof {
            reveal_strlit("/");
            assert("/"@ =~= seq![SEPARATOR]);
        }
        path.append("/");
    }
    path.append(name);
    path
}

/// Derives the path of the output file from that of the source video.
///
/// The output is named after the source: its base name, then `-com-logo`,
/// then `.mp4`. It is placed in `output_dir` where one is given, and beside
/// the source otherwise. A source that names no file is refused.
pub fn resolve(source: &str, output_dir: Option<&str>) -> (result: Result<String, PathError>)
    ensures
        outcome_view(result) == resolved(source@, directory_view(output_dir)),
{
    let end = trimmed_length(source);
    let start = component_start(source, end);
    let name = source.substring_char(start, end);
    proof {
        assert(source@.take(end as int).skip(start as int) =~= source@.subrange(
            start as int,
            end as int,
        ));
        assert(name@ == last_component(source@));
    }
    if start == end || is_dots(name) {
        return Err(PathError::InvalidPath);
    }
    let base = name.substring_char(0, base_length(name));
    assert(base@ =~= base_name(name@));
    let mut file = String::from_str(base);
    file.append("-com-logo");
    file.append(".mp4");
    match output_dir {
        Some(dir) => Ok(join(dir, file.as_str())),
        None => {
            let beside = source.substring_char(0, start);
            assert(beside@ =~= directory_part(source@));
            let mut path = String::from_str(beside);
            path.append(file.as_str());
            Ok(path)
        },
    }
}

/// Resolving is a function of its inputs: two outcomes for the same source
/// and the same directory are the same.
pub proof fn resolve_is_deterministic(
    source: &str,
    output_dir: Option<&str>,
    first: Result<String, PathError>,
    second: Result<String, PathError>,
)
    requires
        outcome_view(first) == resolved(source@, directory_view(output_dir)),
        outcome_view(second) == resolved(source@, directory_view(output_dir)),
    ensures
        outcome_view(first) == outcome_view(second),
        first is Ok <==> second is Ok,
        first is Ok ==> first->Ok_0@ == second->Ok_0@,
{
}

} // verus!

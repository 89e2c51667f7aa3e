//! Where the logo sits on the frame and how large it is drawn.
//!
//! Everything here is arithmetic on integers: the size that a logo takes when
//! it is scaled to a requested width, and the offsets that anchor it to one of
//! the four corners of the picture.

use vstd::prelude::*;
use vstd::arithmetic::div_mod::lemma_fundamental_div_mod;
use vstd::arithmetic::div_mod::lemma_fundamental_div_mod_converse;
use vstd::arithmetic::div_mod::lemma_mod_bound;

verus! {

/// Distance, in pixels, kept between the logo and the two edges of its corner.
pub const INSET: i32 = 20;

/// The corner of the frame that the logo is anchored to.
#[derive(Clone, Copy, Debug, PartialEq, Eq, Structural)]
pub enum Corner {
    TopLeft,
    TopRight,
    BottomLeft,
    BottomRight,
}

/// Why no geometry could be derived.
#[derive(Clone, Copy, Debug, PartialEq, Eq, Structural)]
pub enum GeometryError {
    /// A dimension is zero, or the scaled height is too large to be a pixel count.
    InvalidGeometry,
}

/// Size and position of the logo as it is drawn on the video.
///
/// A positive offset is a distance from the left or top edge, a negative one a
/// distance from the right or bottom edge.
#[derive(Clone, Copy, Debug, PartialEq, Eq, Structural)]
pub struct LogoGeometry {
    pub scaled_width: u32,
    pub scaled_height: u32,
    pub x_offset: i32,
    pub y_offset: i32,
}

/// `n / d` rounded to the nearest integer, a half rounding up.
pub open spec fn rounded_quotient(n: int, d: int) -> int {
    (2 * n + d) / (2 * d)
}

/// Height of a `source_width` x `source_height` image once it is scaled to
/// `target_width`, keeping its proportions: the nearest whole number of
/// pixels, and never less than one.
pub open spec fn scaled_height_of(source_width: int, source_height: int, target_width: int) -> int {
    let nearest = rounded_quotient(source_height * target_width, source_width);
    if nearest < 1 {
        1
    } else {
        nearest
    }
}

/// The inputs for which a geometry exists: no dimension is zero, and the
/// scaled height is still a `u32`.
pub open spec fn geometry_defined(
    target_width: Option<u32>,
    source_width: u32,
    source_height: u32,
) -> bool {
    &&& source_width >= 1
    &&& source_height >= 1
    &&& match target_width {
        Some(t) => t >= 1 && scaled_height_of(source_width as int, source_height as int, t as int)
            <= u32::MAX,
        None => true,
    }
}

/// The geometry that `compute` returns where one is defined.
pub open spec fn geometry_of(
    corner: Corner,
    target_width: Option<u32>,
    source_width: u32,
    source_height: u32,
) -> LogoGeometry {
    LogoGeometry {
        scaled_width: match target_width {
            Some(t) => t,
            None => source_width,
        },
        scaled_height: match target_width {
            Some(t) => scaled_height_of(source_width as int, source_height as int, t as int) as u32,
            None => source_height,
        },
        x_offset: corner.spec_x_offset() as i32,
        y_offset: corner.spec_y_offset() as i32,
    }
}

impl Corner {
    /// Horizontal offset of the corner.
    pub open spec fn spec_x_offset(self) -> int {
        match self {
            Corner::TopLeft | Corner::BottomLeft => INSET as int,
            Corner::TopRight | Corner::BottomRight => -(INSET as int),
        }
    }

    /// Vertical offset of the corner.
    pub open spec fn spec_y_offset(self) -> int {
        match self {
            Corner::TopLeft | Corner::TopRight => INSET as int,
            Corner::BottomLeft | Corner::BottomRight => -(INSET as int),
        }
    }

    /// The horizontal offset at which the overlay is placed.
    pub fn x_offset(self) -> (x: i32)
        ensures
            x == self.spec_x_offset(),
    {
        match self {
            Corner::TopLeft | Corner::BottomLeft => INSET,
            Corner::TopRight | Corner::BottomRight => -INSET,
        }
    }

    /// The vertical offset at which the overlay is placed.
    pub fn y_offset(self) -> (y: i32)
        ensures
            y == self.spec_y_offset(),
    {
        match self {
            Corner::TopLeft | Corner::TopRight => INSET,
            Corner::BottomLeft | Corner::BottomRight => -INSET,
        }
    }
}

impl LogoGeometry {
    /// Both dimensions are at least one pixel, and the offsets lie one inset
    /// away from an edge.
    pub open spec fn wf(self) -> bool {
        &&& self.scaled_width >= 1
        &&& self.scaled_height >= 1
        &&& (self.x_offset == INSET || self.x_offset == -INSET)
        &&& (self.y_offset == INSET || self.y_offset == -INSET)
    }
}

/// `n / d` rounded to the nearest integer, a half rounding up.
fn divide_rounded(n: u64, d: u64) -> (q: u64)
    requires
        d >= 1,
    ensures
        q == rounded_quotient(n as int, d as int),
{
    let whole: u64 = n / d;
    let rest: u64 = n % d;
    proof {
        lemma_fundamental_div_mod(n as int, d as int);
        lemma_mod_bound(n as int, d as int);
    }
    if rest >= d - rest {
        proof {
            assert(2 * n + d == (whole + 1) * (2 * d) + (2 * rest - d)) by (nonlinear_arith)
                requires
                    n == d * whole + rest,
            ;
            lemma_fundamental_div_mod_converse(2 * n + d, 2 * d, whole + 1, 2 * rest - d);
            // At least half a divisor is left over, so the quotient is not
            // the largest 64-bit number.
            assert(whole + 1 <= u64::MAX) by (nonlinear_arith)
                requires
                    n == d * whole + rest,
                    rest >= d - rest,
                    d >= 1,
                    n <= u64::MAX,
                    whole >= 0,
            ;
        }
        whole + 1
    } else {
        proof {
            assert(2 * n + d == whole * (2 * d) + (2 * rest + d)) by (nonlinear_arith)
                requires
                    n == d * whole + rest,
            ;
            lemma_fundamental_div_mod_converse(2 * n + d, 2 * d, whole as int, 2 * rest + d);
        }
        whole
    }
}

/// Derives the size and position of the logo.
///
/// With a target width the logo is scaled to it and keeps its proportions;
/// without one it is drawn at the size of the source image. The offsets are
/// those of the chosen corner.
pub fn compute(
    corner: Corner,
    target_width: Option<u32>,
    source_width: u32,
    source_height: u32,
) -> (result: Result<LogoGeometry, GeometryError>)
    ensures
        result is Ok <==> geometry_defined(target_width, source_width, source_height),
        result is Ok ==> result->Ok_0 == geometry_of(
            corner,
            target_width,
            source_width,
            source_height,
        ),
        result is Ok ==> result->Ok_0.wf(),
{
    if source_width == 0 || source_height == 0 {
        return Err(GeometryError::InvalidGeometry);
    }
    let x_offset = corner.x_offset();
    let y_offset = corner.y_offset();
    match target_width {
        None => Ok(
            LogoGeometry { scaled_width: source_width, scaled_height: source_height, x_offset, y_offset },
        ),
        Some(width) => {
            if width == 0 {
                return Err(GeometryError::InvalidGeometry);
            }
            let wide_height: u64 = source_height as u64;
            let wide_target: u64 = width as u64;
            assert(wide_height * wide_target <= u64::MAX) by (nonlinear_arith)
                requires
                    wide_height <= u32::MAX,
                    wide_target <= u32::MAX,
            ;
            let nearest: u64 = divide_rounded(wide_height * wide_target, source_width as u64);
            let height: u64 = if nearest < 1 {
                1
            } else {
                nearest
            };
            if height > u32::MAX as u64 {
                return Err(GeometryError::InvalidGeometry);
            }
            Ok(
                LogoGeometry {
                    scaled_width: width,
                    scaled_height: height as u32,
                    x_offset,
                    y_offset,
                },
            )
        },
    }
}

/// Scaling keeps the proportions of the source image: for positive
/// dimensions, the scaled height differs from the exact height
/// `source_height * target_width / source_width` by at most one pixel.
pub proof fn scaled_height_keeps_aspect_ratio(
    source_width: int,
    source_height: int,
    target_width: int,
)
    requires
        source_width >= 1,
        source_height >= 1,
        target_width >= 1,
    ensures
        scaled_height_of(source_width, source_height, target_width) >= 1,
        -source_width <= scaled_height_of(source_width, source_height, target_width) * source_width
            - source_height * target_width <= source_width,
{
    scaled_height_is_nearest(source_width, source_height, target_width);
}

/// Unless it had to be raised to one pixel, the scaled height is the whole
/// number nearest to the exact height: twice their distance, measured in
/// units of `1 / source_width`, is at most `source_width`.
pub proof fn scaled_height_is_nearest(source_width: int, source_height: int, target_width: int)
    requires
        source_width >= 1,
        source_height >= 1,
        target_width >= 1,
    ensures
        ({
            let height = scaled_height_of(source_width, source_height, target_width);
            let exact = source_height * target_width;
            &&& height >= 1
            &&& 2 * exact >= source_width ==> -source_width < 2 * (height * source_width - exact)
                <= source_width
            &&& 2 * exact < source_width ==> height == 1 && 0 < height * source_width - exact
                <= source_width
        }),
{
    let exact = source_height * target_width;
    let d = 2 * source_width;
    let n = 2 * exact + source_width;
    let q = n / d;
    let r = n % d;
    assert(exact >= 1) by (nonlinear_arith)
        requires
            exact == source_height * target_width,
            source_height >= 1,
            target_width >= 1,
    ;
    lemma_fundamental_div_mod(n, d);
    lemma_mod_bound(n, d);
    assert(n == d * q + r);
    assert(0 <= r < d);
    assert(d * q == 2 * (q * source_width)) by (nonlinear_arith)
        requires
            d == 2 * source_width,
    ;
    if 2 * exact < source_width {
        assert(q < 1) by (nonlinear_arith)
            requires
                n == d * q + r,
                0 <= r,
                n < d,
                d >= 1,
        ;
    } else {
        assert(q >= 1) by (nonlinear_arith)
            requires
                n == d * q + r,
                r < d,
                n >= d,
                d >= 1,
        ;
    }
}

/// The offsets of each corner: one inset from the two edges that meet there,
/// counted positive from the left and the top, negative from the right and
/// the bottom.
pub proof fn offsets_follow_table(corner: Corner)
    ensures
        corner == Corner::TopLeft ==> corner.spec_x_offset() == 20 && corner.spec_y_offset() == 20,
        corner == Corner::TopRight ==> corner.spec_x_offset() == -20 && corner.spec_y_offset()
            == 20,
        corner == Corner::BottomLeft ==> corner.spec_x_offset() == 20 && corner.spec_y_offset()
            == -20,
        corner == Corner::BottomRight ==> corner.spec_x_offset() == -20 && corner.spec_y_offset()
            == -20,
{
}

} // verus!

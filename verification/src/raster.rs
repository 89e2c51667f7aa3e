//! The logo as pixels, and its scaling to the size at which it is drawn.
//!
//! A raster holds an image as rows of RGBA pixels, one byte per channel. The
//! scaling itself is done by the `image` crate; this module decides whether
//! it is needed, checks that the sizes are within what the sampler handles,
//! and keeps the invariant that ties the pixel buffer to the dimensions.

use vstd::prelude::*;
use crate::geometry::LogoGeometry;

verus! {

/// Bytes per pixel: red, green, blue, alpha.
pub const CHANNELS: u64 = 4;

/// The largest width or height, of a source or of a scaled logo, that is
/// handed to the sampler. Its arithmetic on coordinates is done in single
/// precision, which is exact far beyond this size.
pub const MAX_DIMENSION: u32 = 65535;

/// Why a logo could not be made ready.
#[derive(Clone, Copy, Debug, PartialEq, Eq, Structural)]
pub enum PreprocessError {
    /// The source image could not be decoded.
    Decode,
    /// The source or the requested size is beyond what can be scaled.
    Resize,
    /// The scaled image could not be written.
    Io,
}

/// An image held as RGBA pixels, row after row.
#[derive(Debug)]
pub struct Raster {
    width: u32,
    height: u32,
    pixels: Vec<u8>,
}

/// What the overlay is to show.
#[derive(Debug)]
pub enum Prepared {
    /// The source image as it is: it already has the size at which it is drawn.
    Unchanged,
    /// The source image scaled to the size at which it is drawn.
    Scaled(Raster),
}

/// The bytes that `image::imageops::resize` gives, with the Catmull-Rom
/// filter, for the RGBA image of `width` x `height` held in `pixels`, scaled
/// to `new_width` x `new_height`.
pub uninterp spec fn catmull_rom_resampled(
    pixels: Seq<u8>,
    width: u32,
    height: u32,
    new_width: u32,
    new_height: u32,
) -> Seq<u8>;

/// Number of bytes that hold an image of the given size.
pub open spec fn buffer_length(width: u32, height: u32) -> int {
    CHANNELS * width * height
}

/// Whether an image of `width` x `height` can be scaled to
/// `new_width` x `new_height`: every dimension lies between one pixel and
/// `MAX_DIMENSION`, and the buffers involved can be addressed.
pub open spec fn can_scale(width: u32, height: u32, new_width: u32, new_height: u32) -> bool {
    &&& 1 <= width <= MAX_DIMENSION
    &&& 1 <= height <= MAX_DIMENSION
    &&& 1 <= new_width <= MAX_DIMENSION
    &&& 1 <= new_height <= MAX_DIMENSION
    &&& buffer_length(width, new_height) <= usize::MAX
    &&& buffer_length(new_width, new_height) <= usize::MAX
}

/// Scales an RGBA image with `image::imageops::resize` and the Catmull-Rom
/// filter. The outside function first resamples the columns to the new
/// height, then the rows to the new width, and returns a buffer of exactly
/// the new size; its bytes are a function of the arguments alone. The
/// preconditions keep away from what makes it panic: an empty source, a
/// buffer that does not match the dimensions, and sizes whose buffers
/// cannot be addressed.
#[verifier::external_body]
fn resample(pixels: &Vec<u8>, width: u32, height: u32, new_width: u32, new_height: u32) -> (out:
    Vec<u8>)
    requires
        can_scale(width, height, new_width, new_height),
        pixels@.len() == buffer_length(width, height),
    ensures
        out@ == catmull_rom_resampled(pixels@, width, height, new_width, new_height),
        out@.len() == buffer_length(new_width, new_height),
{
    let source = image::ImageBuffer::<image::Rgba<u8>, &[u8]>::from_raw(
        width,
        height,
        pixels.as_slice(),
    ).unwrap();
    let filter = image::imageops::FilterType::CatmullRom;
    image::imageops::resize(&source, new_width, new_height, filter).into_raw()
}

impl Raster {
    /// The image is not empty, and its buffer holds exactly its pixels.
    pub closed spec fn wf(&self) -> bool {
        &&& self.width >= 1
        &&& self.height >= 1
        &&& self.pixels@.len() == buffer_length(self.width, self.height)
    }

    /// Width in pixels.
    pub closed spec fn spec_width(&self) -> u32 {
        self.width
    }

    /// Height in pixels.
    pub closed spec fn spec_height(&self) -> u32 {
        self.height
    }

    /// The bytes of the pixels, row after row.
    pub closed spec fn spec_pixels(&self) -> Seq<u8> {
        self.pixels@
    }

    /// Makes a raster of `pixels`, which must hold four bytes for each pixel
    /// of a `width` x `height` image that is not empty.
    pub fn new(width: u32, height: u32, pixels: Vec<u8>) -> (raster: Option<Raster>)
        ensures
            raster is Some <==> width >= 1 && height >= 1 && pixels@.len() == buffer_length(
                width,
                height,
            ),
            raster is Some ==> {
                let r = raster->Some_0;
                &&& r.wf()
                &&& r.spec_width() == width
                &&& r.spec_height() == height
                &&& r.spec_pixels() == pixels@
            },
    {
        if width == 0 || height == 0 {
            return None;
        }
        let wide_width: u64 = width as u64;
        let wide_height: u64 = height as u64;
        assert(wide_width * wide_height <= u64::MAX) by (nonlinear_arith)
            requires
                wide_width <= u32::MAX,
                wide_height <= u32::MAX,
        ;
        let count: u64 = wide_width * wide_height;
        let len: u64 = pixels.len() as u64;
        assert(CHANNELS * width * height == CHANNELS * (width * height)) by (nonlinear_arith);
        if len % CHANNELS == 0 && len / CHANNELS == count {
            Some(Raster { width, height, pixels })
        } else {
            None
        }
    }

    /// Width in pixels.
    pub fn width(&self) -> (w: u32)
        ensures
            w == self.spec_width(),
    {
        self.width
    }

    /// Height in pixels.
    pub fn height(&self) -> (h: u32)
        ensures
            h == self.spec_height(),
    {
        self.height
    }

    /// The bytes of the pixels, row after row.
    pub fn pixels(&self) -> (p: &Vec<u8>)
        ensures
            p@ == self.spec_pixels(),
    {
        &self.pixels
    }
}

/// Whether an image of `width` x `height` can be scaled to
/// `new_width` x `new_height`.
fn scalable(width: u32, height: u32, new_width: u32, new_height: u32) -> (yes: bool)
    ensures
        yes == can_scale(width, height, new_width, new_height),
{
    if width < 1 || width > MAX_DIMENSION || height < 1 || height > MAX_DIMENSION || new_width < 1
        || new_width > MAX_DIMENSION || new_height < 1 || new_height > MAX_DIMENSION {
        return false;
    }
    let rows: u64 = new_height as u64;
    let limit: u64 = usize::MAX as u64;
    assert(CHANNELS * width * new_height <= 4 * 65535 * 65535) by (nonlinear_arith)
        requires
            width <= 65535,
            new_height <= 65535,
            CHANNELS == 4,
    ;
    assert(CHANNELS * new_width * new_height <= 4 * 65535 * 65535) by (nonlinear_arith)
        requires
            new_width <= 65535,
            new_height <= 65535,
            CHANNELS == 4,
    ;
    CHANNELS * (width as u64) * rows <= limit && CHANNELS * (new_width as u64) * rows <= limit
}

/// The outcome that `prepare` owes for a source of `width` x `height`
/// holding `pixels`, and the size that `geometry` asks for.
pub open spec fn prepared_as(
    width: u32,
    height: u32,
    pixels: Seq<u8>,
    geometry: LogoGeometry,
    result: Result<Prepared, PreprocessError>,
) -> bool {
    if geometry.scaled_width == width && geometry.scaled_height == height {
        result is Ok && result->Ok_0 is Unchanged
    } else if !can_scale(width, height, geometry.scaled_width, geometry.scaled_height) {
        result == Err::<Prepared, PreprocessError>(PreprocessError::Resize)
    } else {
        &&& result is Ok
        &&& result->Ok_0 is Scaled
        &&& result->Ok_0->Scaled_0.wf()
        &&& result->Ok_0->Scaled_0.spec_width() == geometry.scaled_width
        &&& result->Ok_0->Scaled_0.spec_height() == geometry.scaled_height
        &&& result->Ok_0->Scaled_0.spec_pixels() == catmull_rom_resampled(
            pixels,
            width,
            height,
            geometry.scaled_width,
            geometry.scaled_height,
        )
    }
}

/// Makes the logo ready for the overlay.
///
/// A source that already has the size that `geometry` asks for is used as it
/// is. Any other is scaled to that size with a Catmull-Rom filter, unless a
/// dimension is beyond `MAX_DIMENSION` or a buffer could not be addressed.
pub fn prepare(source: &Raster, geometry: &LogoGeometry) -> (result: Result<
    Prepared,
    PreprocessError,
>)
    requires
        source.wf(),
    ensures
        prepared_as(
            source.spec_width(),
            source.spec_height(),
            source.spec_pixels(),
            *geometry,
            result,
        ),
{
    if geometry.scaled_width == source.width && geometry.scaled_height == source.height {
        return Ok(Prepared::Unchanged);
    }
    if !scalable(source.width, source.height, geometry.scaled_width, geometry.scaled_height) {
        return Err(PreprocessError::Resize);
    }
    let pixels = resample(
        &source.pixels,
        source.width,
        source.height,
        geometry.scaled_width,
        geometry.scaled_height,
    );
    match Raster::new(geometry.scaled_width, geometry.scaled_height, pixels) {
        Some(scaled) => Ok(Prepared::Scaled(scaled)),
        None => Err(PreprocessError::Resize),
    }
}

} // verus!

//! Pixel work done by the `image` crate, over plain RGBA8 buffers.
//!
//! A raster is described by its width, its height and its pixels, four bytes
//! per pixel, row by row. What decoding, resampling and encoding produce is
//! named here; the calls that produce it are the wrappers below.
use crate::preset::{Format, Preset};
use vstd::prelude::*;

verus! {

#[verifier::external_type_specification]
#[verifier::external_body]
pub struct ExImageError(image::ImageError);

/// Width, height and RGBA8 pixels of the image that a file's bytes hold, if any.
pub uninterp spec fn decoded(bytes: Seq<u8>) -> Option<(u32, u32, Seq<u8>)>;

/// The RGBA8 pixels of a raster resampled with the triangle filter to exactly
/// `new_width` by `new_height`.
pub uninterp spec fn resized(
    width: u32,
    height: u32,
    rgba: Seq<u8>,
    new_width: u32,
    new_height: u32,
) -> Seq<u8>;

/// The file that encodes an RGBA8 raster in a format, if it can be encoded.
pub uninterp spec fn encoded(format: Format, width: u32, height: u32, rgba: Seq<u8>) -> Option<
    Seq<u8>,
>;

/// Number of bytes that an RGBA8 raster of the given size occupies.
pub open spec fn rgba_len(width: u32, height: u32) -> int {
    4 * width * height
}

/// A target size that can be resampled to: positive, and small enough to be
/// held in memory at all.
pub open spec fn fits(width: u32, height: u32) -> bool {
    width > 0 && height > 0 && rgba_len(width, height) <= usize::MAX
}

/// The file that a preset yields from a square source of side `side`.
pub open spec fn output_bytes(side: u32, rgba: Seq<u8>, p: Preset) -> Option<Seq<u8>> {
    if fits(p.width, p.height) {
        encoded(p.format, p.width, p.height, resized(side, side, rgba, p.width, p.height))
    } else {
        None
    }
}

/// Relies on image::load_from_memory, which guesses the format from the bytes
/// and decodes them; the image is then converted to RGBA8 (`to_rgba8`), whose
/// buffer holds four bytes for each pixel.
#[verifier::external_body]
pub(crate) fn decode(bytes: &[u8]) -> (r: Result<(u32, u32, Vec<u8>), image::ImageError>)
    ensures
        match r {
            Ok((w, h, px)) => decoded(bytes@) == Some((w, h, px@)) && px@.len() == rgba_len(w, h),
            Err(_) => decoded(bytes@) is None,
        },
{
    match image::load_from_memory(bytes) {
        Ok(img) => {
            let rgba = img.to_rgba8();
            Ok((rgba.width(), rgba.height(), rgba.into_raw()))
        },
        Err(e) => Err(e),
    }
}

/// Relies on image::imageops::resize with FilterType::Triangle, which returns a
/// buffer of exactly `new_width` by `new_height` pixels. `from_raw` accepts the
/// source buffer because it holds `width * height` pixels.
#[verifier::external_body]
pub(crate) fn resize_pixels(
    width: u32,
    height: u32,
    rgba: &Vec<u8>,
    new_width: u32,
    new_height: u32,
) -> (r: Vec<u8>)
    requires
        width > 0,
        height > 0,
        rgba@.len() == rgba_len(width, height),
        fits(new_width, new_height),
    ensures
        r@ == resized(width, height, rgba@, new_width, new_height),
        r@.len() == rgba_len(new_width, new_height),
{
    let source = image::RgbaImage::from_raw(width, height, rgba.clone()).expect("whole raster");
    let filter = image::imageops::FilterType::Triangle;
    image::imageops::resize(&source, new_width, new_height, filter).into_raw()
}

/// Relies on image::write_buffer_with_format with ColorType::Rgba8, writing
/// into memory. The ICO encoder refuses a side outside `1..=256`.
#[verifier::external_body]
pub(crate) fn encode_pixels(format: Format, width: u32, height: u32, rgba: &Vec<u8>) -> (r: Result<
    Vec<u8>,
    image::ImageError,
>)
    requires
        rgba@.len() == rgba_len(width, height),
    ensures
        match r {
            Ok(b) => encoded(format, width, height, rgba@) == Some(b@),
            Err(_) => encoded(format, width, height, rgba@) is None,
        },
        format == Format::Ico && !(1 <= width <= 256 && 1 <= height <= 256) ==> r is Err,
{
    let target = match format {
        Format::Png => image::ImageOutputFormat::Png,
        Format::Ico => image::ImageOutputFormat::Ico,
    };
    let mut out = std::io::Cursor::new(Vec::new());
    let color = image::ColorType::Rgba8;
    match image::write_buffer_with_format(&mut out, rgba, width, height, color, target) {
        Ok(()) => Ok(out.into_inner()),
        Err(e) => Err(e),
    }
}

} // verus!

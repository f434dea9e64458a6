//! Images of the `image` crate, as far as the workflows build them from
//! bytes and hand them on to be written out.

use vstd::prelude::*;

verus! {

/// An RGBA image of the `image` crate, held as it is: the workflows only
/// build it from bytes and hand it on to be written out.
#[verifier::external_body]
#[derive(Debug)]
pub struct RgbaRaster {
    pub image: image::RgbaImage,
}

/// Width in pixels of a raster.
pub uninterp spec fn raster_width(r: RgbaRaster) -> u32;

/// Height in pixels of a raster.
pub uninterp spec fn raster_height(r: RgbaRaster) -> u32;

/// The bytes of a raster, row-major, four per pixel.
pub uninterp spec fn raster_bytes(r: RgbaRaster) -> Seq<u8>;

/// `ImageBuffer::from_raw` of `image`, for RGBA bytes: an image over
/// `pixels` if `4 * width` and `4 * width * height` fit in `usize` and
/// `pixels` hold that many bytes or more (the buffer is kept as it is),
/// else nothing.
#[verifier::external_body]
pub(crate) fn rgba_from_raw(width: u32, height: u32, pixels: Vec<u8>) -> (r: Option<RgbaRaster>)
    ensures
        r is Some <==> (4 * width <= usize::MAX && 4 * width * height <= pixels@.len()),
        r matches Some(img) ==> raster_width(img) == width && raster_height(img) == height
            && raster_bytes(img) == pixels@,
{
    image::RgbaImage::from_raw(width, height, pixels).map(|image| RgbaRaster { image })
}

/// An RGB image of the `image` crate, held as it is.
#[verifier::external_body]
#[derive(Debug)]
pub struct RgbRaster {
    pub image: image::RgbImage,
}

/// Width in pixels of an RGB raster.
pub uninterp spec fn rgb_raster_width(r: RgbRaster) -> u32;

/// Height in pixels of an RGB raster.
pub uninterp spec fn rgb_raster_height(r: RgbRaster) -> u32;

/// The bytes of an RGB raster, row-major, three per pixel.
pub uninterp spec fn rgb_raster_bytes(r: RgbRaster) -> Seq<u8>;

/// `ImageBuffer::from_raw` of `image`, for RGB bytes: an image over
/// `pixels` if `3 * width` and `3 * width * height` fit in `usize` and
/// `pixels` hold that many bytes or more (the buffer is kept as it is),
/// else nothing.
#[verifier::external_body]
pub(crate) fn rgb_from_raw(width: u32, height: u32, pixels: Vec<u8>) -> (r: Option<RgbRaster>)
    ensures
        r is Some <==> (3 * width <= usize::MAX && 3 * width * height <= pixels@.len()),
        r matches Some(img) ==> rgb_raster_width(img) == width && rgb_raster_height(img) == height
            && rgb_raster_bytes(img) == pixels@,
{
    image::RgbImage::from_raw(width, height, pixels).map(|image| RgbRaster { image })
}

} // verus!

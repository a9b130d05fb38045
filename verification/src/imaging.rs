//! Image decoding and resampling, done by the `image` crate.
use vstd::prelude::*;

verus! {

/// What `image::load_from_memory` followed by `to_rgba8` makes of some
/// bytes: the width, the height and the RGBA pixels, or nothing when the
/// bytes are no image of a supported format.
pub uninterp spec fn decoded_rgba(bytes: Seq<u8>) -> Option<(u32, u32, Seq<u8>)>;

/// What `image::imageops::resize` with the Catmull-Rom filter makes of an
/// RGBA image of `width` by `height` pixels, at `new_width` by `new_height`.
pub uninterp spec fn resized_rgba(
    width: u32,
    height: u32,
    pixels: Seq<u8>,
    new_width: u32,
    new_height: u32,
) -> Seq<u8>;

/// Decodes an image (`image::load_from_memory`) and converts it to RGBA
/// (`to_rgba8`). The result is named by `decoded_rgba`. Decoding fills a buffer of
/// exactly four bytes per pixel (`to_rgba8` clones or converts into such a
/// buffer).
#[verifier::external_body]
pub(crate) fn decode_rgba(bytes: &[u8]) -> (r: Option<(u32, u32, Vec<u8>)>)
    ensures
        match r {
            Some((w, h, px)) => decoded_rgba(bytes@) == Some((w, h, px@)) && 4 * w * h
                == px@.len(),
            None => decoded_rgba(bytes@) is None,
        },
{
    image::load_from_memory(bytes).ok().map(
        |img| {
            let rgba = img.to_rgba8();
            let (w, h) = rgba.dimensions();
            (w, h, rgba.into_raw())
        },
    )
}

/// Resamples an RGBA image to `new_width` by `new_height` pixels with the
/// Catmull-Rom filter (`image::imageops::resize`). The result is named by
/// `resized_rgba`; it is a fresh buffer of exactly four bytes per pixel.
/// The pixels must fill the given size, or building the image fails.
#[verifier::external_body]
pub(crate) fn resize_rgba(width: u32, height: u32, pixels: Vec<u8>, new_width: u32, new_height: u32) -> (r:
    Vec<u8>)
    requires
        4 * width * height <= pixels@.len(),
        4 * new_width * new_height <= usize::MAX,
    ensures
        r@ == resized_rgba(width, height, pixels@, new_width, new_height),
        r@.len() == 4 * new_width * new_height,
{
    let img = image::RgbaImage::from_raw(width, height, pixels).unwrap();
    image::imageops::resize(&img, new_width, new_height, image::imageops::FilterType::CatmullRom).into_raw()
}

} // verus!

//! Decoding of the bundled still images into pixel rows.

use vstd::prelude::*;
use crate::texture::{
    fills, load_texture_from_bytes, PixelFormat, Texture, TextureError, MAX_TEXTURE_SIZE,
};

verus! {

/// The error type of the `image` crate. Nothing is known of a value of it.
#[verifier::external_type_specification]
#[verifier::external_body]
pub struct ExImageError(image::ImageError);

/// A decoded image: four bytes for each pixel (red, green, blue, alpha),
/// rows first, the bottom row of the picture first.
#[derive(Clone, Debug, PartialEq, Eq)]
pub struct DecodedImage {
    pub width: u32,
    pub height: u32,
    pub data: Vec<u8>,
}

/// What the `image` crate decodes from PNG bytes, flipped vertically and
/// converted to 8-bit RGBA: width, height and the pixel bytes, or `None`
/// where it reports an error.
pub uninterp spec fn decoded_png(bytes: Seq<u8>) -> Option<(u32, u32, Seq<u8>)>;

/// Calls `image::load_from_memory_with_format` for PNG, then `flipv` and
/// `to_rgba8` on the image, and takes its `dimensions` and raw buffer. Trusted:
/// the outcome is the one named by [`decoded_png`], and the buffer that
/// `to_rgba8` allocates holds four bytes for each pixel.
#[verifier::external_body]
fn decode_png(data: &Vec<u8>) -> (r: Result<DecodedImage, image::ImageError>)
    ensures
        match r {
            Ok(img) => decoded_png(data@) == Some((img.width, img.height, img.data@))
                && img.data@.len() == img.width * img.height * 4,
            Err(_) => decoded_png(data@) is None,
        },
{
    let img = image::load_from_memory_with_format(data.as_slice(), image::ImageFormat::Png)?
        .flipv()
        .to_rgba8();
    let (width, height) = img.dimensions();
    Ok(DecodedImage { width, height, data: img.into_raw() })
}

/// Decodes PNG bytes. Fails with [`TextureError::Decode`] exactly where the
/// decoder reports an error.
pub fn decode_image(data: &Vec<u8>) -> (r: Result<DecodedImage, TextureError>)
    ensures
        match r {
            Ok(img) => decoded_png(data@) == Some((img.width, img.height, img.data@))
                && img.data@.len() == img.width * img.height * 4,
            Err(e) => decoded_png(data@) is None && e == TextureError::Decode,
        },
{
    match decode_png(data) {
        Ok(img) => Ok(img),
        Err(_) => Err(TextureError::Decode),
    }
}

/// Whether `r` is the colour texture of a decoded image of `width * height`
/// pixels with the bytes `raw`.
pub open spec fn is_texture_of(r: Result<Texture, TextureError>, width: u32, height: u32, raw: Seq<u8>)
    -> bool {
    match r {
        Ok(t) => {
            &&& fills(PixelFormat::Rgba8, raw.len(), width, height)
            &&& t.format == PixelFormat::Rgba8
            &&& t.width == width
            &&& t.height == height
            &&& t.data@ == raw
            &&& t.wf()
        },
        Err(e) => !fills(PixelFormat::Rgba8, raw.len(), width, height) && e
            == TextureError::ResourceBounds,
    }
}

/// The colour texture of a decoded image.
pub fn texture_from_image(img: DecodedImage) -> (r: Result<Texture, TextureError>)
    ensures
        is_texture_of(r, img.width, img.height, img.data@),
{
    load_texture_from_bytes(img.data, img.width, img.height)
}

/// Decodes a PNG image into a colour texture, bottom row first.
pub fn load_texture(data: &Vec<u8>) -> (r: Result<Texture, TextureError>)
    ensures
        match decoded_png(data@) {
            Some((width, height, raw)) => is_texture_of(r, width, height, raw),
            None => r == Err::<Texture, TextureError>(TextureError::Decode),
        },
        r is Ok <==> (decoded_png(data@) matches Some((width, height, _)) && width
            <= MAX_TEXTURE_SIZE && height <= MAX_TEXTURE_SIZE),
{
    match decode_image(data) {
        Ok(img) => texture_from_image(img),
        Err(e) => Err(e),
    }
}

} // verus!

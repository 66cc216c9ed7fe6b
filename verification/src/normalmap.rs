//! The high-precision normal map: each pixel of the bundled image packs one
//! 32-bit value, and three of them make one texel.

use vstd::prelude::*;
use crate::decode::{decode_image, decoded_png, DecodedImage};
use crate::texture::{TextureError, MAX_TEXTURE_SIZE};

verus! {

/// Pixels of the image that make one texel of the map.
pub const PIXELS_PER_TEXEL: u32 = 3;

/// The largest packed value; a packed value stands for itself divided by
/// this.
pub const PACKED_MAX: u32 = 0xffff_ffff;

/// The value that a pixel packs: alpha, red, green and blue, from the
/// highest byte down.
pub open spec fn packed_value(red: u8, green: u8, blue: u8, alpha: u8) -> int {
    alpha * 0x100_0000 + red * 0x1_0000 + green * 0x100 + blue
}

/// The packed values of RGBA pixel bytes, one for each whole pixel.
pub open spec fn packed_pixels(raw: Seq<u8>) -> Seq<u32> {
    Seq::new(
        raw.len() / 4,
        |i: int| packed_value(raw[4 * i], raw[4 * i + 1], raw[4 * i + 2], raw[4 * i + 3]) as u32,
    )
}

/// A map of `width * height` texels. Each texel holds three values, and the
/// value `v` stands for the number `v / PACKED_MAX` between 0 and 1.
#[derive(Clone, Debug, PartialEq, Eq)]
pub struct NormalMap {
    pub width: u16,
    pub height: u16,
    pub values: Vec<u32>,
}

/// Packs one pixel.
pub fn pack_pixel(red: u8, green: u8, blue: u8, alpha: u8) -> (n: u32)
    ensures
        n == packed_value(red, green, blue, alpha),
{
    let n: u32 = ((alpha as u32) << 24) | ((red as u32) << 16) | ((green as u32) << 8) | (
    blue as u32);
    proof {
        let (a, r, g, b) = (alpha as u32, red as u32, green as u32, blue as u32);
        assert((a << 24) | (r << 16) | (g << 8) | b == a * 0x100_0000 + r * 0x1_0000 + g * 0x100
            + b) by (bit_vector)
            requires
                a < 256,
                r < 256,
                g < 256,
                b < 256,
        ;
    }
    n
}

/// Whether `r` is the normal map of a decoded image of `width * height`
/// pixels with the bytes `raw`: a third as wide, as high, with the packed
/// value of every pixel in the image's order.
pub open spec fn is_normal_map_of(
    r: Result<NormalMap, TextureError>,
    width: u32,
    height: u32,
    raw: Seq<u8>,
) -> bool {
    let fits = width / PIXELS_PER_TEXEL <= MAX_TEXTURE_SIZE && height <= MAX_TEXTURE_SIZE;
    match r {
        Ok(m) => {
            &&& fits
            &&& m.width == width / PIXELS_PER_TEXEL
            &&& m.height == height
            &&& m.values@ == packed_pixels(raw)
        },
        Err(e) => !fits && e == TextureError::ResourceBounds,
    }
}

/// The normal map of a decoded image.
pub fn normalmap_from_image(img: &DecodedImage) -> (r: Result<NormalMap, TextureError>)
    ensures
        is_normal_map_of(r, img.width, img.height, img.data@),
{
    let width: u32 = img.width / PIXELS_PER_TEXEL;
    if width > MAX_TEXTURE_SIZE || img.height > MAX_TEXTURE_SIZE {
        return Err(TextureError::ResourceBounds);
    }
    let count: usize = img.data.len() / 4;
    let mut values: Vec<u32> = Vec::new();
    let mut i: usize = 0;
    while i < count
        invariant
            i <= count,
            count == img.data@.len() / 4,
            img.data@.len() <= usize::MAX,
            values@.len() == i,
            forall|k: int| 0 <= k < i ==> #[trigger] values@[k] == packed_pixels(img.data@)[k],
        decreases count - i,
    {
        let n: u32 = pack_pixel(
            img.data[i * 4],
            img.data[i * 4 + 1],
            img.data[i * 4 + 2],
            img.data[i * 4 + 3],
        );
        values.push(n);
        i += 1;
    }
    proof {
        assert(values@ =~= packed_pixels(img.data@));
    }
    Ok(NormalMap { width: width as u16, height: img.height as u16, values })
}

/// Decodes the PNG image of a normal map, bottom row first, and packs it.
pub fn load_highres_normalmap(data: &Vec<u8>) -> (r: Result<NormalMap, TextureError>)
    ensures
        match decoded_png(data@) {
            Some((width, height, raw)) => is_normal_map_of(r, width, height, raw),
            None => r matches Err(e) && e == TextureError::Decode,
        },
{
    match decode_image(data) {
        Ok(img) => normalmap_from_image(&img),
        Err(e) => Err(e),
    }
}

} // verus!

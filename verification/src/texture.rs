//! Staging textures: pixel data held row by row in main memory, created
//! whole and overwritten in place, one rectangle at a time.

use vstd::prelude::*;
use vstd::arithmetic::div_mod::{lemma_fundamental_div_mod, lemma_fundamental_div_mod_converse};

verus! {

/// The pixel layouts of a staging texture.
#[derive(Clone, Copy, Debug, PartialEq, Eq)]
pub enum PixelFormat {
    /// Four normalized 8-bit channels: colour.
    Rgba8,
    /// One normalized 8-bit channel: a mask or depth.
    R8,
}

/// What can go wrong while a texture is made.
#[derive(Clone, Copy, Debug, PartialEq, Eq)]
pub enum TextureError {
    /// The encoded image is malformed.
    Decode,
    /// The bytes do not fill the requested size, or the size is beyond what
    /// a texture can have.
    ResourceBounds,
}

/// The largest width or height of a texture.
pub const MAX_TEXTURE_SIZE: u32 = 65_535;

/// Bytes that one pixel takes.
pub open spec fn bytes_per_pixel_of(format: PixelFormat) -> int {
    match format {
        PixelFormat::Rgba8 => 4,
        PixelFormat::R8 => 1,
    }
}

/// Bytes that one pixel takes.
pub fn bytes_per_pixel(format: PixelFormat) -> (r: usize)
    ensures
        r == bytes_per_pixel_of(format),
{
    match format {
        PixelFormat::Rgba8 => 4,
        PixelFormat::R8 => 1,
    }
}

/// Whether byte `i` of rows of `stride` bytes lies in the rectangle of `h`
/// rows from row `y0`, each of `w` bytes from byte `x0` of its row.
pub open spec fn in_region(i: int, stride: int, x0: int, y0: int, w: int, h: int) -> bool {
    &&& y0 <= i / stride < y0 + h
    &&& x0 <= i % stride < x0 + w
}

/// The place of byte `i` within the rectangle, rows first.
pub open spec fn region_index(i: int, stride: int, x0: int, y0: int, w: int) -> int {
    (i / stride - y0) * w + (i % stride - x0)
}

/// The place in the rows of byte `j` of the rectangle.
pub open spec fn texel_index(j: int, stride: int, x0: int, y0: int, w: int) -> int {
    (y0 + j / w) * stride + x0 + j % w
}

/// `data` with the rectangle overwritten by `bytes`.
pub open spec fn region_write(
    data: Seq<u8>,
    stride: int,
    x0: int,
    y0: int,
    w: int,
    h: int,
    bytes: Seq<u8>,
) -> Seq<u8> {
    Seq::new(
        data.len(),
        |i: int|
            if in_region(i, stride, x0, y0, w, h) {
                bytes[region_index(i, stride, x0, y0, w)]
            } else {
                data[i]
            },
    )
}

/// The bytes of the rectangle, rows first.
pub open spec fn region_read(data: Seq<u8>, stride: int, x0: int, y0: int, w: int, h: int) -> Seq<
    u8,
> {
    Seq::new((w * h) as nat, |j: int| data[texel_index(j, stride, x0, y0, w)])
}

/// Row `row`, byte `col` lies at `row * stride + col`, and nowhere else.
pub proof fn lemma_cell(row: int, col: int, stride: int)
    requires
        0 <= col < stride,
    ensures
        (row * stride + col) / stride == row,
        (row * stride + col) % stride == col,
{
    lemma_fundamental_div_mod_converse(row * stride + col, stride, row, col);
}

/// A cell within `rows` rows lies within `rows * stride` bytes.
pub proof fn lemma_cell_bound(row: int, col: int, stride: int, rows: int)
    requires
        0 <= row < rows,
        0 <= col < stride,
    ensures
        0 <= row * stride + col < rows * stride,
        0 <= row * stride,
{
    assert(row * stride + stride <= rows * stride) by (nonlinear_arith)
        requires
            0 <= row < rows,
            0 < stride,
    ;
    assert(0 <= row * stride) by (nonlinear_arith)
        requires
            0 <= row,
            0 < stride,
    ;
}

/// Byte `j` of a rectangle of `h` rows of `w` bytes lies in row `j / w`.
pub proof fn lemma_region_cell(j: int, w: int, h: int)
    requires
        0 <= j < w * h,
        0 <= w,
    ensures
        0 < w,
        0 <= j / w < h,
        0 <= j % w < w,
        (j / w) * w + j % w == j,
{
    assert(w != 0) by (nonlinear_arith)
        requires
            0 <= j < w * h,
    ;
    lemma_fundamental_div_mod(j, w);
    assert(w * (j / w) == (j / w) * w) by (nonlinear_arith);
    assert(0 <= j / w < h) by (nonlinear_arith)
        requires
            0 <= j < w * h,
            0 < w,
            j == (j / w) * w + j % w,
            0 <= j % w < w,
    ;
}

/// Overwrites the rectangle of `data` by `raw`.
fn write_bytes(
    data: &mut Vec<u8>,
    stride: usize,
    x0: usize,
    y0: usize,
    w: usize,
    h: usize,
    raw: &[u8],
)
    requires
        x0 + w <= stride,
        (y0 + h) * stride <= old(data).len(),
        raw@.len() == w * h,
    ensures
        final(data)@ == region_write(
            old(data)@,
            stride as int,
            x0 as int,
            y0 as int,
            w as int,
            h as int,
            raw@,
        ),
{
    let ghost before = data@;
    let total: usize = raw.len();
    let mut j: usize = 0;
    while j < total
        invariant
            j <= total,
            total == raw@.len(),
            total == w * h,
            x0 + w <= stride,
            (y0 + h) * stride <= before.len(),
            before.len() <= usize::MAX,
            data@.len() == before.len(),
            forall|i: int|
                0 <= i < before.len() ==> #[trigger] data@[i] == (if in_region(
                    i,
                    stride as int,
                    x0 as int,
                    y0 as int,
                    w as int,
                    h as int,
                ) && region_index(i, stride as int, x0 as int, y0 as int, w as int) < j {
                    raw@[region_index(i, stride as int, x0 as int, y0 as int, w as int)]
                } else {
                    before[i]
                }),
        decreases total - j,
    {
        proof {
            lemma_region_cell(j as int, w as int, h as int);
            lemma_cell_bound(y0 + j as int / w as int, x0 + j as int % w as int, stride as int, y0 + h);
            lemma_cell(y0 + j as int / w as int, x0 + j as int % w as int, stride as int);
            assert(y0 + h <= (y0 + h) * stride) by (nonlinear_arith)
                requires
                    stride >= 1,
                    y0 + h >= 0,
            ;
        }
        let row: usize = j / w;
        let col: usize = j % w;
        let idx: usize = (y0 + row) * stride + x0 + col;
        let ghost prev = data@;
        data.set(idx, raw[j]);
        proof {
            assert forall|i: int| 0 <= i < before.len() implies #[trigger] data@[i] == (if in_region(
                i,
                stride as int,
                x0 as int,
                y0 as int,
                w as int,
                h as int,
            ) && region_index(i, stride as int, x0 as int, y0 as int, w as int) < j + 1 {
                raw@[region_index(i, stride as int, x0 as int, y0 as int, w as int)]
            } else {
                before[i]
            }) by {
                let ri = region_index(i, stride as int, x0 as int, y0 as int, w as int);
                if i != idx && in_region(i, stride as int, x0 as int, y0 as int, w as int, h as int)
                    && ri == j {
                    lemma_fundamental_div_mod_converse(
                        j as int,
                        w as int,
                        i / (stride as int) - y0,
                        i % (stride as int) - x0,
                    );
                    lemma_fundamental_div_mod(i, stride as int);
                    assert((stride as int) * (i / (stride as int)) == (i / (stride as int)) * (
                    stride as int)) by (nonlinear_arith);
                    assert(false);
                }
                assert(prev[i] == (if in_region(
                    i,
                    stride as int,
                    x0 as int,
                    y0 as int,
                    w as int,
                    h as int,
                ) && ri < j {
                    raw@[ri]
                } else {
                    before[i]
                }));
            }
        }
        j += 1;
    }
    proof {
        assert forall|i: int| 0 <= i < before.len() && in_region(
            i,
            stride as int,
            x0 as int,
            y0 as int,
            w as int,
            h as int,
        ) implies region_index(i, stride as int, x0 as int, y0 as int, w as int) < total by {
            lemma_cell_bound(i / (stride as int) - y0, i % (stride as int) - x0, w as int, h as int);
            assert(h * w == w * h) by (nonlinear_arith);
        }
        assert(data@ =~= region_write(
            before,
            stride as int,
            x0 as int,
            y0 as int,
            w as int,
            h as int,
            raw@,
        ));
    }
}

/// Reads the rectangle of `data`, rows first.
fn read_bytes(data: &Vec<u8>, stride: usize, x0: usize, y0: usize, w: usize, h: usize) -> (r: Vec<
    u8,
>)
    requires
        x0 + w <= stride,
        (y0 + h) * stride <= data.len(),
        w * h <= usize::MAX,
    ensures
        r@ == region_read(data@, stride as int, x0 as int, y0 as int, w as int, h as int),
{
    proof {
        assert(0 <= w * h) by (nonlinear_arith)
            requires
                0 <= w,
                0 <= h,
        ;
    }
    let total: usize = w * h;
    let mut out: Vec<u8> = Vec::new();
    let mut j: usize = 0;
    while j < total
        invariant
            j <= total,
            total == w * h,
            x0 + w <= stride,
            (y0 + h) * stride <= data.len(),
            out@.len() == j,
            forall|k: int|
                0 <= k < j ==> #[trigger] out@[k] == data@[texel_index(
                    k,
                    stride as int,
                    x0 as int,
                    y0 as int,
                    w as int,
                )],
        decreases total - j,
    {
        proof {
            lemma_region_cell(j as int, w as int, h as int);
            lemma_cell_bound(
                y0 + j as int / w as int,
                x0 + j as int % w as int,
                stride as int,
                y0 + h,
            );
            assert(y0 + h <= (y0 + h) * stride) by (nonlinear_arith)
                requires
                    stride >= 1,
                    y0 + h >= 0,
            ;
        }
        let row: usize = j / w;
        let col: usize = j % w;
        let idx: usize = (y0 + row) * stride + x0 + col;
        out.push(data[idx]);
        j += 1;
    }
    proof {
        assert(out@ =~= region_read(
            data@,
            stride as int,
            x0 as int,
            y0 as int,
            w as int,
            h as int,
        ));
    }
    out
}

/// Pixel data in main memory, rows first, each row `width` pixels long.
#[derive(Clone, Debug, PartialEq, Eq)]
pub struct Texture {
    pub format: PixelFormat,
    pub width: u16,
    pub height: u16,
    pub data: Vec<u8>,
}

impl Texture {
    /// The data fills the size exactly.
    pub open spec fn wf(&self) -> bool {
        self.data@.len() == self.width * self.height * bytes_per_pixel_of(self.format)
    }

    /// Bytes in one row.
    pub open spec fn stride(&self) -> int {
        self.width * bytes_per_pixel_of(self.format)
    }

    /// Whether the rectangle of `size` (width, height) at `offset` (x, y)
    /// lies within the texture.
    pub open spec fn holds_region(&self, size: [u16; 2], offset: [u16; 2]) -> bool {
        &&& offset[0] + size[0] <= self.width
        &&& offset[1] + size[1] <= self.height
    }

    /// Bytes that a rectangle of `size` takes.
    pub open spec fn region_len(&self, size: [u16; 2]) -> int {
        size[0] * bytes_per_pixel_of(self.format) * size[1]
    }

    /// The data after the rectangle was overwritten by `bytes`.
    pub open spec fn overwritten(&self, size: [u16; 2], offset: [u16; 2], bytes: Seq<u8>) -> Seq<
        u8,
    > {
        region_write(
            self.data@,
            self.stride(),
            offset[0] * bytes_per_pixel_of(self.format),
            offset[1] as int,
            size[0] * bytes_per_pixel_of(self.format),
            size[1] as int,
            bytes,
        )
    }

    /// The bytes of the rectangle, rows first.
    pub open spec fn region(&self, size: [u16; 2], offset: [u16; 2]) -> Seq<u8> {
        region_read(
            self.data@,
            self.stride(),
            offset[0] * bytes_per_pixel_of(self.format),
            offset[1] as int,
            size[0] * bytes_per_pixel_of(self.format),
            size[1] as int,
        )
    }

    /// The rectangle lies within the rows of the data.
    pub proof fn lemma_region_within(&self, size: [u16; 2], offset: [u16; 2])
        requires
            self.wf(),
            self.holds_region(size, offset),
        ensures
            offset[0] * bytes_per_pixel_of(self.format) + size[0] * bytes_per_pixel_of(self.format)
                <= self.stride(),
            (offset[1] + size[1]) * self.stride() <= self.data@.len(),
            0 <= self.region_len(size) <= self.data@.len(),
    {
        let b = bytes_per_pixel_of(self.format);
        let w = self.width as int;
        let h = self.height as int;
        let (sw, sh) = (size[0] as int, size[1] as int);
        let (ox, oy) = (offset[0] as int, offset[1] as int);
        assert(ox * b + sw * b <= w * b && (oy + sh) * (w * b) <= w * h * b && 0 <= sw * b * sh
            <= w * h * b) by (nonlinear_arith)
            requires
                0 <= ox,
                0 <= oy,
                0 <= sw,
                0 <= sh,
                ox + sw <= w,
                oy + sh <= h,
                1 <= b,
        ;
    }

    /// Whether the rectangle lies within the texture and `len` bytes fill it.
    pub fn accepts(&self, size: [u16; 2], offset: [u16; 2], len: usize) -> (r: bool)
        ensures
            r == (self.holds_region(size, offset) && len == self.region_len(size)),
    {
        let bpp: u64 = bytes_per_pixel(self.format) as u64;
        let inside: bool = offset[0] as u32 + size[0] as u32 <= self.width as u32 && offset[1] as u32
            + size[1] as u32 <= self.height as u32;
        proof {
            assert(0 <= size[0] * bpp * size[1] <= 65_535 * 4 * 65_535) by (nonlinear_arith)
                requires
                    0 <= size[0] <= 65_535,
                    0 <= size[1] <= 65_535,
                    1 <= bpp <= 4,
            ;
        }
        let need: u64 = size[0] as u64 * bpp * size[1] as u64;
        inside && len as u64 == need
    }

    /// The bytes of the rectangle of `size` at `offset`, rows first.
    pub fn read_region(&self, size: [u16; 2], offset: [u16; 2]) -> (r: Vec<u8>)
        requires
            self.wf(),
            self.holds_region(size, offset),
        ensures
            r@ == self.region(size, offset),
    {
        proof {
            self.lemma_region_within(size, offset);
        }
        let bpp: usize = bytes_per_pixel(self.format);
        read_bytes(
            &self.data,
            self.width as usize * bpp,
            offset[0] as usize * bpp,
            offset[1] as usize,
            size[0] as usize * bpp,
            size[1] as usize,
        )
    }

    /// Overwrites the rectangle of `size` at `offset` by `raw_data`.
    pub fn write_region(&mut self, size: [u16; 2], offset: [u16; 2], raw_data: &[u8])
        requires
            old(self).wf(),
            old(self).holds_region(size, offset),
            raw_data@.len() == old(self).region_len(size),
        ensures
            final(self).wf(),
            final(self).format == old(self).format,
            final(self).width == old(self).width,
            final(self).height == old(self).height,
            final(self).data@ == old(self).overwritten(size, offset, raw_data@),
    {
        proof {
            self.lemma_region_within(size, offset);
        }
        let bpp: usize = bytes_per_pixel(self.format);
        write_bytes(
            &mut self.data,
            self.width as usize * bpp,
            offset[0] as usize * bpp,
            offset[1] as usize,
            size[0] as usize * bpp,
            size[1] as usize,
            raw_data,
        );
    }
}

/// Whether `len` bytes fill a texture of `width * height` pixels of
/// `format`, and the size is one that a texture can have.
pub open spec fn fills(format: PixelFormat, len: nat, width: u32, height: u32) -> bool {
    &&& width <= MAX_TEXTURE_SIZE
    &&& height <= MAX_TEXTURE_SIZE
    &&& len == width * height * bytes_per_pixel_of(format)
}

/// Makes a texture of `format` from bytes that must fill `width * height`
/// pixels exactly.
pub fn create_texture(format: PixelFormat, data: Vec<u8>, width: u32, height: u32) -> (r: Result<
    Texture,
    TextureError,
>)
    ensures
        match r {
            Ok(t) => {
                &&& fills(format, data@.len(), width, height)
                &&& t.format == format
                &&& t.width == width
                &&& t.height == height
                &&& t.data@ == data@
                &&& t.wf()
            },
            Err(e) => !fills(format, data@.len(), width, height) && e
                == TextureError::ResourceBounds,
        },
{
    if width > MAX_TEXTURE_SIZE || height > MAX_TEXTURE_SIZE {
        return Err(TextureError::ResourceBounds);
    }
    let bpp: u64 = bytes_per_pixel(format) as u64;
    proof {
        assert(0 <= width * height * bpp <= 65_535 * 65_535 * 4) by (nonlinear_arith)
            requires
                0 <= width <= 65_535,
                0 <= height <= 65_535,
                1 <= bpp <= 4,
        ;
    }
    let need: u64 = width as u64 * height as u64 * bpp;
    if data.len() as u64 != need {
        return Err(TextureError::ResourceBounds);
    }
    Ok(Texture { format, width: width as u16, height: height as u16, data })
}

/// Makes a colour texture from `width * height * 4` bytes.
pub fn load_texture_from_bytes(data: Vec<u8>, width: u32, height: u32) -> (r: Result<
    Texture,
    TextureError,
>)
    ensures
        match r {
            Ok(t) => {
                &&& fills(PixelFormat::Rgba8, data@.len(), width, height)
                &&& t.format == PixelFormat::Rgba8
                &&& t.width == width
                &&& t.height == height
                &&& t.data@ == data@
                &&& t.wf()
            },
            Err(e) => !fills(PixelFormat::Rgba8, data@.len(), width, height) && e
                == TextureError::ResourceBounds,
        },
{
    create_texture(PixelFormat::Rgba8, data, width, height)
}

/// Makes a single-channel texture from `width * height` bytes.
pub fn load_single_channel_texture_from_bytes(data: Vec<u8>, width: u32, height: u32) -> (r:
    Result<Texture, TextureError>)
    ensures
        match r {
            Ok(t) => {
                &&& fills(PixelFormat::R8, data@.len(), width, height)
                &&& t.format == PixelFormat::R8
                &&& t.width == width
                &&& t.height == height
                &&& t.data@ == data@
                &&& t.wf()
            },
            Err(e) => !fills(PixelFormat::R8, data@.len(), width, height) && e
                == TextureError::ResourceBounds,
        },
{
    create_texture(PixelFormat::R8, data, width, height)
}

/// Replaces a rectangle of a colour texture, or the whole of it: `size` is
/// the rectangle's width and height in pixels, `offset` its left column and
/// first row, `raw_data` its pixels, rows first, four bytes each.
pub fn update_texture(texture: &mut Texture, size: [u16; 2], offset: [u16; 2], raw_data: &[u8])
    requires
        old(texture).wf(),
        old(texture).format == PixelFormat::Rgba8,
        old(texture).holds_region(size, offset),
        raw_data@.len() == old(texture).region_len(size),
    ensures
        final(texture).wf(),
        final(texture).format == old(texture).format,
        final(texture).width == old(texture).width,
        final(texture).height == old(texture).height,
        final(texture).data@ == old(texture).overwritten(size, offset, raw_data@),
{
    texture.write_region(size, offset, raw_data);
}

/// Replaces a rectangle of a single-channel texture, or the whole of it, as
/// [`update_texture`] does for colour, one byte for each pixel.
pub fn update_single_channel_texture(
    texture: &mut Texture,
    size: [u16; 2],
    offset: [u16; 2],
    raw_data: &[u8],
)
    requires
        old(texture).wf(),
        old(texture).format == PixelFormat::R8,
        old(texture).holds_region(size, offset),
        raw_data@.len() == old(texture).region_len(size),
    ensures
        final(texture).wf(),
        final(texture).format == old(texture).format,
        final(texture).width == old(texture).width,
        final(texture).height == old(texture).height,
        final(texture).data@ == old(texture).overwritten(size, offset, raw_data@),
{
    texture.write_region(size, offset, raw_data);
}

/// What was written to a rectangle is what that rectangle then holds.
pub proof fn lemma_region_round_trip(
    data: Seq<u8>,
    stride: int,
    x0: int,
    y0: int,
    w: int,
    h: int,
    bytes: Seq<u8>,
)
    requires
        0 <= x0,
        0 <= y0,
        0 <= w,
        0 <= h,
        x0 + w <= stride,
        (y0 + h) * stride <= data.len(),
        bytes.len() == w * h,
    ensures
        region_read(region_write(data, stride, x0, y0, w, h, bytes), stride, x0, y0, w, h)
            == bytes,
{
    let written = region_write(data, stride, x0, y0, w, h, bytes);
    let back = region_read(written, stride, x0, y0, w, h);
    assert forall|j: int| 0 <= j < w * h implies back[j] == bytes[j] by {
        lemma_region_cell(j, w, h);
        lemma_cell_bound(y0 + j / w, x0 + j % w, stride, y0 + h);
        lemma_cell(y0 + j / w, x0 + j % w, stride);
    }
    assert(back =~= bytes);
}

/// Writing a rectangle of a texture and reading the same rectangle back
/// gives the written bytes, in either format: `after` is the texture that
/// the update of `before` left.
pub proof fn lemma_update_then_read(
    before: Texture,
    after: Texture,
    size: [u16; 2],
    offset: [u16; 2],
    bytes: Seq<u8>,
)
    requires
        before.wf(),
        before.holds_region(size, offset),
        bytes.len() == before.region_len(size),
        after.format == before.format,
        after.width == before.width,
        after.height == before.height,
        after.data@ == before.overwritten(size, offset, bytes),
    ensures
        after.wf(),
        after.holds_region(size, offset),
        after.region(size, offset) == bytes,
{
    before.lemma_region_within(size, offset);
    lemma_region_round_trip(
        before.data@,
        before.stride(),
        offset[0] * bytes_per_pixel_of(before.format),
        offset[1] as int,
        size[0] * bytes_per_pixel_of(before.format),
        size[1] as int,
        bytes,
    );
}

} // verus!

//! The lens pass: it blurs what lies outside the range on which the
//! simulated eye can focus.

use vstd::prelude::*;
use crate::decode::decoded_png;
use crate::normalmap::{is_normal_map_of, load_highres_normalmap, NormalMap};
use crate::params::ValueMap;
use crate::texture::{load_texture_from_bytes, PixelFormat, Texture, TextureError};
use crate::uniforms::{compute_uniforms, default_optics, optics_of, OpticalUniforms, Optics};

verus! {

/// Vertices of the two triangles that cover the screen.
pub const FULL_SCREEN_VERTICES: u32 = 6;

/// Samples that the shader takes for each pixel.
pub const SAMPLE_COUNT: u32 = 4;

/// The channels of one captured frame, each named by the handle under which
/// the render backend holds its view.
#[derive(Clone, Copy, Debug, PartialEq, Eq)]
pub enum DeviceSource {
    Rgb { rgba8: u32 },
    RgbDepth { rgba8: u32, d: u32 },
    Yuv { y: u32, u: u32, v: u32 },
}

/// A view and the sampler through which the shader reads it, by handle.
#[derive(Clone, Copy, Debug, PartialEq, Eq)]
pub struct Binding {
    pub view: u32,
    pub sampler: u32,
}

/// One full-screen draw: what to draw with, and where to.
#[derive(Clone, Copy, Debug, PartialEq, Eq)]
pub struct DrawCall {
    pub vertex_count: u32,
    pub sample_count: u32,
    pub uniforms: OpticalUniforms,
    pub color: Binding,
    pub depth: Binding,
    pub target: u32,
}

/// The lens pass. Its textures live as long as the pass; its bindings and
/// uniforms are renewed for every frame.
#[derive(Clone, Debug, PartialEq, Eq)]
pub struct Lens {
    pub uniforms: OpticalUniforms,
    pub color: Binding,
    pub depth: Binding,
    pub target: u32,
    pub normal: NormalMap,
    pub cornea: Texture,
}

/// The single grey pixel that stands in for the cornea map.
pub open spec fn cornea_pixel() -> Seq<u8> {
    seq![127u8, 127u8, 127u8, 127u8]
}

impl Lens {
    /// The uniforms are well formed and the cornea texture is the grey pixel.
    pub open spec fn wf(&self) -> bool {
        &&& self.uniforms.wf()
        &&& self.cornea.wf()
        &&& self.cornea.format == PixelFormat::Rgba8
        &&& self.cornea.width == 1
        &&& self.cornea.height == 1
    }

    /// Whether the pass can read a source of this kind.
    pub open spec fn supports_spec(source: DeviceSource) -> bool {
        !(source is Yuv)
    }

    /// Whether the pass can read a source of this kind.
    pub fn supports(source: &DeviceSource) -> (r: bool)
        ensures
            r == Self::supports_spec(*source),
    {
        match source {
            DeviceSource::Rgb { .. } => true,
            DeviceSource::RgbDepth { .. } => true,
            DeviceSource::Yuv { .. } => false,
        }
    }

    /// Makes the pass from the PNG bytes of its normal map and from the
    /// placeholders to which it is bound until the first frame. Fails where
    /// the image does not decode or is too large for a texture.
    pub fn new(normal_image: &Vec<u8>, color: Binding, depth: Binding, target: u32) -> (r: Result<
        Lens,
        TextureError,
    >)
        ensures
            match r {
                Ok(lens) => {
                    &&& lens.wf()
                    &&& lens.uniforms@ == default_optics()
                    &&& lens.color == color
                    &&& lens.depth == depth
                    &&& lens.target == target
                    &&& lens.cornea.data@ == cornea_pixel()
                    &&& decoded_png(normal_image@) matches Some((width, height, raw))
                    &&& is_normal_map_of(Ok(lens.normal), width, height, raw)
                },
                Err(e) => match decoded_png(normal_image@) {
                    Some((width, height, raw)) => is_normal_map_of(Err(e), width, height, raw),
                    None => e == TextureError::Decode,
                },
            },
    {
        let normal = match load_highres_normalmap(normal_image) {
            Ok(normal) => normal,
            Err(e) => {
                return Err(e);
            },
        };
        let mut pixel: Vec<u8> = Vec::new();
        pixel.push(127);
        pixel.push(127);
        pixel.push(127);
        pixel.push(127);
        proof {
            assert(pixel@ =~= cornea_pixel());
        }
        let cornea = match load_texture_from_bytes(pixel, 1, 1) {
            Ok(cornea) => cornea,
            Err(e) => {
                return Err(e);
            },
        };
        Ok(Lens { uniforms: OpticalUniforms::pass_through(), color, depth, target, normal, cornea })
    }

    /// Binds the pass to the target and the source of this frame. A colour
    /// source leaves the depth binding as it was.
    pub fn update_io(
        &mut self,
        target: u32,
        _target_size: (u32, u32),
        source: &DeviceSource,
        source_sampler: u32,
        _source_size: (u32, u32),
        stereo: bool,
    )
        requires
            Self::supports_spec(*source),
            old(self).wf(),
        ensures
            final(self).wf(),
            final(self).uniforms == (OpticalUniforms { stereo, ..old(self).uniforms }),
            final(self).target == target,
            final(self).color == (Binding {
                view: match *source {
                    DeviceSource::Rgb { rgba8 } => rgba8,
                    DeviceSource::RgbDepth { rgba8, .. } => rgba8,
                    DeviceSource::Yuv { .. } => old(self).color.view,
                },
                sampler: source_sampler,
            }),
            final(self).depth == (match *source {
                DeviceSource::RgbDepth { d, .. } => Binding { view: d, sampler: source_sampler },
                _ => old(self).depth,
            }),
            final(self).normal == old(self).normal,
            final(self).cornea == old(self).cornea,
    {
        self.uniforms.stereo = stereo;
        self.target = target;
        match *source {
            DeviceSource::Rgb { rgba8 } => {
                self.color = Binding { view: rgba8, sampler: source_sampler };
            },
            DeviceSource::RgbDepth { rgba8, d } => {
                self.color = Binding { view: rgba8, sampler: source_sampler };
                self.depth = Binding { view: d, sampler: source_sampler };
            },
            DeviceSource::Yuv { .. } => {},
        }
    }

    /// Derives the uniforms of this frame from its parameters. The stereo
    /// flag and the depth range stay as they were.
    pub fn update_params(&mut self, params: &ValueMap)
        requires
            old(self).wf(),
        ensures
            final(self).wf(),
            final(self).uniforms@ == (Optics {
                stereo: old(self).uniforms.stereo,
                depth_min: old(self).uniforms.depth_min@,
                depth_max: old(self).uniforms.depth_max@,
                ..optics_of(params@)
            }),
            final(self).color == old(self).color,
            final(self).depth == old(self).depth,
            final(self).target == old(self).target,
            final(self).normal == old(self).normal,
            final(self).cornea == old(self).cornea,
    {
        let u = compute_uniforms(params);
        self.uniforms = OpticalUniforms {
            stereo: self.uniforms.stereo,
            depth_min: self.uniforms.depth_min,
            depth_max: self.uniforms.depth_max,
            ..u
        };
    }

    /// The draw of this frame: two triangles over the whole target, with
    /// the current bindings and uniforms.
    pub fn render(&self) -> (r: DrawCall)
        ensures
            r == (DrawCall {
                vertex_count: FULL_SCREEN_VERTICES,
                sample_count: SAMPLE_COUNT,
                uniforms: self.uniforms,
                color: self.color,
                depth: self.depth,
                target: self.target,
            }),
    {
        DrawCall {
            vertex_count: FULL_SCREEN_VERTICES,
            sample_count: SAMPLE_COUNT,
            uniforms: self.uniforms,
            color: self.color,
            depth: self.depth,
            target: self.target,
        }
    }
}

} // verus!

use vss::desktop::{resolve_desktop_devices, Config, DesktopDevice};
use vss::driver::{action, advance, FrameAction, FrameState};
use vss::lens::{Binding, DeviceSource, DrawCall, Lens};
use vss::params::{Value, ValueMap};
use vss::texture::{PixelFormat, TextureError};
use vss::uniforms::{Distance, OpticalUniforms};

fn normal_png() -> Vec<u8> {
    let rgba: Vec<u8> = (0..3 * 4).map(|i| (i * 20) as u8).collect();
    let mut out: Vec<u8> = Vec::new();
    image::codecs::png::PngEncoder::new(&mut out)
        .encode(&rgba, 3, 1, image::ColorType::Rgba8)
        .unwrap();
    out
}

fn lens() -> Lens {
    Lens::new(&normal_png(), Binding { view: 1, sampler: 2 }, Binding { view: 3, sampler: 2 }, 4)
        .unwrap()
}

#[test]
fn new_lens_passes_through() {
    let l = lens();
    assert_eq!(l.uniforms, OpticalUniforms::pass_through());
    assert_eq!(l.color, Binding { view: 1, sampler: 2 });
    assert_eq!(l.depth, Binding { view: 3, sampler: 2 });
    assert_eq!(l.target, 4);
    assert_eq!((l.cornea.format, l.cornea.width, l.cornea.height), (PixelFormat::Rgba8, 1, 1));
    assert_eq!(l.cornea.data, vec![127, 127, 127, 127]);
    assert_eq!((l.normal.width, l.normal.height), (1, 1));
    assert_eq!(l.normal.values, vec![0x3c00_1428, 0x8c50_6478, 0xdca0_b4c8]);
}

#[test]
fn new_lens_needs_a_png() {
    let b = Binding { view: 0, sampler: 0 };
    assert_eq!(Lens::new(&vec![1, 2, 3], b, b, 0), Err(TextureError::Decode));
}

#[test]
fn lens_supports_colour_and_depth() {
    assert!(Lens::supports(&DeviceSource::Rgb { rgba8: 1 }));
    assert!(Lens::supports(&DeviceSource::RgbDepth { rgba8: 1, d: 2 }));
    assert!(!Lens::supports(&DeviceSource::Yuv { y: 1, u: 2, v: 3 }));
}

#[test]
fn update_io_binds_colour() {
    let mut l = lens();
    l.update_io(9, (640, 480), &DeviceSource::Rgb { rgba8: 7 }, 5, (320, 240), true);
    assert!(l.uniforms.stereo);
    assert_eq!(l.target, 9);
    assert_eq!(l.color, Binding { view: 7, sampler: 5 });
    assert_eq!(l.depth, Binding { view: 3, sampler: 2 });
}

#[test]
fn update_io_binds_colour_and_depth() {
    let mut l = lens();
    l.update_io(9, (640, 480), &DeviceSource::RgbDepth { rgba8: 7, d: 8 }, 5, (320, 240), false);
    assert!(!l.uniforms.stereo);
    assert_eq!(l.color, Binding { view: 7, sampler: 5 });
    assert_eq!(l.depth, Binding { view: 8, sampler: 5 });
}

#[test]
fn update_params_keeps_stereo() {
    let mut l = lens();
    l.update_io(9, (1, 1), &DeviceSource::Rgb { rgba8: 7 }, 5, (1, 1), true);
    let mut m = ValueMap::new();
    m.insert("presbyopia_onoff", Value::Bool(true));
    m.insert("presbyopia_near_point", Value::Number(50_000));
    l.update_params(&m);
    assert!(l.uniforms.stereo);
    assert!(l.uniforms.active);
    assert_eq!(l.uniforms.near_point.num, 500 * l.uniforms.near_point.den);
    assert_eq!(l.uniforms.far_point, Distance::Infinite);
    l.update_params(&ValueMap::new());
    assert_eq!(l.uniforms, OpticalUniforms { stereo: true, ..OpticalUniforms::pass_through() });
}

#[test]
fn render_draws_two_triangles() {
    let mut l = lens();
    l.update_io(9, (1, 1), &DeviceSource::RgbDepth { rgba8: 7, d: 8 }, 5, (1, 1), false);
    assert_eq!(
        l.render(),
        DrawCall {
            vertex_count: 6,
            sample_count: 4,
            uniforms: OpticalUniforms::pass_through(),
            color: Binding { view: 7, sampler: 5 },
            depth: Binding { view: 8, sampler: 5 },
            target: 9,
        }
    );
}

#[test]
fn frame_runs_in_order() {
    let mut s = FrameState::AwaitFrame;
    assert_eq!(action(s), FrameAction::BeginFrame);
    s = advance(s, false);
    assert_eq!(s, FrameState::Dispatch);
    assert_eq!(action(s), FrameAction::RenderPasses);
    s = advance(s, true);
    assert_eq!(s, FrameState::Present);
    assert_eq!(action(s), FrameAction::EndFrame);
    assert_eq!(advance(s, false), FrameState::AwaitFrame);
    s = advance(s, true);
    assert_eq!(s, FrameState::Finished);
    assert_eq!(action(s), FrameAction::Stop);
    assert_eq!(advance(s, false), FrameState::Finished);
}

#[test]
fn desktop_device_by_name() {
    assert_eq!(
        resolve_desktop_devices(&Config { device: "video".to_string() }),
        Some(DesktopDevice::Video)
    );
    assert_eq!(resolve_desktop_devices(&Config { device: "Video".to_string() }), None);
    assert_eq!(resolve_desktop_devices(&Config { device: "".to_string() }), None);
    assert_eq!(resolve_desktop_devices(&Config { device: "still".to_string() }), None);
}

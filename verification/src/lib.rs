//! Core of a visual-impairment simulator: the optical parameter model, the
//! texture staging pipeline, the lens pass and the per-frame driver.

pub mod ratio;
pub mod params;
pub mod uniforms;
pub mod laws;
pub mod texture;
pub mod decode;
pub mod normalmap;
pub mod lens;
pub mod driver;
pub mod desktop;

//! The capture devices of the desktop program.

use vstd::prelude::*;

verus! {

/// What the program was configured with.
#[derive(Clone, Debug)]
pub struct Config {
    /// The name of the capture device.
    pub device: String,
}

/// The devices that only the desktop program offers.
#[derive(Clone, Copy, Debug, PartialEq, Eq, Structural)]
pub enum DesktopDevice {
    /// Frames decoded from a video.
    Video,
}

/// The desktop device that a device name stands for.
pub open spec fn desktop_device_of(name: Seq<char>) -> Option<DesktopDevice> {
    if name == "video"@ {
        Some(DesktopDevice::Video)
    } else {
        None
    }
}

/// Picks the desktop device that `config` names, if it names one.
pub fn resolve_desktop_devices(config: &Config) -> (r: Option<DesktopDevice>)
    ensures
        r == desktop_device_of(config.device@),
{
    let video = "video".to_owned();
    if config.device == video {
        Some(DesktopDevice::Video)
    } else {
        None
    }
}

} // verus!

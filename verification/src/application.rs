//! Top-level configuration for a running instance.

use vstd::prelude::*;

verus! {

/// Window and main-loop settings handed to the runner that owns the
/// present loop. The fields are plain knobs; nothing here touches a device.
pub struct AppConfig {
    pub width: u32,
    pub height: u32,
    pub vsync: bool,
    pub log_fps: bool,
    pub fullscreen: bool,
}

/// Handle for one running instance of the renderer. The event loop and the
/// device connection that serve it are owned by the surrounding program;
/// exactly one instance is expected per process.
pub struct Application {
}

impl Application {
    pub fn new() -> Application {
        Application {}
    }
}

} // verus!

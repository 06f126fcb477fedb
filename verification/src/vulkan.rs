//! The window, device, display and swapchain decisions behind renderer setup.

use vstd::prelude::*;
use crate::options::Options;

pub mod device;
pub mod display;
pub mod events;
pub mod icon;
pub mod swapchain;

verus! {

/// How the presentation window is to be created.
pub struct WindowConfig {
    pub title: String,
    pub width: u32,
    pub height: u32,
    pub cursor_disabled: bool,
    pub fullscreen: bool,
    pub resizable: bool,
}

impl WindowConfig {
    /// The window a given set of launch options calls for: the requested
    /// geometry, the cursor hidden only for a fullscreen benchmark, and
    /// resizing allowed only in windowed mode.
    pub fn from_options(title: String, options: &Options) -> (c: WindowConfig)
        ensures
            c.title@ == title@,
            c.width == options.width,
            c.height == options.height,
            c.cursor_disabled == (options.benchmark && options.fullscreen),
            c.fullscreen == options.fullscreen,
            c.resizable == !options.fullscreen,
    {
        WindowConfig {
            title,
            width: options.width,
            height: options.height,
            cursor_disabled: options.benchmark && options.fullscreen,
            fullscreen: options.fullscreen,
            resizable: !options.fullscreen,
        }
    }
}

} // verus!

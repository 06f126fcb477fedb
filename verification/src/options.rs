//! Launch options for the renderer, with their default values.

use vstd::prelude::*;

verus! {

/// Everything the renderer can be asked to do at launch: benchmark switches,
/// sampling parameters, the scene to load, which devices may be used, and the
/// window geometry and presentation mode.
pub struct Options {
    pub benchmark: bool,
    pub benchmark_next_scenes: bool,
    pub benchmark_max_time: u32,
    pub samples: u32,
    pub bounces: u32,
    pub max_samples: u32,
    pub scene_index: u32,
    pub visible_devices: Option<Vec<u32>>,
    pub width: u32,
    pub height: u32,
    pub present_mode: u32,
    pub fullscreen: bool,
}

impl Default for Options {
    /// The stock configuration: a windowed 1280x720 session of scene 1 with
    /// FIFO presentation, 8 samples and 16 bounces per pixel, accumulating up
    /// to 65536 samples, with every device visible.
    fn default() -> (r: Options)
        ensures
            r.benchmark == false,
            r.benchmark_next_scenes == false,
            r.benchmark_max_time == 60,
            r.samples == 8,
            r.bounces == 16,
            r.max_samples == 65536,
            r.scene_index == 1,
            r.visible_devices is None,
            r.width == 1280,
            r.height == 720,
            r.present_mode == 2,
            r.fullscreen == false,
    {
        Options {
            benchmark: false,
            benchmark_next_scenes: false,
            benchmark_max_time: 60,
            samples: 8,
            bounces: 16,
            max_samples: 65_536,
            scene_index: 1,
            visible_devices: None,
            width: 1280,
            height: 720,
            present_mode: 2,
            fullscreen: false,
        }
    }
}

} // verus!

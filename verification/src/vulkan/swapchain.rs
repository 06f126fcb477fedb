//! Negotiating swapchain parameters against what the surface supports.

use vstd::prelude::*;
use crate::vulkan::display::PresentModeChoice;

verus! {

/// What the renderer reads off the surface before building the swapchain:
/// the fewest images the surface accepts, how many pixel formats it offers,
/// and which composite alpha modes it supports, in the order the driver
/// reports them.
pub struct SurfaceSupport {
    pub min_image_count: u32,
    pub format_count: usize,
    pub composite_alpha_count: usize,
}

/// The swapchain the renderer asks the driver for: the surface's minimum
/// image count, its first reported format and first reported composite alpha
/// mode, an extent equal to the window's, and the requested presentation
/// mode.
pub struct SwapchainPlan {
    pub min_image_count: u32,
    pub format_index: usize,
    pub composite_alpha_index: usize,
    pub image_extent_width: u32,
    pub image_extent_height: u32,
    pub present_mode: PresentModeChoice,
}

/// Plans the swapchain for a surface: takes the surface's minimum image
/// count, its first format and its first composite alpha mode, and sizes the
/// images to the window. Returns `None` exactly when the surface supports no
/// composite alpha mode. A surface with no pixel format at all cannot be
/// planned for and is not accepted.
pub fn plan_swapchain(
    support: &SurfaceSupport,
    window_width: u32,
    window_height: u32,
    present_mode: PresentModeChoice,
) -> (r: Option<SwapchainPlan>)
    requires
        support.format_count > 0,
    ensures
        match r {
            Some(plan) => {
                &&& support.composite_alpha_count > 0
                &&& plan.min_image_count == support.min_image_count
                &&& plan.format_index == 0
                &&& plan.composite_alpha_index == 0
                &&& plan.image_extent_width == window_width
                &&& plan.image_extent_height == window_height
                &&& plan.present_mode == present_mode
            },
            None => support.composite_alpha_count == 0,
        },
{
    if support.composite_alpha_count == 0 {
        None
    } else {
        Some(
            SwapchainPlan {
                min_image_count: support.min_image_count,
                format_index: 0,
                composite_alpha_index: 0,
                image_extent_width: window_width,
                image_extent_height: window_height,
                present_mode,
            },
        )
    }
}

} // verus!

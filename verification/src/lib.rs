//! Bootstrap logic for a real-time ray-tracing renderer: the decisions made
//! while negotiating a rendering device, a presentation surface and a
//! swapchain, kept apart from the driver calls that carry them out.

pub mod options;
pub mod text;
pub mod vendor;
pub mod vulkan;

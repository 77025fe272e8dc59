//! Decision logic of a small Vulkan renderer.
//!
//! The crate holds everything the renderer decides: which adapter to use,
//! how the presentation chain is configured, what fixed state the pipeline
//! has and in which order a frame is driven. All of it works on plain
//! values; the calls into the graphics driver are made by the embedding
//! program, which feeds their results back in.

pub mod apiversion;
pub mod command_pool;
pub mod constants;
pub mod cstringstuff;
pub mod debug;
pub mod device;
pub mod extension;
pub mod instance;
pub mod layer;
pub mod names;
pub mod physical_device;
pub mod pipeline_graphics;
pub mod properties;
pub mod renderer;
pub mod swapchain;
pub mod utils;
pub mod vk;

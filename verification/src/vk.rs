//! Plain copies of the Vulkan structures that the renderer reads, and the
//! few enumerant values its decisions compare against.
//!
//! Handles travel as their raw 64-bit numbers, enumerants as their raw
//! 32-bit numbers and names as bytes, so that every decision is a function
//! of ordinary values.

use vstd::prelude::*;

verus! {

/// Raw value of the 8-bit BGRA format with sRGB encoding.
pub const FORMAT_B8G8R8A8_SRGB: i32 = 50;

/// Raw value of the non-linear sRGB colour space.
pub const COLOR_SPACE_SRGB_NONLINEAR: i32 = 0;

/// Raw value of the mailbox present mode.
pub const PRESENT_MODE_MAILBOX: i32 = 1;

/// Raw value of the first-in-first-out present mode.
pub const PRESENT_MODE_FIFO: i32 = 2;

/// Raw value of the discrete-GPU device type.
pub const PHYSICAL_DEVICE_TYPE_DISCRETE_GPU: i32 = 2;

/// The queue capability bit for graphics work.
pub const QUEUE_GRAPHICS_BIT: u32 = 1;

/// The width by which a surface says that its extent follows the window.
pub const EXTENT_FOLLOWS_WINDOW: u32 = 0xffff_ffff;

/// `ash::vk::Format::B8G8R8A8_SRGB`, whose raw value the crate declares as 50.
#[verifier::external_body]
pub(crate) fn format_b8g8r8a8_srgb() -> (raw: i32)
    ensures
        raw == FORMAT_B8G8R8A8_SRGB,
{
    ash::vk::Format::B8G8R8A8_SRGB.as_raw()
}

/// `ash::vk::ColorSpaceKHR::SRGB_NONLINEAR`, whose raw value the crate
/// declares as 0.
#[verifier::external_body]
pub(crate) fn color_space_srgb_nonlinear() -> (raw: i32)
    ensures
        raw == COLOR_SPACE_SRGB_NONLINEAR,
{
    ash::vk::ColorSpaceKHR::SRGB_NONLINEAR.as_raw()
}

/// `ash::vk::PresentModeKHR::MAILBOX`, whose raw value the crate declares
/// as 1.
#[verifier::external_body]
pub(crate) fn present_mode_mailbox() -> (raw: i32)
    ensures
        raw == PRESENT_MODE_MAILBOX,
{
    ash::vk::PresentModeKHR::MAILBOX.as_raw()
}

/// `ash::vk::PresentModeKHR::FIFO`, whose raw value the crate declares as 2.
#[verifier::external_body]
pub(crate) fn present_mode_fifo() -> (raw: i32)
    ensures
        raw == PRESENT_MODE_FIFO,
{
    ash::vk::PresentModeKHR::FIFO.as_raw()
}

/// `ash::vk::PhysicalDeviceType::DISCRETE_GPU`, whose raw value the crate
/// declares as 2.
#[verifier::external_body]
pub(crate) fn physical_device_type_discrete_gpu() -> (raw: i32)
    ensures
        raw == PHYSICAL_DEVICE_TYPE_DISCRETE_GPU,
{
    ash::vk::PhysicalDeviceType::DISCRETE_GPU.as_raw()
}

/// `ash::vk::QueueFlags::GRAPHICS`, which the crate declares as bit 0.
#[verifier::external_body]
pub(crate) fn queue_graphics_bit() -> (raw: u32)
    ensures
        raw == QUEUE_GRAPHICS_BIT,
{
    ash::vk::QueueFlags::GRAPHICS.as_raw()
}

/// `ash::vk::QueueFlags::contains`: every bit of `wanted` is set in `flags`.
/// The crate computes it as `flags & wanted == wanted`.
#[verifier::external_body]
pub(crate) fn queue_flags_contains(flags: u32, wanted: u32) -> (all_set: bool)
    ensures
        all_set == (flags & wanted == wanted),
{
    ash::vk::QueueFlags::from_raw(flags).contains(ash::vk::QueueFlags::from_raw(wanted))
}

/// Width and height in pixels.
#[derive(PartialEq, Eq, Structural, Debug, Clone, Copy)]
pub struct Extent2D {
    pub width: u32,
    pub height: u32,
}

/// A colour format with the colour space it is shown in, both raw.
#[derive(PartialEq, Eq, Structural, Debug, Clone, Copy)]
pub struct SurfaceFormatKHR {
    pub format: i32,
    pub color_space: i32,
}

/// What a surface allows of a presentation chain.
#[derive(PartialEq, Eq, Structural, Debug, Clone, Copy)]
pub struct SurfaceCapabilitiesKHR {
    pub min_image_count: u32,
    /// Zero when the surface sets no upper limit.
    pub max_image_count: u32,
    pub current_extent: Extent2D,
    pub min_image_extent: Extent2D,
    pub max_image_extent: Extent2D,
    /// Raw transform bits, handed through to the chain unchanged.
    pub current_transform: u32,
}

/// One queue family of an adapter, with the answer to whether it can
/// present to the surface in question.
#[derive(PartialEq, Eq, Structural, Debug, Clone, Copy)]
pub struct QueueFamilyProperties {
    pub queue_flags: u32,
    pub queue_count: u32,
    pub present_support: bool,
}

impl QueueFamilyProperties {
    /// The family takes graphics commands.
    pub open spec fn has_graphics(self) -> bool {
        self.queue_flags & QUEUE_GRAPHICS_BIT == QUEUE_GRAPHICS_BIT
    }

    /// Whether the family takes graphics commands.
    pub fn supports_graphics(&self) -> (supported: bool)
        ensures
            supported == self.has_graphics(),
    {
        queue_flags_contains(self.queue_flags, queue_graphics_bit())
    }
}

/// An extension as the driver reports it: a zero-terminated name in a
/// fixed buffer, and a revision.
#[derive(Debug)]
pub struct ExtensionProperties {
    pub extension_name: Vec<i8>,
    pub spec_version: u32,
}

/// A layer as the driver reports it.
#[derive(Debug)]
pub struct LayerProperties {
    pub layer_name: Vec<i8>,
    pub spec_version: u32,
    pub implementation_version: u32,
    pub description: Vec<i8>,
}

/// The properties of an adapter that the renderer reads, as reported.
#[derive(Debug)]
pub struct PhysicalDeviceProperties {
    pub api_version: u32,
    pub device_type: i32,
    pub device_name: Vec<i8>,
}

} // verus!

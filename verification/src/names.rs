//! The names of the layers and extensions that the renderer asks for.

use crate::cstringstuff::name_from_str;
use vstd::prelude::*;
use vstd::string::StringSliceAdditionalSpecFns;

verus! {

/// The name of the Khronos validation layer.
pub open spec fn vk_layer_khronos_validation_bytes() -> Seq<u8> {
    "VK_LAYER_KHRONOS_validation".spec_bytes()
}

/// The name of the debug-utils extension.
pub open spec fn vk_ext_debug_utils_bytes() -> Seq<u8> {
    "VK_EXT_debug_utils".spec_bytes()
}

/// The name of the swapchain extension.
pub open spec fn vk_khr_swapchain_bytes() -> Seq<u8> {
    "VK_KHR_swapchain".spec_bytes()
}

/// The name of the Khronos validation layer.
pub fn vk_layer_khronos_validation() -> (name: Vec<u8>)
    ensures
        name@ == vk_layer_khronos_validation_bytes(),
{
    name_from_str("VK_LAYER_KHRONOS_validation")
}

/// `ash::extensions::ext::DebugUtils::name`, which gives the name of the
/// debug-utils extension as a C string; here without its closing zero.
#[verifier::external_body]
pub(crate) fn vk_ext_debug_utils() -> (name: Vec<u8>)
    ensures
        name@ == vk_ext_debug_utils_bytes(),
{
    ash::extensions::ext::DebugUtils::name().to_bytes().to_vec()
}

/// The name of the swapchain extension.
pub fn vk_khr_swapchain() -> (name: Vec<u8>)
    ensures
        name@ == vk_khr_swapchain_bytes(),
{
    name_from_str("VK_KHR_swapchain")
}

} // verus!

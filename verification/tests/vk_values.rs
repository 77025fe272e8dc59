use opencubes::vk::{
    QueueFamilyProperties, COLOR_SPACE_SRGB_NONLINEAR, EXTENT_FOLLOWS_WINDOW,
    FORMAT_B8G8R8A8_SRGB, PHYSICAL_DEVICE_TYPE_DISCRETE_GPU, PRESENT_MODE_FIFO,
    PRESENT_MODE_MAILBOX, QUEUE_GRAPHICS_BIT,
};

#[test]
fn raw_values_are_those_of_vulkan() {
    assert_eq!(FORMAT_B8G8R8A8_SRGB, ash::vk::Format::B8G8R8A8_SRGB.as_raw());
    assert_eq!(COLOR_SPACE_SRGB_NONLINEAR, ash::vk::ColorSpaceKHR::SRGB_NONLINEAR.as_raw());
    assert_eq!(PRESENT_MODE_MAILBOX, ash::vk::PresentModeKHR::MAILBOX.as_raw());
    assert_eq!(PRESENT_MODE_FIFO, ash::vk::PresentModeKHR::FIFO.as_raw());
    assert_eq!(
        PHYSICAL_DEVICE_TYPE_DISCRETE_GPU,
        ash::vk::PhysicalDeviceType::DISCRETE_GPU.as_raw()
    );
    assert_eq!(QUEUE_GRAPHICS_BIT, ash::vk::QueueFlags::GRAPHICS.as_raw());
    assert_eq!(EXTENT_FOLLOWS_WINDOW, u32::MAX);
}

#[test]
fn graphics_is_bit_zero_of_the_queue_flags() {
    let family = |queue_flags: u32| QueueFamilyProperties {
        queue_flags,
        queue_count: 1,
        present_support: false,
    };
    assert!(family(1).supports_graphics());
    assert!(family(3).supports_graphics());
    assert!(family(0xf).supports_graphics());
    assert!(!family(0).supports_graphics());
    assert!(!family(2).supports_graphics());
    assert!(!family(0xe).supports_graphics());
    let all = ash::vk::QueueFlags::GRAPHICS | ash::vk::QueueFlags::COMPUTE;
    assert!(family(all.as_raw()).supports_graphics());
    assert!(!family(ash::vk::QueueFlags::TRANSFER.as_raw()).supports_graphics());
}

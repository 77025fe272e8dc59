use opencubes::physical_device::{AdapterDescriptor, SwapChainSupportDetails as AdapterSupport};
use opencubes::swapchain::{
    ComponentMapping, ComponentSwizzle, ImageAspect, ImageSubresourceRange, ImageViewCreateInfo,
    ImageViewType,
};
use opencubes::utils::{
    api_version_tuple, create_image_views, filter_supported_instance_extensions,
    filter_supported_layers, filter_supported_physical_device_extensions, find_queue_families,
    pick_most_suitable_physical_device, QueueFamilyIndices, Queues, SwapChainSupportDetails,
};
use opencubes::vk::{
    ExtensionProperties, Extent2D, LayerProperties, QueueFamilyProperties,
    SurfaceCapabilitiesKHR, SurfaceFormatKHR,
};
use std::collections::HashSet;

const MINIMUM: u32 = ash::vk::API_VERSION_1_2;

fn buffer(name: &str) -> Vec<i8> {
    let mut bytes: Vec<i8> = name.bytes().map(|byte| byte as i8).collect();
    bytes.resize(256, 0);
    bytes
}

fn names(list: &[&str]) -> Vec<Vec<u8>> {
    list.iter().map(|name| name.as_bytes().to_vec()).collect()
}

fn extensions(list: &[&str]) -> Vec<ExtensionProperties> {
    list.iter()
        .map(|name| ExtensionProperties { extension_name: buffer(name), spec_version: 1 })
        .collect()
}

fn layers(list: &[&str]) -> Vec<LayerProperties> {
    list.iter()
        .map(|name| LayerProperties {
            layer_name: buffer(name),
            spec_version: 0,
            implementation_version: 0,
            description: buffer(""),
        })
        .collect()
}

fn family(queue_flags: u32, present_support: bool) -> QueueFamilyProperties {
    QueueFamilyProperties { queue_flags, queue_count: 1, present_support }
}

fn support(min_image_count: u32, max_image_count: u32) -> SwapChainSupportDetails {
    SwapChainSupportDetails {
        capabilities: SurfaceCapabilitiesKHR {
            min_image_count,
            max_image_count,
            current_extent: Extent2D { width: u32::MAX, height: u32::MAX },
            min_image_extent: Extent2D { width: 1, height: 1 },
            max_image_extent: Extent2D { width: 4096, height: 4096 },
            current_transform: 1,
        },
        formats: vec![
            SurfaceFormatKHR { format: 37, color_space: 0 },
            SurfaceFormatKHR { format: 50, color_space: 0 },
        ],
        present_modes: vec![2, 1],
    }
}

fn adapter(handle: u64, device_type: i32, offered: &[&str]) -> AdapterDescriptor {
    AdapterDescriptor {
        handle,
        layer_properties: Vec::new(),
        extension_properties: extensions(offered),
        properties: opencubes::vk::PhysicalDeviceProperties {
            api_version: ash::vk::API_VERSION_1_2,
            device_type,
            device_name: buffer("adapter"),
        },
        queue_family_properties: vec![family(1, true)],
        swap_chain_support_details: AdapterSupport {
            surface_capabilities: support(2, 0).capabilities,
            formats: vec![SurfaceFormatKHR { format: 50, color_space: 0 }],
            present_modes: vec![2],
        },
    }
}

#[test]
fn a_packed_version_comes_apart() {
    assert_eq!(api_version_tuple(ash::vk::API_VERSION_1_2), (0, 1, 2, 0));
    assert_eq!(api_version_tuple(ash::vk::make_api_version(3, 100, 1000, 4000)), (3, 100, 1000, 4000));
    assert_eq!(api_version_tuple(u32::MAX), (7, 127, 1023, 4095));
    assert_eq!(api_version_tuple(0), (0, 0, 0, 0));
}

#[test]
fn supported_layers_come_in_the_order_asked() {
    let reported = layers(&["layer_a", "layer_b", "layer_c"]);
    let asked = names(&["layer_c", "layer_x", "layer_a", "layer_c"]);
    assert_eq!(
        filter_supported_layers(&reported, &asked),
        names(&["layer_c", "layer_a", "layer_c"])
    );
    assert_eq!(filter_supported_layers(&Vec::new(), &asked), Vec::<Vec<u8>>::new());
    assert_eq!(filter_supported_layers(&reported, &Vec::new()), Vec::<Vec<u8>>::new());
}

#[test]
fn supported_instance_extensions_come_once_each() {
    let reported = extensions(&["ext_a", "ext_b", "ext_a"]);
    let asked = names(&["ext_b", "ext_c", "ext_a"]);
    assert_eq!(
        filter_supported_instance_extensions(&reported, &asked),
        names(&["ext_b", "ext_a"])
    );
}

#[test]
fn supported_device_extensions_come_as_often_as_reported() {
    let reported = extensions(&["ext_a", "ext_b", "ext_a", "ext_d"]);
    let asked = names(&["ext_b", "ext_c", "ext_a"]);
    assert_eq!(
        filter_supported_physical_device_extensions(&reported, &asked),
        names(&["ext_b", "ext_a", "ext_a"])
    );
    assert_eq!(
        filter_supported_physical_device_extensions(&Vec::new(), &asked),
        Vec::<Vec<u8>>::new()
    );
}

#[test]
fn the_most_suitable_adapter_is_the_discrete_one() {
    let required = names(&["VK_KHR_swapchain"]);
    let adapters = vec![
        adapter(100, 2, &["VK_KHR_swapchain"]),
        adapter(200, 1, &["VK_KHR_swapchain"]),
    ];
    assert_eq!(
        pick_most_suitable_physical_device(&adapters, &required, &Vec::new(), &Vec::new(), MINIMUM),
        Some(100)
    );
    let adapters = vec![
        adapter(200, 1, &["VK_KHR_swapchain"]),
        adapter(100, 2, &["VK_KHR_swapchain"]),
    ];
    assert_eq!(
        pick_most_suitable_physical_device(&adapters, &required, &Vec::new(), &Vec::new(), MINIMUM),
        Some(100)
    );
}

#[test]
fn ratings_can_outweigh_the_discrete_bonus() {
    let required = names(&["VK_KHR_swapchain"]);
    let optional = names(&["ext_fast", "ext_nice"]);
    let ratings = vec![700, 400];
    let adapters = vec![
        adapter(1, 2, &["VK_KHR_swapchain", "ext_nice"]),
        adapter(2, 1, &["VK_KHR_swapchain", "ext_fast", "ext_nice"]),
        adapter(3, 1, &["VK_KHR_swapchain", "ext_fast"]),
        adapter(4, 2, &["ext_fast", "ext_nice"]),
    ];
    // 1400, 1100, 700, and one that lacks the swapchain extension.
    assert_eq!(
        pick_most_suitable_physical_device(&adapters, &required, &optional, &ratings, MINIMUM),
        Some(1)
    );
    let ratings = vec![700, 200];
    // 1200, 900, 700.
    assert_eq!(
        pick_most_suitable_physical_device(&adapters, &required, &optional, &ratings, MINIMUM),
        Some(1)
    );
    let ratings = vec![1700, 200];
    // 1200, 1900, 1700.
    assert_eq!(
        pick_most_suitable_physical_device(&adapters, &required, &optional, &ratings, MINIMUM),
        Some(2)
    );
}

#[test]
fn no_adapter_is_most_suitable_where_none_will_do() {
    let required = names(&["VK_KHR_swapchain"]);
    let adapters = vec![adapter(1, 2, &[])];
    assert_eq!(
        pick_most_suitable_physical_device(&adapters, &required, &Vec::new(), &Vec::new(), MINIMUM),
        None
    );
    assert_eq!(
        pick_most_suitable_physical_device(&Vec::new(), &required, &Vec::new(), &Vec::new(), MINIMUM),
        None
    );
}

#[test]
fn an_adapter_below_the_minimum_version_is_not_suitable() {
    // Everything is in order but the version: the adapter speaks 1.0.
    let mut old = adapter(9, 1, &["VK_KHR_swapchain"]);
    old.properties.api_version = ash::vk::API_VERSION_1_0;
    let only = vec![old];
    let required = names(&["VK_KHR_swapchain"]);
    assert_eq!(
        pick_most_suitable_physical_device(
            &only,
            &required,
            &Vec::new(),
            &Vec::new(),
            ash::vk::API_VERSION_1_2
        ),
        None
    );
    assert_eq!(
        pick_most_suitable_physical_device(
            &only,
            &required,
            &Vec::new(),
            &Vec::new(),
            ash::vk::API_VERSION_1_0 + 1
        ),
        None
    );
    assert_eq!(
        pick_most_suitable_physical_device(
            &only,
            &required,
            &Vec::new(),
            &Vec::new(),
            ash::vk::API_VERSION_1_0
        ),
        Some(9)
    );
}

#[test]
fn a_discrete_adapter_below_the_minimum_version_loses_to_one_that_will_do() {
    let mut old_discrete = adapter(1, 2, &["VK_KHR_swapchain"]);
    old_discrete.properties.api_version = ash::vk::API_VERSION_1_1;
    let mut new_integrated = adapter(2, 1, &["VK_KHR_swapchain"]);
    new_integrated.properties.api_version = ash::vk::API_VERSION_1_3;
    let required = names(&["VK_KHR_swapchain"]);
    assert_eq!(
        pick_most_suitable_physical_device(
            &vec![old_discrete, new_integrated],
            &required,
            &Vec::new(),
            &Vec::new(),
            ash::vk::API_VERSION_1_2
        ),
        Some(2)
    );
    let mut new_discrete = adapter(3, 2, &["VK_KHR_swapchain"]);
    new_discrete.properties.api_version = ash::vk::API_VERSION_1_2;
    let mut new_integrated = adapter(2, 1, &["VK_KHR_swapchain"]);
    new_integrated.properties.api_version = ash::vk::API_VERSION_1_3;
    assert_eq!(
        pick_most_suitable_physical_device(
            &vec![new_integrated, new_discrete],
            &required,
            &Vec::new(),
            &Vec::new(),
            ash::vk::API_VERSION_1_2
        ),
        Some(3)
    );
}

#[test]
fn both_families_are_required() {
    let both = QueueFamilyIndices { graphics_family: Some(0), present_family: Some(1) };
    assert!(both.has_required());
    assert!(!QueueFamilyIndices { graphics_family: None, present_family: Some(1) }.has_required());
    assert!(!QueueFamilyIndices { graphics_family: Some(0), present_family: None }.has_required());
    assert!(!QueueFamilyIndices { graphics_family: None, present_family: None }.has_required());
}

#[test]
fn unique_indices_as_a_set() {
    let indices = QueueFamilyIndices { graphics_family: Some(0), present_family: Some(1) };
    assert_eq!(indices.get_unique_indices(), HashSet::from([0, 1]));
    let indices = QueueFamilyIndices { graphics_family: Some(2), present_family: Some(2) };
    assert_eq!(indices.get_unique_indices(), HashSet::from([2]));
    let indices = QueueFamilyIndices { graphics_family: None, present_family: Some(7) };
    assert_eq!(indices.get_unique_indices(), HashSet::from([7]));
    let indices = QueueFamilyIndices { graphics_family: None, present_family: None };
    assert!(indices.get_unique_indices().is_empty());
}

#[test]
fn queue_families_are_found() {
    let indices = find_queue_families(&vec![family(2, true), family(5, false), family(1, true)]);
    assert_eq!(indices, QueueFamilyIndices { graphics_family: Some(1), present_family: Some(0) });
    let indices = find_queue_families(&vec![family(2, false)]);
    assert_eq!(indices, QueueFamilyIndices { graphics_family: None, present_family: None });
}

#[test]
fn queues_hold_their_handles() {
    let queues = Queues { graphics_queue: 3, present_queue: 4 };
    assert_eq!(queues.graphics_queue, 3);
    assert_eq!(queues.present_queue, 4);
}

#[test]
fn format_and_mode_are_chosen() {
    let details = support(2, 0);
    assert_eq!(details.choose_format(), SurfaceFormatKHR { format: 50, color_space: 0 });
    assert_eq!(details.choose_presentation_mode(), 1);
    let mut details = support(2, 0);
    details.formats = vec![SurfaceFormatKHR { format: 37, color_space: 0 }];
    details.present_modes = vec![0, 2, 3];
    assert_eq!(details.choose_format(), SurfaceFormatKHR { format: 37, color_space: 0 });
    assert_eq!(details.choose_presentation_mode(), 2);
}

#[test]
fn the_extent_follows_the_window_within_the_limits() {
    let details = support(1, 0);
    assert_eq!(
        details.choose_swap_extend(Extent2D { width: 1024, height: 768 }),
        Extent2D { width: 1024, height: 768 }
    );
    assert_eq!(
        details.choose_swap_extend(Extent2D { width: 0, height: 10000 }),
        Extent2D { width: 1, height: 4096 }
    );
    let mut details = support(1, 0);
    details.capabilities.current_extent = Extent2D { width: 640, height: 480 };
    assert_eq!(
        details.choose_swap_extend(Extent2D { width: 1024, height: 768 }),
        Extent2D { width: 640, height: 480 }
    );
}

#[test]
fn one_image_more_than_the_minimum() {
    assert_eq!(support(1, 0).choose_image_count(), 2);
    assert_eq!(support(2, 8).choose_image_count(), 3);
    assert_eq!(support(2, 3).choose_image_count(), 3);
    assert_eq!(support(0, 0).choose_image_count(), 1);
    assert_eq!(support(1, 0).try_choose_image_count(), Some(2));
}

#[test]
fn no_more_images_than_the_maximum() {
    assert_eq!(support(2, 2).choose_image_count(), 2);
    assert_eq!(support(3, 3).choose_image_count(), 3);
    assert_eq!(support(u32::MAX, u32::MAX).choose_image_count(), u32::MAX);
    assert_eq!(support(u32::MAX, u32::MAX).try_choose_image_count(), Some(u32::MAX));
    assert_eq!(support(u32::MAX - 1, 0).try_choose_image_count(), Some(u32::MAX));
}

#[test]
fn an_image_count_beyond_32_bits_cannot_be_chosen() {
    assert_eq!(support(u32::MAX, 0).try_choose_image_count(), None);
}

#[test]
fn every_image_gets_its_view() {
    let views = create_image_views(&vec![10, 20, 30], 50);
    assert_eq!(views.len(), 3);
    let identity = ComponentMapping {
        r: ComponentSwizzle::Identity,
        g: ComponentSwizzle::Identity,
        b: ComponentSwizzle::Identity,
        a: ComponentSwizzle::Identity,
    };
    let range = ImageSubresourceRange {
        aspect_mask: ImageAspect::Color,
        base_mip_level: 0,
        level_count: 1,
        base_array_layer: 0,
        layer_count: 1,
    };
    for (view, image) in views.iter().zip([10u64, 20, 30]) {
        assert_eq!(
            *view,
            ImageViewCreateInfo {
                image,
                view_type: ImageViewType::Type2D,
                format: 50,
                components: identity,
                subresource_range: range,
            }
        );
    }
    assert!(create_image_views(&Vec::new(), 50).is_empty());
}

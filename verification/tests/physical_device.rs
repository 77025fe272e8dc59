use opencubes::constants::RendererConfig;
use opencubes::physical_device::{
    select_adapter, AdapterDescriptor, PhysicalDevice, QueueFamiliesIndices, SelectionCriteria,
    SwapChainSupportDetails,
};
use opencubes::vk::{
    ExtensionProperties, Extent2D, LayerProperties, QueueFamilyProperties,
    SurfaceCapabilitiesKHR, SurfaceFormatKHR,
};

const DISCRETE: i32 = 2;
const INTEGRATED: i32 = 1;

fn buffer(name: &str) -> Vec<i8> {
    let mut bytes: Vec<i8> = name.bytes().map(|byte| byte as i8).collect();
    bytes.resize(256, 0);
    bytes
}

fn family(queue_flags: u32, present_support: bool) -> QueueFamilyProperties {
    QueueFamilyProperties { queue_flags, queue_count: 1, present_support }
}

fn capabilities() -> SurfaceCapabilitiesKHR {
    SurfaceCapabilitiesKHR {
        min_image_count: 2,
        max_image_count: 8,
        current_extent: Extent2D { width: 800, height: 600 },
        min_image_extent: Extent2D { width: 1, height: 1 },
        max_image_extent: Extent2D { width: 4096, height: 4096 },
        current_transform: 1,
    }
}

fn details(formats: Vec<SurfaceFormatKHR>, present_modes: Vec<i32>) -> SwapChainSupportDetails {
    SwapChainSupportDetails { surface_capabilities: capabilities(), formats, present_modes }
}

fn adapter(handle: u64, device_type: i32, extensions: &[&str]) -> AdapterDescriptor {
    AdapterDescriptor {
        handle,
        layer_properties: vec![LayerProperties {
            layer_name: buffer("a_layer"),
            spec_version: ash::vk::API_VERSION_1_3,
            implementation_version: 3,
            description: buffer("described"),
        }],
        extension_properties: extensions
            .iter()
            .map(|name| ExtensionProperties { extension_name: buffer(name), spec_version: 1 })
            .collect(),
        properties: opencubes::vk::PhysicalDeviceProperties {
            api_version: ash::vk::API_VERSION_1_3,
            device_type,
            device_name: buffer("adapter"),
        },
        queue_family_properties: vec![family(2, false), family(1, true)],
        swap_chain_support_details: details(
            vec![SurfaceFormatKHR { format: 44, color_space: 0 }],
            vec![2],
        ),
    }
}

fn names(list: &[&str]) -> Vec<Vec<u8>> {
    list.iter().map(|name| name.as_bytes().to_vec()).collect()
}

#[test]
fn first_families_are_found() {
    let families = vec![family(4, false), family(3, false), family(1, true), family(1, true)];
    let indices = QueueFamiliesIndices::extract(&families);
    assert_eq!(indices.graphics_family, Some(1));
    assert_eq!(indices.present_family, Some(2));
}

#[test]
fn one_family_may_do_both() {
    let indices = QueueFamiliesIndices::extract(&vec![family(1, true)]);
    assert_eq!(indices.graphics_family, Some(0));
    assert_eq!(indices.present_family, Some(0));
}

#[test]
fn missing_families_stay_unresolved() {
    let indices = QueueFamiliesIndices::extract(&vec![family(2, false), family(4, true)]);
    assert_eq!(indices.graphics_family, None);
    assert_eq!(indices.present_family, Some(1));
    let indices = QueueFamiliesIndices::extract(&vec![family(1, false)]);
    assert_eq!(indices.graphics_family, Some(0));
    assert_eq!(indices.present_family, None);
    let indices = QueueFamiliesIndices::extract(&Vec::new());
    assert_eq!(indices, QueueFamiliesIndices { graphics_family: None, present_family: None });
}

#[test]
fn unique_indices_keep_their_order() {
    let indices = QueueFamiliesIndices { graphics_family: Some(3), present_family: Some(1) };
    assert_eq!(indices.get_unique_indices(), vec![3, 1]);
    let indices = QueueFamiliesIndices { graphics_family: Some(2), present_family: Some(2) };
    assert_eq!(indices.get_unique_indices(), vec![2]);
    let indices = QueueFamiliesIndices { graphics_family: None, present_family: Some(5) };
    assert_eq!(indices.get_unique_indices(), vec![5]);
    let indices = QueueFamiliesIndices { graphics_family: Some(4), present_family: None };
    assert_eq!(indices.get_unique_indices(), vec![4]);
    let indices = QueueFamiliesIndices { graphics_family: None, present_family: None };
    assert_eq!(indices.get_unique_indices(), Vec::<u32>::new());
}

#[test]
fn suitable_needs_a_format_and_a_present_mode() {
    let format = SurfaceFormatKHR { format: 50, color_space: 0 };
    assert!(details(vec![format], vec![2]).is_suitable());
    assert!(!details(vec![], vec![2]).is_suitable());
    assert!(!details(vec![format], vec![]).is_suitable());
    assert!(!details(vec![], vec![]).is_suitable());
}

#[test]
fn the_preferred_format_is_chosen_where_it_is_offered() {
    let formats = vec![
        SurfaceFormatKHR { format: 44, color_space: 0 },
        SurfaceFormatKHR { format: 50, color_space: 1 },
        SurfaceFormatKHR { format: 50, color_space: 0 },
        SurfaceFormatKHR { format: 37, color_space: 0 },
    ];
    let chosen = details(formats, vec![2]).choose_format();
    assert_eq!(chosen, SurfaceFormatKHR { format: 50, color_space: 0 });
    assert_eq!(chosen.format, ash::vk::Format::B8G8R8A8_SRGB.as_raw());
    assert_eq!(chosen.color_space, ash::vk::ColorSpaceKHR::SRGB_NONLINEAR.as_raw());
}

#[test]
fn the_first_format_is_chosen_where_the_preferred_is_not_offered() {
    let formats = vec![
        SurfaceFormatKHR { format: 44, color_space: 0 },
        SurfaceFormatKHR { format: 50, color_space: 1 },
        SurfaceFormatKHR { format: 0, color_space: 0 },
    ];
    assert_eq!(
        details(formats, vec![2]).choose_format(),
        SurfaceFormatKHR { format: 44, color_space: 0 }
    );
}

#[test]
fn choosing_a_format_again_gives_the_same() {
    let formats = vec![
        SurfaceFormatKHR { format: 44, color_space: 0 },
        SurfaceFormatKHR { format: 50, color_space: 0 },
    ];
    let support = details(formats, vec![2]);
    let first = support.choose_format();
    assert_eq!(support.choose_format(), first);
    assert_eq!(details(vec![first], vec![2]).choose_format(), first);
    let support = details(vec![SurfaceFormatKHR { format: 44, color_space: 3 }], vec![2]);
    let first = support.choose_format();
    assert_eq!(support.choose_format(), first);
    assert_eq!(details(vec![first], vec![2]).choose_format(), first);
}

#[test]
fn mailbox_is_chosen_where_it_is_offered() {
    let format = SurfaceFormatKHR { format: 50, color_space: 0 };
    assert_eq!(details(vec![format], vec![0, 2, 1, 3]).choose_present_mode(), 1);
    assert_eq!(
        details(vec![format], vec![0, 2, 1, 3]).choose_present_mode(),
        ash::vk::PresentModeKHR::MAILBOX.as_raw()
    );
}

#[test]
fn fifo_is_chosen_where_mailbox_is_not_offered() {
    let format = SurfaceFormatKHR { format: 50, color_space: 0 };
    assert_eq!(details(vec![format], vec![0, 3]).choose_present_mode(), 2);
    assert_eq!(details(vec![format], vec![]).choose_present_mode(), 2);
    assert_eq!(
        details(vec![format], vec![0]).choose_present_mode(),
        ash::vk::PresentModeKHR::FIFO.as_raw()
    );
}

fn following_window(min: (u32, u32), max: (u32, u32)) -> SwapChainSupportDetails {
    let mut support = details(vec![], vec![]);
    support.surface_capabilities.current_extent = Extent2D { width: u32::MAX, height: u32::MAX };
    support.surface_capabilities.min_image_extent = Extent2D { width: min.0, height: min.1 };
    support.surface_capabilities.max_image_extent = Extent2D { width: max.0, height: max.1 };
    support
}

#[test]
fn a_window_within_the_limits_keeps_its_size() {
    let support = following_window((1, 1), (4096, 4096));
    assert_eq!(
        support.choose_swap_extent(Extent2D { width: 1024, height: 768 }),
        Extent2D { width: 1024, height: 768 }
    );
    assert_eq!(
        support.choose_swap_extent(Extent2D { width: 1, height: 4096 }),
        Extent2D { width: 1, height: 4096 }
    );
}

#[test]
fn a_window_outside_the_limits_comes_to_the_nearest_limit() {
    let support = following_window((200, 100), (1920, 1080));
    assert_eq!(
        support.choose_swap_extent(Extent2D { width: 3000, height: 2000 }),
        Extent2D { width: 1920, height: 1080 }
    );
    assert_eq!(
        support.choose_swap_extent(Extent2D { width: 0, height: 0 }),
        Extent2D { width: 200, height: 100 }
    );
    assert_eq!(
        support.choose_swap_extent(Extent2D { width: 100, height: 5000 }),
        Extent2D { width: 200, height: 1080 }
    );
    assert_eq!(
        support.choose_swap_extent(Extent2D { width: 5000, height: 500 }),
        Extent2D { width: 1920, height: 500 }
    );
}

#[test]
fn a_fixed_extent_is_taken_as_it_is() {
    let mut support = details(vec![], vec![]);
    support.surface_capabilities.current_extent = Extent2D { width: 5000, height: 3 };
    assert_eq!(
        support.choose_swap_extent(Extent2D { width: 1024, height: 768 }),
        Extent2D { width: 5000, height: 3 }
    );
    // Only the width tells that the extent follows the window.
    support.surface_capabilities.current_extent = Extent2D { width: 640, height: u32::MAX };
    assert_eq!(
        support.choose_swap_extent(Extent2D { width: 1024, height: 768 }),
        Extent2D { width: 640, height: u32::MAX }
    );
}

fn criteria<'a>(
    required: &'a Vec<Vec<u8>>,
    optional: &'a Vec<Vec<u8>>,
    ratings: &'a Vec<u32>,
    minimum_api_version: u32,
) -> SelectionCriteria<'a> {
    SelectionCriteria {
        required_extensions: required,
        optional_extensions: optional,
        ratings,
        minimum_api_version,
    }
}

#[test]
fn an_adapter_with_everything_will_do() {
    let required = names(&["VK_KHR_swapchain"]);
    let (optional, ratings) = (Vec::new(), Vec::new());
    let criteria = criteria(&required, &optional, &ratings, ash::vk::API_VERSION_1_2);
    assert!(adapter(1, DISCRETE, &["VK_KHR_swapchain"]).is_eligible(&criteria));
    assert!(adapter(1, INTEGRATED, &["x", "VK_KHR_swapchain"]).is_eligible(&criteria));
}

#[test]
fn an_adapter_without_a_graphics_family_will_not_do() {
    let required = names(&["VK_KHR_swapchain"]);
    let (optional, ratings) = (Vec::new(), Vec::new());
    let criteria = criteria(&required, &optional, &ratings, 0);
    let mut candidate = adapter(1, DISCRETE, &["VK_KHR_swapchain"]);
    candidate.queue_family_properties = vec![family(2, true), family(4, true)];
    assert!(!candidate.is_eligible(&criteria));
}

#[test]
fn an_adapter_without_a_present_family_will_not_do() {
    let required = names(&["VK_KHR_swapchain"]);
    let (optional, ratings) = (Vec::new(), Vec::new());
    let criteria = criteria(&required, &optional, &ratings, 0);
    let mut candidate = adapter(1, DISCRETE, &["VK_KHR_swapchain"]);
    candidate.queue_family_properties = vec![family(1, false), family(3, false)];
    assert!(!candidate.is_eligible(&criteria));
    candidate.queue_family_properties = Vec::new();
    assert!(!candidate.is_eligible(&criteria));
}

#[test]
fn an_adapter_without_a_required_extension_will_not_do() {
    let required = names(&["VK_KHR_swapchain", "VK_KHR_other"]);
    let (optional, ratings) = (Vec::new(), Vec::new());
    let criteria = criteria(&required, &optional, &ratings, 0);
    assert!(!adapter(1, DISCRETE, &["VK_KHR_swapchain"]).is_eligible(&criteria));
    assert!(!adapter(1, DISCRETE, &["VK_KHR_other"]).is_eligible(&criteria));
    assert!(!adapter(1, DISCRETE, &[]).is_eligible(&criteria));
    assert!(adapter(1, DISCRETE, &["VK_KHR_other", "VK_KHR_swapchain"]).is_eligible(&criteria));
}

#[test]
fn an_adapter_without_format_or_present_mode_will_not_do() {
    let required = Vec::new();
    let (optional, ratings) = (Vec::new(), Vec::new());
    let criteria = criteria(&required, &optional, &ratings, 0);
    let mut candidate = adapter(1, DISCRETE, &[]);
    assert!(candidate.is_eligible(&criteria));
    candidate.swap_chain_support_details.formats = Vec::new();
    assert!(!candidate.is_eligible(&criteria));
    let mut candidate = adapter(1, DISCRETE, &[]);
    candidate.swap_chain_support_details.present_modes = Vec::new();
    assert!(!candidate.is_eligible(&criteria));
}

#[test]
fn an_adapter_that_speaks_too_old_a_version_will_not_do() {
    let required = Vec::new();
    let (optional, ratings) = (Vec::new(), Vec::new());
    let criteria = criteria(&required, &optional, &ratings, ash::vk::API_VERSION_1_2);
    let mut candidate = adapter(1, DISCRETE, &[]);
    candidate.properties.api_version = ash::vk::API_VERSION_1_1;
    assert!(!candidate.is_eligible(&criteria));
    candidate.properties.api_version = ash::vk::API_VERSION_1_2 - 1;
    assert!(!candidate.is_eligible(&criteria));
    candidate.properties.api_version = ash::vk::API_VERSION_1_2;
    assert!(candidate.is_eligible(&criteria));
}

#[test]
fn the_rating_adds_up() {
    let required = Vec::new();
    let optional = names(&["ext_a", "ext_b", "ext_c"]);
    let ratings = vec![10, 200, 3000];
    let criteria = criteria(&required, &optional, &ratings, 0);
    assert_eq!(adapter(1, DISCRETE, &[]).rating(&criteria), 1000);
    assert_eq!(adapter(1, INTEGRATED, &[]).rating(&criteria), 0);
    assert_eq!(adapter(1, 0, &["ext_b"]).rating(&criteria), 200);
    assert_eq!(adapter(1, 3, &["ext_c", "ext_a"]).rating(&criteria), 3010);
    assert_eq!(adapter(1, 4, &["ext_a", "ext_b", "ext_c", "ext_d"]).rating(&criteria), 3210);
    assert_eq!(adapter(1, DISCRETE, &["ext_a", "ext_b", "ext_c"]).rating(&criteria), 4210);
    // An extension that is offered twice counts once.
    assert_eq!(adapter(1, DISCRETE, &["ext_a", "ext_a"]).rating(&criteria), 1010);
}

#[test]
fn an_optional_extension_named_twice_counts_twice() {
    let required = Vec::new();
    let optional = names(&["ext_a", "ext_a"]);
    let ratings = vec![5, 7];
    let criteria = criteria(&required, &optional, &ratings, 0);
    assert_eq!(adapter(1, INTEGRATED, &["ext_a"]).rating(&criteria), 12);
}

#[test]
fn the_highest_rating_is_selected() {
    let required = names(&["VK_KHR_swapchain"]);
    let optional = names(&["ext_a"]);
    let ratings = vec![1500];
    let criteria = criteria(&required, &optional, &ratings, 0);
    let adapters = vec![
        adapter(1, INTEGRATED, &["VK_KHR_swapchain"]),
        adapter(2, DISCRETE, &["VK_KHR_swapchain"]),
        adapter(3, INTEGRATED, &["VK_KHR_swapchain", "ext_a"]),
        adapter(4, DISCRETE, &["ext_a"]),
    ];
    // The last one is rated highest but lacks the required extension.
    assert_eq!(select_adapter(&adapters, &criteria), Some(2));
}

#[test]
fn of_equal_ratings_the_first_is_selected() {
    let required = Vec::new();
    let (optional, ratings) = (Vec::new(), Vec::new());
    let criteria = criteria(&required, &optional, &ratings, 0);
    let adapters = vec![
        adapter(1, INTEGRATED, &[]),
        adapter(2, DISCRETE, &[]),
        adapter(3, DISCRETE, &[]),
        adapter(4, INTEGRATED, &[]),
    ];
    assert_eq!(select_adapter(&adapters, &criteria), Some(1));
}

#[test]
fn an_adapter_rated_zero_is_selected_where_it_is_the_only_one() {
    let required = Vec::new();
    let (optional, ratings) = (Vec::new(), Vec::new());
    let criteria = criteria(&required, &optional, &ratings, 0);
    let adapters = vec![adapter(1, INTEGRATED, &[]), adapter(2, 0, &[])];
    assert_eq!(select_adapter(&adapters, &criteria), Some(0));
}

#[test]
fn nothing_is_selected_where_nothing_will_do() {
    let required = names(&["VK_KHR_swapchain"]);
    let (optional, ratings) = (Vec::new(), Vec::new());
    let criteria = criteria(&required, &optional, &ratings, 0);
    assert_eq!(select_adapter(&Vec::new(), &criteria), None);
    let adapters = vec![adapter(1, DISCRETE, &[]), adapter(2, DISCRETE, &["other"])];
    assert_eq!(select_adapter(&adapters, &criteria), None);
}

#[test]
fn rate_gives_nothing_for_an_adapter_that_will_not_do() {
    let config = RendererConfig::new(false);
    assert_eq!(PhysicalDevice::rate(&adapter(1, DISCRETE, &[]), &config), None);
    let mut old = adapter(1, DISCRETE, &["VK_KHR_swapchain"]);
    old.properties.api_version = ash::vk::API_VERSION_1_1;
    assert_eq!(PhysicalDevice::rate(&old, &config), None);
    let mut blind = adapter(1, DISCRETE, &["VK_KHR_swapchain"]);
    blind.queue_family_properties = vec![family(1, false)];
    assert_eq!(PhysicalDevice::rate(&blind, &config), None);
}

#[test]
fn rate_gives_the_rating_of_an_adapter_that_will_do() {
    let mut config = RendererConfig::new(false);
    assert_eq!(PhysicalDevice::rate(&adapter(1, DISCRETE, &["VK_KHR_swapchain"]), &config), Some(1000));
    assert_eq!(PhysicalDevice::rate(&adapter(1, INTEGRATED, &["VK_KHR_swapchain"]), &config), Some(0));
    config.physical_device_optional_extension_names = names(&["ext_a"]);
    config.physical_device_optional_extension_ratings = vec![25];
    assert_eq!(
        PhysicalDevice::rate(&adapter(1, DISCRETE, &["ext_a", "VK_KHR_swapchain"]), &config),
        Some(1025)
    );
    // A patch level below that of the configuration is no hindrance.
    config.api_version = opencubes::apiversion::ApiVersion::new(0, 1, 3, 4000);
    assert_eq!(
        PhysicalDevice::rate(&adapter(1, INTEGRATED, &["ext_a", "VK_KHR_swapchain"]), &config),
        Some(25)
    );
}

#[test]
fn the_discrete_adapter_is_picked_before_the_integrated_one() {
    let config = RendererConfig::new(false);
    let adapters = vec![
        adapter(11, DISCRETE, &["VK_KHR_swapchain"]),
        adapter(22, INTEGRATED, &["VK_KHR_swapchain"]),
    ];
    let picked = PhysicalDevice::pick(adapters, &config).expect("both will do");
    assert_eq!(picked.inner, 11);
    let adapters = vec![
        adapter(22, INTEGRATED, &["VK_KHR_swapchain"]),
        adapter(11, DISCRETE, &["VK_KHR_swapchain"]),
    ];
    let picked = PhysicalDevice::pick(adapters, &config).expect("both will do");
    assert_eq!(picked.inner, 11);
}

#[test]
fn the_picked_adapter_is_described() {
    let config = RendererConfig::new(false);
    let adapters = vec![
        adapter(5, INTEGRATED, &[]),
        adapter(6, INTEGRATED, &["VK_KHR_swapchain", "VK_KHR_maintenance1"]),
    ];
    let picked = PhysicalDevice::pick(adapters, &config).expect("the second will do");
    assert_eq!(picked.inner, 6);
    assert_eq!(picked.layers.len(), 1);
    assert_eq!(picked.layers[0].name, b"a_layer".to_vec());
    assert_eq!(picked.layers[0].description, b"described".to_vec());
    assert_eq!(picked.layers[0].implementation_version, 3);
    assert_eq!(picked.extensions.len(), 2);
    assert_eq!(picked.extensions[0].name, b"VK_KHR_swapchain".to_vec());
    assert_eq!(picked.extensions[1].name, b"VK_KHR_maintenance1".to_vec());
    assert_eq!(picked.properties.name, b"adapter".to_vec());
    assert_eq!(picked.properties.device_type, INTEGRATED);
    assert_eq!(picked.properties.api_version, opencubes::apiversion::ApiVersion::new(0, 1, 3, 0));
    assert_eq!(picked.queue_family_properties, vec![family(2, false), family(1, true)]);
    assert_eq!(
        picked.queue_family_indices,
        QueueFamiliesIndices { graphics_family: Some(1), present_family: Some(1) }
    );
    assert_eq!(picked.swap_chain_support_details.surface_capabilities, capabilities());
    assert_eq!(
        picked.swap_chain_support_details.formats,
        vec![SurfaceFormatKHR { format: 44, color_space: 0 }]
    );
    assert_eq!(picked.swap_chain_support_details.present_modes, vec![2]);
}

#[test]
fn nothing_is_picked_where_nothing_will_do() {
    let config = RendererConfig::new(false);
    assert!(PhysicalDevice::pick(Vec::new(), &config).is_none());
    let adapters = vec![adapter(5, DISCRETE, &[]), adapter(6, DISCRETE, &["VK_KHR_surface"])];
    assert!(PhysicalDevice::pick(adapters, &config).is_none());
}

#[test]
fn criteria_are_sound_with_a_rating_for_every_optional_extension() {
    let required = Vec::new();
    let optional = names(&["ext_a", "ext_b"]);
    let ratings = vec![1, 2];
    assert!(criteria(&required, &optional, &ratings, 0).is_well_formed());
    let ratings = vec![1];
    assert!(!criteria(&required, &optional, &ratings, 0).is_well_formed());
    let ratings = vec![1, 2, 3];
    assert!(!criteria(&required, &optional, &ratings, 0).is_well_formed());
    let ratings = vec![u32::MAX - 1000, 1];
    assert!(!criteria(&required, &optional, &ratings, 0).is_well_formed());
    let ratings = vec![u32::MAX - 1001, 1];
    assert!(criteria(&required, &optional, &ratings, 0).is_well_formed());
}

#[test]
fn an_adapter_without_its_queue_families_is_never_selected() {
    let required = Vec::new();
    let optional = names(&["ext_a"]);
    let ratings = vec![5000];
    let criteria = criteria(&required, &optional, &ratings, 0);
    let mut no_graphics = adapter(1, DISCRETE, &["ext_a"]);
    no_graphics.queue_family_properties = vec![family(2, true)];
    let mut no_present = adapter(2, DISCRETE, &["ext_a"]);
    no_present.queue_family_properties = vec![family(1, false)];
    let plain = adapter(3, INTEGRATED, &[]);
    // The first two would be rated 6000, the third is rated 0.
    assert_eq!(select_adapter(&vec![no_graphics, no_present, plain], &criteria), Some(2));
    let mut no_graphics = adapter(1, DISCRETE, &["ext_a"]);
    no_graphics.queue_family_properties = vec![family(2, true)];
    assert_eq!(select_adapter(&vec![no_graphics], &criteria), None);
}

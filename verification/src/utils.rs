//! Helpers shared by the parts of the renderer.

use crate::cstringstuff::{
    c_string_of, clone_name, contains_name, i8_slice_to_cstring, names_equal, names_of,
};
use crate::extension::{extension_names, extensions_of};
use crate::layer::{layer_names, layers_of};
use crate::physical_device::{
    best_adapter, chosen_extent, chosen_format, chosen_image_count, chosen_present_mode,
    extent_limits_ordered, family_index, graphics_flags, is_best_choice, lemma_best_adapter,
    none_will_do, present_flags, select_adapter, AdapterDescriptor, Criteria,
    QueueFamiliesIndices, SelectionCriteria,
};
use crate::swapchain::{
    view_of_image, ComponentMapping, ComponentSwizzle, ImageAspect, ImageSubresourceRange,
    ImageViewCreateInfo, ImageViewType,
};
use crate::vk::{
    color_space_srgb_nonlinear, format_b8g8r8a8_srgb, present_mode_fifo, present_mode_mailbox,
    ExtensionProperties, Extent2D, LayerProperties, QueueFamilyProperties,
    SurfaceCapabilitiesKHR, SurfaceFormatKHR, EXTENT_FOLLOWS_WINDOW,
};
use std::collections::HashSet;
use vstd::prelude::*;

verus! {

/// The position of the first `true` in `flags`.
pub open spec fn first_true(flags: Seq<bool>) -> Option<int>
    decreases flags.len(),
{
    if flags.len() == 0 {
        None
    } else {
        match first_true(flags.drop_last()) {
            Some(i) => Some(i),
            None => if flags.last() {
                Some(flags.len() - 1)
            } else {
                None
            },
        }
    }
}

/// [`first_true`] finds a `true` exactly when there is one, and then the
/// one that no other precedes.
pub proof fn lemma_first_true(flags: Seq<bool>)
    ensures
        match first_true(flags) {
            Some(i) => 0 <= i < flags.len() && flags[i] && forall|j: int| 0 <= j < i ==> !flags[j],
            None => forall|j: int| 0 <= j < flags.len() ==> !flags[j],
        },
    decreases flags.len(),
{
    if flags.len() > 0 {
        lemma_first_true(flags.drop_last());
        assert forall|j: int| 0 <= j < flags.len() - 1 implies flags[j] == flags.drop_last()[j] by {}
    }
}

/// The views to create on `images`, which hold colour in `format`: one for
/// each image and in their order.
pub fn create_image_views(images: &Vec<u64>, format: i32) -> (infos: Vec<ImageViewCreateInfo>)
    ensures
        infos@.len() == images@.len(),
        forall|i: int|
            0 <= i < images@.len() ==> #[trigger] infos@[i] == view_of_image(images@[i], format),
{
    let mut result: Vec<ImageViewCreateInfo> = Vec::new();
    let mut i: usize = 0;
    while i < images.len()
        invariant
            0 <= i <= images@.len(),
            result@.len() == i,
            forall|j: int| 0 <= j < i ==> #[trigger] result@[j] == view_of_image(images@[j], format),
        decreases images@.len() - i,
    {
        let components = ComponentMapping {
            r: ComponentSwizzle::Identity,
            g: ComponentSwizzle::Identity,
            b: ComponentSwizzle::Identity,
            a: ComponentSwizzle::Identity,
        };
        let subresource_range = ImageSubresourceRange {
            aspect_mask: ImageAspect::Color,
            base_mip_level: 0,
            level_count: 1,
            base_array_layer: 0,
            layer_count: 1,
        };
        result.push(
            ImageViewCreateInfo {
                image: images[i],
                view_type: ImageViewType::Type2D,
                format,
                components,
                subresource_range,
            },
        );
        i += 1;
    }
    result
}

/// The four fields of a packed version number: variant, major, minor and
/// patch.
pub fn api_version_tuple(x: u32) -> (fields: (u32, u32, u32, u32))
    ensures
        fields.0 == x >> 29u32,
        fields.1 == (x >> 22u32) & 0x7fu32,
        fields.2 == (x >> 12u32) & 0x3ffu32,
        fields.3 == x & 0xfffu32,
{
    (
        ash::vk::api_version_variant(x),
        ash::vk::api_version_major(x),
        ash::vk::api_version_minor(x),
        ash::vk::api_version_patch(x),
    )
}

/// Those of `requested` that are among `available`, in the order of
/// `requested`.
pub open spec fn supported_names(requested: Seq<Seq<u8>>, available: Seq<Seq<u8>>) -> Seq<Seq<u8>>
    decreases requested.len(),
{
    if requested.len() == 0 {
        Seq::empty()
    } else {
        let before = supported_names(requested.drop_last(), available);
        if available.contains(requested.last()) {
            before.push(requested.last())
        } else {
            before
        }
    }
}

/// As often as `name` stands in `available`, as often it stands here.
pub open spec fn occurrences(name: Seq<u8>, available: Seq<Seq<u8>>) -> Seq<Seq<u8>>
    decreases available.len(),
{
    if available.len() == 0 {
        Seq::empty()
    } else {
        let before = occurrences(name, available.drop_last());
        if available.last() == name {
            before.push(name)
        } else {
            before
        }
    }
}

/// Each of `requested` as often as it stands in `available`, in the order
/// of `requested`.
pub open spec fn matched_names(requested: Seq<Seq<u8>>, available: Seq<Seq<u8>>) -> Seq<Seq<u8>>
    decreases requested.len(),
{
    if requested.len() == 0 {
        Seq::empty()
    } else {
        matched_names(requested.drop_last(), available) + occurrences(requested.last(), available)
    }
}

/// Copies of those of `requested` that are among `available`.
fn keep_supported(requested: &Vec<Vec<u8>>, available: &Vec<Vec<u8>>) -> (kept: Vec<Vec<u8>>)
    ensures
        names_of(kept@) == supported_names(names_of(requested@), names_of(available@)),
{
    let ghost wanted = names_of(requested@);
    let ghost there = names_of(available@);
    let mut kept: Vec<Vec<u8>> = Vec::new();
    let mut i: usize = 0;
    assert(names_of(kept@) =~= supported_names(wanted.take(0), there));
    while i < requested.len()
        invariant
            0 <= i <= requested@.len(),
            wanted == names_of(requested@),
            there == names_of(available@),
            names_of(kept@) == supported_names(wanted.take(i as int), there),
        decreases requested@.len() - i,
    {
        let ghost before = kept@;
        proof {
            assert(wanted.take(i + 1).drop_last() =~= wanted.take(i as int));
            assert(wanted.take(i + 1).last() == requested@[i as int]@);
        }
        if contains_name(available, &requested[i]) {
            let copy = clone_name(&requested[i]);
            kept.push(copy);
            assert(names_of(kept@) =~= names_of(before).push(copy@));
        }
        i += 1;
    }
    assert(wanted.take(i as int) =~= wanted);
    kept
}

/// The names in a list of layer reports.
fn reported_layer_names(properties: &Vec<LayerProperties>) -> (names: Vec<Vec<u8>>)
    ensures
        names_of(names@) == layer_names(layers_of(properties@)),
{
    let mut names: Vec<Vec<u8>> = Vec::new();
    let mut i: usize = 0;
    while i < properties.len()
        invariant
            0 <= i <= properties@.len(),
            names@.len() == i,
            forall|j: int|
                0 <= j < i ==> (#[trigger] names@[j])@ == c_string_of(properties@[j].layer_name@),
        decreases properties@.len() - i,
    {
        names.push(i8_slice_to_cstring(properties[i].layer_name.as_slice()));
        i += 1;
    }
    assert(names_of(names@) =~= layer_names(layers_of(properties@)));
    names
}

/// The names in a list of extension reports.
fn reported_extension_names(properties: &Vec<ExtensionProperties>) -> (names: Vec<Vec<u8>>)
    ensures
        names_of(names@) == extension_names(extensions_of(properties@)),
{
    let mut names: Vec<Vec<u8>> = Vec::new();
    let mut i: usize = 0;
    while i < properties.len()
        invariant
            0 <= i <= properties@.len(),
            names@.len() == i,
            forall|j: int|
                0 <= j < i ==> (#[trigger] names@[j])@ == c_string_of(
                    properties@[j].extension_name@,
                ),
        decreases properties@.len() - i,
    {
        names.push(i8_slice_to_cstring(properties[i].extension_name.as_slice()));
        i += 1;
    }
    assert(names_of(names@) =~= extension_names(extensions_of(properties@)));
    names
}

/// Those of the requested layers that the loader reports, in the order
/// they were asked for.
pub fn filter_supported_layers(properties: &Vec<LayerProperties>, layers: &Vec<Vec<u8>>) -> (available_layers:
    Vec<Vec<u8>>)
    ensures
        names_of(available_layers@) == supported_names(
            names_of(layers@),
            layer_names(layers_of(properties@)),
        ),
{
    let reported = reported_layer_names(properties);
    keep_supported(layers, &reported)
}

/// Those of the requested extensions that are among `extensions`, which
/// the loader and its layers report; in the order they were asked for.
pub fn filter_supported_instance_extensions(
    extensions: &Vec<ExtensionProperties>,
    requested_extensions: &Vec<Vec<u8>>,
) -> (available_extensions: Vec<Vec<u8>>)
    ensures
        names_of(available_extensions@) == supported_names(
            names_of(requested_extensions@),
            extension_names(extensions_of(extensions@)),
        ),
{
    let reported = reported_extension_names(extensions);
    keep_supported(requested_extensions, &reported)
}

/// Those of the requested extensions that the adapter reports, in the
/// order they were asked for. An extension that the adapter reports
/// several times comes out as many times.
pub fn filter_supported_physical_device_extensions(
    available_extension_properties: &Vec<ExtensionProperties>,
    extensions: &Vec<Vec<u8>>,
) -> (result: Vec<Vec<u8>>)
    ensures
        names_of(result@) == matched_names(
            names_of(extensions@),
            extension_names(extensions_of(available_extension_properties@)),
        ),
{
    let reported = reported_extension_names(available_extension_properties);
    let ghost wanted = names_of(extensions@);
    let ghost there = names_of(reported@);
    let mut result: Vec<Vec<u8>> = Vec::new();
    let mut i: usize = 0;
    assert(names_of(result@) =~= matched_names(wanted.take(0), there));
    while i < extensions.len()
        invariant
            0 <= i <= extensions@.len(),
            wanted == names_of(extensions@),
            there == names_of(reported@),
            names_of(result@) == matched_names(wanted.take(i as int), there),
        decreases extensions@.len() - i,
    {
        let ghost done = names_of(result@);
        let ghost name = extensions@[i as int]@;
        proof {
            assert(wanted.take(i + 1).drop_last() =~= wanted.take(i as int));
            assert(wanted.take(i + 1).last() == name);
        }
        let mut k: usize = 0;
        assert(names_of(result@) =~= done + occurrences(name, there.take(0)));
        while k < reported.len()
            invariant
                0 <= k <= reported@.len(),
                0 <= i < extensions@.len(),
                name == extensions@[i as int]@,
                there == names_of(reported@),
                names_of(result@) == done + occurrences(name, there.take(k as int)),
            decreases reported@.len() - k,
        {
            let ghost before = result@;
            proof {
                assert(there.take(k + 1).drop_last() =~= there.take(k as int));
                assert(there.take(k + 1).last() == reported@[k as int]@);
            }
            if names_equal(&extensions[i], &reported[k]) {
                let copy = clone_name(&extensions[i]);
                result.push(copy);
                assert(names_of(result@) =~= names_of(before).push(copy@));
            }
            k += 1;
            assert(names_of(result@) =~= done + occurrences(name, there.take(k as int)));
        }
        assert(there.take(k as int) =~= there);
        i += 1;
    }
    assert(wanted.take(i as int) =~= wanted);
    result
}

/// What the selector goes by, put together from its parts.
pub open spec fn criteria_from(
    required: Seq<Seq<u8>>,
    optional: Seq<Seq<u8>>,
    ratings: Seq<u32>,
    minimum_api_version: u32,
) -> Criteria {
    Criteria { required, optional, ratings, minimum_api_version }
}

/// Picks the adapter to use among `adapters` and gives its handle: of
/// the adapters that have their queue families, every required extension,
/// a format and a present mode on the surface and an API version of at
/// least `minimum_api_version`, the one that is rated highest, and of
/// several such the first. There is none where no adapter will do.
///
/// `ratings` says for each optional extension, in their order, what it
/// adds to the rating of an adapter that offers it; a discrete GPU gets
/// 1000 on top. The highest rating that can be reached must fit 32 bits.
/// `minimum_api_version` is a packed version number.
pub fn pick_most_suitable_physical_device(
    adapters: &Vec<AdapterDescriptor>,
    required_extensions: &Vec<Vec<u8>>,
    optional_extensions: &Vec<Vec<u8>>,
    ratings: &Vec<u32>,
    minimum_api_version: u32,
) -> (handle: Option<u64>)
    requires
        criteria_from(
            names_of(required_extensions@),
            names_of(optional_extensions@),
            ratings@,
            minimum_api_version,
        ).wf(),
    ensures
        match handle {
            Some(handle) => {
                &&& best_adapter(
                    adapters@,
                    criteria_from(
                        names_of(required_extensions@),
                        names_of(optional_extensions@),
                        ratings@,
                        minimum_api_version,
                    ),
                ) matches Some(best)
                &&& 0 <= best < adapters@.len()
                &&& handle == adapters@[best].handle
                &&& is_best_choice(
                    adapters@,
                    criteria_from(
                        names_of(required_extensions@),
                        names_of(optional_extensions@),
                        ratings@,
                        minimum_api_version,
                    ),
                    best,
                )
            },
            None => {
                &&& best_adapter(
                    adapters@,
                    criteria_from(
                        names_of(required_extensions@),
                        names_of(optional_extensions@),
                        ratings@,
                        minimum_api_version,
                    ),
                ) is None
                &&& none_will_do(
                    adapters@,
                    criteria_from(
                        names_of(required_extensions@),
                        names_of(optional_extensions@),
                        ratings@,
                        minimum_api_version,
                    ),
                )
            },
        },
{
    let criteria = SelectionCriteria {
        required_extensions,
        optional_extensions,
        ratings,
        minimum_api_version,
    };
    proof {
        lemma_best_adapter(adapters@, criteria@);
    }
    match select_adapter(adapters, &criteria) {
        Some(place) => Some(adapters[place].handle),
        None => None,
    }
}

/// The queues that the renderer submits to.
#[derive(PartialEq, Eq, Structural, Debug, Clone, Copy)]
pub struct Queues {
    pub graphics_queue: u64,
    pub present_queue: u64,
}

/// The queue families that the renderer submits to.
#[derive(PartialEq, Eq, Structural, Debug, Clone, Copy)]
pub struct QueueFamilyIndices {
    pub graphics_family: Option<u32>,
    pub present_family: Option<u32>,
}

impl QueueFamilyIndices {
    /// The family indices that there are, as a set.
    pub open spec fn unique(self) -> Set<u32> {
        (match self.graphics_family {
            Some(graphics) => set![graphics],
            None => Set::empty(),
        }).union(
            match self.present_family {
                Some(present) => set![present],
                None => Set::empty(),
            },
        )
    }

    /// Whether both families were found.
    pub fn has_required(&self) -> (complete: bool)
        ensures
            complete == (self.graphics_family is Some && self.present_family is Some),
    {
        self.graphics_family.is_some() && self.present_family.is_some()
    }

    /// The distinct family indices.
    pub fn get_unique_indices(&self) -> (unique: HashSet<u32>)
        ensures
            unique@ == self.unique(),
    {
        broadcast use vstd::std_specs::hash::group_hash_axioms;

        let mut result: HashSet<u32> = HashSet::new();
        if self.graphics_family.is_some() {
            result.insert(self.graphics_family.unwrap());
        }
        if self.present_family.is_some() {
            result.insert(self.present_family.unwrap());
        }
        assert(result@ =~= self.unique());
        result
    }
}

/// Finds the first queue family that draws and the first that presents to
/// the surface.
pub fn find_queue_families(properties: &Vec<QueueFamilyProperties>) -> (indices: QueueFamilyIndices)
    ensures
        indices.graphics_family == family_index(first_true(graphics_flags(properties@))),
        indices.present_family == family_index(first_true(present_flags(properties@))),
{
    let found = QueueFamiliesIndices::extract(properties);
    QueueFamilyIndices {
        graphics_family: found.graphics_family,
        present_family: found.present_family,
    }
}

/// What an adapter can do on the surface.
#[derive(Debug)]
pub struct SwapChainSupportDetails {
    pub capabilities: SurfaceCapabilitiesKHR,
    pub formats: Vec<SurfaceFormatKHR>,
    /// Raw present modes.
    pub present_modes: Vec<i32>,
}

impl SwapChainSupportDetails {
    /// Picks the colour format of the chain.
    pub fn choose_format(&self) -> (format: SurfaceFormatKHR)
        requires
            self.formats@.len() > 0,
        ensures
            format == chosen_format(self.formats@),
    {
        let wanted_format = format_b8g8r8a8_srgb();
        let wanted_color_space = color_space_srgb_nonlinear();
        let mut i: usize = 0;
        while i < self.formats.len()
            invariant
                0 <= i <= self.formats@.len(),
                wanted_format == crate::vk::FORMAT_B8G8R8A8_SRGB,
                wanted_color_space == crate::vk::COLOR_SPACE_SRGB_NONLINEAR,
                forall|j: int|
                    0 <= j < i ==> self.formats@[j] != crate::physical_device::preferred_format(),
            decreases self.formats@.len() - i,
        {
            let format = self.formats[i];
            if format.format == wanted_format && format.color_space == wanted_color_space {
                assert(self.formats@[i as int] == crate::physical_device::preferred_format());
                return format;
            }
            i += 1;
        }
        self.formats[0]
    }

    /// Picks the present mode of the chain.
    pub fn choose_presentation_mode(&self) -> (mode: i32)
        ensures
            mode == chosen_present_mode(self.present_modes@),
    {
        let mailbox = present_mode_mailbox();
        let mut i: usize = 0;
        while i < self.present_modes.len()
            invariant
                0 <= i <= self.present_modes@.len(),
                mailbox == crate::vk::PRESENT_MODE_MAILBOX,
                forall|j: int|
                    0 <= j < i ==> self.present_modes@[j] != crate::vk::PRESENT_MODE_MAILBOX,
            decreases self.present_modes@.len() - i,
        {
            let present_mode = self.present_modes[i];
            if present_mode == mailbox {
                assert(self.present_modes@[i as int] == crate::vk::PRESENT_MODE_MAILBOX);
                return present_mode;
            }
            i += 1;
        }
        present_mode_fifo()
    }

    /// Picks the size of the chain's images for a window whose inner size
    /// is `window`.
    pub fn choose_swap_extend(&self, window: Extent2D) -> (extent: Extent2D)
        requires
            self.capabilities.current_extent.width == EXTENT_FOLLOWS_WINDOW
                ==> extent_limits_ordered(self.capabilities),
        ensures
            extent == chosen_extent(self.capabilities, window),
    {
        if self.capabilities.current_extent.width != u32::MAX {
            return self.capabilities.current_extent;
        }
        let mut result = window;
        result.width = crate::physical_device::clamp_u32(
            result.width,
            self.capabilities.min_image_extent.width,
            self.capabilities.max_image_extent.width,
        );
        result.height = crate::physical_device::clamp_u32(
            result.height,
            self.capabilities.min_image_extent.height,
            self.capabilities.max_image_extent.height,
        );
        result
    }

    /// Picks the number of images to ask for: one more than the surface
    /// needs at least, but no more than it allows at most, where it sets
    /// such a limit.
    pub fn choose_image_count(&self) -> (count: u32)
        requires
            chosen_image_count(self.capabilities) <= u32::MAX,
        ensures
            count == chosen_image_count(self.capabilities),
    {
        if self.capabilities.max_image_count > 0 && self.capabilities.min_image_count
            >= self.capabilities.max_image_count {
            return self.capabilities.max_image_count;
        }
        self.capabilities.min_image_count + 1
    }

    /// Picks the number of images to ask for, where it can be said in 32
    /// bits.
    pub fn try_choose_image_count(&self) -> (count: Option<u32>)
        ensures
            match count {
                Some(count) => count == chosen_image_count(self.capabilities),
                None => chosen_image_count(self.capabilities) > u32::MAX,
            },
    {
        if self.capabilities.max_image_count == 0 && self.capabilities.min_image_count
            == u32::MAX {
            None
        } else {
            Some(self.choose_image_count())
        }
    }
}

} // verus!

//! Choosing the adapter: what each candidate offers, whether it will do,
//! and how it is rated against the others.

use crate::constants::{
    lemma_ratings_sum_take, ratings_fit, ratings_sum, RendererConfig, DISCRETE_GPU_BONUS,
};
use crate::cstringstuff::{first_missing, lemma_first_missing, names_of};
use crate::extension::{
    extension_names, extension_views, extensions_of, first_missing_extension,
    has_extension_named, Extension,
};
use crate::layer::{layer_views, layers_of, Layer};
use crate::properties::{properties_of, PhysicalDeviceProperties};
use crate::utils::{first_true, lemma_first_true};
use crate::vk::{
    color_space_srgb_nonlinear, format_b8g8r8a8_srgb, physical_device_type_discrete_gpu,
    present_mode_fifo, present_mode_mailbox, ExtensionProperties, Extent2D, LayerProperties,
    QueueFamilyProperties, SurfaceCapabilitiesKHR, SurfaceFormatKHR, COLOR_SPACE_SRGB_NONLINEAR,
    EXTENT_FOLLOWS_WINDOW, FORMAT_B8G8R8A8_SRGB, PHYSICAL_DEVICE_TYPE_DISCRETE_GPU,
    PRESENT_MODE_FIFO, PRESENT_MODE_MAILBOX,
};
use vstd::prelude::*;

verus! {

/// For each queue family, whether it takes graphics commands.
pub open spec fn graphics_flags(properties: Seq<QueueFamilyProperties>) -> Seq<bool> {
    properties.map_values(|family: QueueFamilyProperties| family.has_graphics())
}

/// For each queue family, whether it can present to the surface.
pub open spec fn present_flags(properties: Seq<QueueFamilyProperties>) -> Seq<bool> {
    properties.map_values(|family: QueueFamilyProperties| family.present_support)
}

/// A position as a queue family index. Vulkan counts families in 32 bits.
pub open spec fn family_index(position: Option<int>) -> Option<u32> {
    match position {
        Some(i) => Some(i as u32),
        None => None,
    }
}

/// The queue families that the renderer submits to: one for drawing and
/// one for presenting. They may be the same family.
#[derive(PartialEq, Eq, Structural, Debug, Clone, Copy)]
pub struct QueueFamiliesIndices {
    pub graphics_family: Option<u32>,
    pub present_family: Option<u32>,
}

impl QueueFamiliesIndices {
    /// The first family that draws and the first that presents.
    pub open spec fn of(properties: Seq<QueueFamilyProperties>) -> QueueFamiliesIndices {
        QueueFamiliesIndices {
            graphics_family: family_index(first_true(graphics_flags(properties))),
            present_family: family_index(first_true(present_flags(properties))),
        }
    }

    /// Both families were found.
    pub open spec fn is_complete(self) -> bool {
        self.graphics_family is Some && self.present_family is Some
    }

    /// The distinct indices, the graphics family first.
    pub open spec fn unique(self) -> Seq<u32> {
        match (self.graphics_family, self.present_family) {
            (Some(g), Some(p)) => if g == p {
                seq![g]
            } else {
                seq![g, p]
            },
            (Some(g), None) => seq![g],
            (None, Some(p)) => seq![p],
            (None, None) => Seq::empty(),
        }
    }

    /// Finds the families among those of an adapter. Each family's answer
    /// on presenting to the surface comes with its properties.
    pub fn extract(properties: &Vec<QueueFamilyProperties>) -> (indices: Self)
        ensures
            indices == Self::of(properties@),
    {
        let mut graphics_family: Option<u32> = None;
        let mut present_family: Option<u32> = None;
        let ghost mut graphics_at: Option<int> = None;
        let ghost mut present_at: Option<int> = None;
        let mut index: usize = 0;
        while index < properties.len()
            invariant
                0 <= index <= properties.len(),
                graphics_family == family_index(graphics_at),
                present_family == family_index(present_at),
                match graphics_at {
                    Some(i) => 0 <= i < index && properties@[i].has_graphics() && forall|j: int|
                        0 <= j < i ==> !properties@[j].has_graphics(),
                    None => forall|j: int| 0 <= j < index ==> !properties@[j].has_graphics(),
                },
                match present_at {
                    Some(i) => 0 <= i < index && properties@[i].present_support && forall|j: int|
                        0 <= j < i ==> !properties@[j].present_support,
                    None => forall|j: int| 0 <= j < index ==> !properties@[j].present_support,
                },
            decreases properties.len() - index,
        {
            let family = &properties[index];
            if family.supports_graphics() && graphics_family.is_none() {
                graphics_family = Some(#[verifier::truncate] (index as u32));
                proof {
                    graphics_at = Some(index as int);
                }
            }
            if present_family.is_none() && family.present_support {
                present_family = Some(#[verifier::truncate] (index as u32));
                proof {
                    present_at = Some(index as int);
                }
            }
            index += 1;
        }
        proof {
            let drawing = graphics_flags(properties@);
            let presenting = present_flags(properties@);
            lemma_first_true(drawing);
            lemma_first_true(presenting);
            assert forall|j: int| 0 <= j < properties@.len() implies drawing[j]
                == properties@[j].has_graphics() by {}
            assert forall|j: int| 0 <= j < properties@.len() implies presenting[j]
                == properties@[j].present_support by {}
            assert(graphics_at == first_true(drawing)) by {
                match (graphics_at, first_true(drawing)) {
                    (Some(a), Some(b)) => {
                        assert(drawing[a] && drawing[b]);
                        assert(a == b);
                    },
                    (Some(a), None) => {
                        assert(drawing[a]);
                    },
                    (None, Some(b)) => {
                        assert(drawing[b]);
                    },
                    (None, None) => {},
                }
            }
            assert(present_at == first_true(presenting)) by {
                match (present_at, first_true(presenting)) {
                    (Some(a), Some(b)) => {
                        assert(presenting[a] && presenting[b]);
                        assert(a == b);
                    },
                    (Some(a), None) => {
                        assert(presenting[a]);
                    },
                    (None, Some(b)) => {
                        assert(presenting[b]);
                    },
                    (None, None) => {},
                }
            }
        }
        QueueFamiliesIndices { graphics_family, present_family }
    }

    /// The distinct family indices, each once, the graphics family first.
    pub fn get_unique_indices(&self) -> (unique: Vec<u32>)
        ensures
            unique@ == self.unique(),
    {
        let mut result: Vec<u32> = Vec::new();
        if let Some(graphics) = self.graphics_family {
            result.push(graphics);
        }
        if let Some(present) = self.present_family {
            if self.graphics_family != Some(present) {
                result.push(present);
            }
        }
        assert(result@ =~= self.unique());
        result
    }
}

/// The families that were found are families of the adapter: the one for
/// graphics draws, the one for presenting presents, and no family before
/// either does as much. This holds of every adapter whose families can be
/// counted in 32 bits.
pub proof fn lemma_families_found(properties: Seq<QueueFamilyProperties>)
    requires
        properties.len() <= u32::MAX,
    ensures
        match QueueFamiliesIndices::of(properties).graphics_family {
            Some(graphics) => graphics < properties.len() && properties[graphics as int].has_graphics()
                && forall|j: int| 0 <= j < graphics ==> !(#[trigger] properties[j]).has_graphics(),
            None => forall|j: int|
                0 <= j < properties.len() ==> !(#[trigger] properties[j]).has_graphics(),
        },
        match QueueFamiliesIndices::of(properties).present_family {
            Some(present) => present < properties.len() && properties[present as int].present_support
                && forall|j: int| 0 <= j < present ==> !(#[trigger] properties[j]).present_support,
            None => forall|j: int|
                0 <= j < properties.len() ==> !(#[trigger] properties[j]).present_support,
        },
{
    let drawing = graphics_flags(properties);
    let presenting = present_flags(properties);
    lemma_first_true(drawing);
    lemma_first_true(presenting);
    assert forall|j: int| 0 <= j < properties.len() implies (#[trigger] properties[j]).has_graphics()
        == drawing[j] && properties[j].present_support == presenting[j] by {}
    match first_true(drawing) {
        Some(at) => {
            assert(at as u32 == at);
            assert(drawing[at]);
        },
        None => {},
    }
    match first_true(presenting) {
        Some(at) => {
            assert(at as u32 == at);
            assert(presenting[at]);
        },
        None => {},
    }
}

/// The value within `[low, high]` that is nearest to `value`.
pub open spec fn clamped(value: u32, low: u32, high: u32) -> u32 {
    if value < low {
        low
    } else if value > high {
        high
    } else {
        value
    }
}

/// `u32::clamp` of std: `low` where `value` lies below it, `high` where it
/// lies above, else `value` itself. It panics where `low` exceeds `high`,
/// which the precondition rules out.
#[verifier::external_body]
pub(crate) fn clamp_u32(value: u32, low: u32, high: u32) -> (nearest: u32)
    requires
        low <= high,
    ensures
        nearest == clamped(value, low, high),
{
    value.clamp(low, high)
}

/// The format that the renderer likes best.
pub open spec fn preferred_format() -> SurfaceFormatKHR {
    SurfaceFormatKHR { format: FORMAT_B8G8R8A8_SRGB, color_space: COLOR_SPACE_SRGB_NONLINEAR }
}

/// The preferred format where the surface offers it, else the first offer.
pub open spec fn chosen_format(formats: Seq<SurfaceFormatKHR>) -> SurfaceFormatKHR {
    if formats.contains(preferred_format()) {
        preferred_format()
    } else {
        formats[0]
    }
}

/// Mailbox where the surface offers it, else first-in-first-out, which
/// every surface has.
pub open spec fn chosen_present_mode(present_modes: Seq<i32>) -> i32 {
    if present_modes.contains(PRESENT_MODE_MAILBOX) {
        PRESENT_MODE_MAILBOX
    } else {
        PRESENT_MODE_FIFO
    }
}

/// The surface's own extent where it has one; else the window's size,
/// brought into the limits of the surface one dimension at a time.
pub open spec fn chosen_extent(capabilities: SurfaceCapabilitiesKHR, window: Extent2D) -> Extent2D {
    if capabilities.current_extent.width != EXTENT_FOLLOWS_WINDOW {
        capabilities.current_extent
    } else {
        Extent2D {
            width: clamped(
                window.width,
                capabilities.min_image_extent.width,
                capabilities.max_image_extent.width,
            ),
            height: clamped(
                window.height,
                capabilities.min_image_extent.height,
                capabilities.max_image_extent.height,
            ),
        }
    }
}

/// The limits of the surface leave room: no lower limit lies above its
/// upper limit.
pub open spec fn extent_limits_ordered(capabilities: SurfaceCapabilitiesKHR) -> bool {
    &&& capabilities.min_image_extent.width <= capabilities.max_image_extent.width
    &&& capabilities.min_image_extent.height <= capabilities.max_image_extent.height
}

/// One more image than the surface needs at least, but no more than it
/// allows at most, where it sets such a limit.
pub open spec fn chosen_image_count(capabilities: SurfaceCapabilitiesKHR) -> int {
    if capabilities.max_image_count > 0 && capabilities.min_image_count + 1
        > capabilities.max_image_count {
        capabilities.max_image_count as int
    } else {
        capabilities.min_image_count + 1
    }
}

/// The chosen number of images never exceeds the upper limit of a surface
/// that sets one.
pub proof fn lemma_image_count_within_maximum(capabilities: SurfaceCapabilitiesKHR)
    requires
        capabilities.max_image_count != 0,
    ensures
        chosen_image_count(capabilities) <= capabilities.max_image_count,
{
}

/// Where the surface sets no upper limit, or one that lies above its lower
/// limit, the chosen number of images is one more than the lower limit.
pub proof fn lemma_image_count_above_minimum(capabilities: SurfaceCapabilitiesKHR)
    requires
        capabilities.max_image_count == 0 || capabilities.max_image_count
            > capabilities.min_image_count,
    ensures
        chosen_image_count(capabilities) == capabilities.min_image_count + 1,
{
}

/// A window that lies within the limits of the surface keeps its size; one
/// that lies outside comes to the nearest limit, one dimension at a time.
pub proof fn lemma_extent_clamped(capabilities: SurfaceCapabilitiesKHR, window: Extent2D)
    requires
        capabilities.current_extent.width == EXTENT_FOLLOWS_WINDOW,
        extent_limits_ordered(capabilities),
    ensures
        capabilities.min_image_extent.width <= chosen_extent(capabilities, window).width
            <= capabilities.max_image_extent.width,
        capabilities.min_image_extent.height <= chosen_extent(capabilities, window).height
            <= capabilities.max_image_extent.height,
        capabilities.min_image_extent.width <= window.width <= capabilities.max_image_extent.width
            ==> chosen_extent(capabilities, window).width == window.width,
        capabilities.min_image_extent.height <= window.height
            <= capabilities.max_image_extent.height ==> chosen_extent(capabilities, window).height
            == window.height,
        window.width < capabilities.min_image_extent.width ==> chosen_extent(
            capabilities,
            window,
        ).width == capabilities.min_image_extent.width,
        window.width > capabilities.max_image_extent.width ==> chosen_extent(
            capabilities,
            window,
        ).width == capabilities.max_image_extent.width,
        window.height < capabilities.min_image_extent.height ==> chosen_extent(
            capabilities,
            window,
        ).height == capabilities.min_image_extent.height,
        window.height > capabilities.max_image_extent.height ==> chosen_extent(
            capabilities,
            window,
        ).height == capabilities.max_image_extent.height,
{
}

/// Choosing a format is settled by the list alone, and choosing again
/// from the chosen format gives it back; where the preferred format is
/// not in the list, the first entry is chosen.
pub proof fn lemma_format_choice(formats: Seq<SurfaceFormatKHR>)
    requires
        formats.len() > 0,
    ensures
        chosen_format(seq![chosen_format(formats)]) == chosen_format(formats),
        formats.contains(chosen_format(formats)),
        !formats.contains(preferred_format()) ==> chosen_format(formats)
            == formats[0],
{
    let chosen = chosen_format(formats);
    let single = seq![chosen];
    assert(single[0] == chosen);
    if formats.contains(preferred_format()) {
        assert(single.contains(preferred_format()));
    } else {
        assert(formats[0] == chosen);
        assert(formats.contains(formats[0]));
    }
}

/// What an adapter can do on the surface.
#[derive(Debug)]
pub struct SwapChainSupportDetails {
    pub surface_capabilities: SurfaceCapabilitiesKHR,
    pub formats: Vec<SurfaceFormatKHR>,
    /// Raw present modes.
    pub present_modes: Vec<i32>,
}

impl SwapChainSupportDetails {
    /// There is a format and a present mode to choose.
    pub open spec fn suitable(self) -> bool {
        self.formats@.len() > 0 && self.present_modes@.len() > 0
    }

    /// Whether there is a format and a present mode to choose.
    pub fn is_suitable(&self) -> (suitable: bool)
        ensures
            suitable == self.suitable(),
    {
        !(self.formats.len() == 0) && !(self.present_modes.len() == 0)
    }

    /// Picks the colour format of the chain.
    pub fn choose_format(&self) -> (format: SurfaceFormatKHR)
        requires
            self.formats@.len() > 0,
        ensures
            format == chosen_format(self.formats@),
    {
        let wanted_format = format_b8g8r8a8_srgb();
        let wanted_color_space = color_space_srgb_nonlinear();
        let mut i: usize = 0;
        while i < self.formats.len()
            invariant
                0 <= i <= self.formats.len(),
                wanted_format == FORMAT_B8G8R8A8_SRGB,
                wanted_color_space == COLOR_SPACE_SRGB_NONLINEAR,
                forall|j: int| 0 <= j < i ==> self.formats@[j] != preferred_format(),
            decreases self.formats.len() - i,
        {
            let available = self.formats[i];
            if available.format == wanted_format && available.color_space == wanted_color_space {
                assert(self.formats@[i as int] == preferred_format());
                return available;
            }
            i += 1;
        }
        self.formats[0]
    }

    /// Picks the present mode of the chain.
    pub fn choose_present_mode(&self) -> (mode: i32)
        ensures
            mode == chosen_present_mode(self.present_modes@),
    {
        let mailbox = present_mode_mailbox();
        let mut i: usize = 0;
        while i < self.present_modes.len()
            invariant
                0 <= i <= self.present_modes.len(),
                mailbox == PRESENT_MODE_MAILBOX,
                forall|j: int| 0 <= j < i ==> self.present_modes@[j] != PRESENT_MODE_MAILBOX,
            decreases self.present_modes.len() - i,
        {
            let available = self.present_modes[i];
            if available == mailbox {
                assert(self.present_modes@[i as int] == PRESENT_MODE_MAILBOX);
                return available;
            }
            i += 1;
        }
        present_mode_fifo()
    }

    /// Picks the size of the chain's images for a window whose inner size
    /// is `window`.
    pub fn choose_swap_extent(&self, window: Extent2D) -> (extent: Extent2D)
        requires
            self.surface_capabilities.current_extent.width == EXTENT_FOLLOWS_WINDOW
                ==> extent_limits_ordered(self.surface_capabilities),
        ensures
            extent == chosen_extent(self.surface_capabilities, window),
    {
        if self.surface_capabilities.current_extent.width != u32::MAX {
            return self.surface_capabilities.current_extent;
        }
        Extent2D {
            width: clamp_u32(
                window.width,
                self.surface_capabilities.min_image_extent.width,
                self.surface_capabilities.max_image_extent.width,
            ),
            height: clamp_u32(
                window.height,
                self.surface_capabilities.min_image_extent.height,
                self.surface_capabilities.max_image_extent.height,
            ),
        }
    }
}

/// What the selector goes by, as plain values.
pub struct Criteria {
    /// The extensions that an adapter must offer.
    pub required: Seq<Seq<u8>>,
    /// The extensions that speak for an adapter that offers them.
    pub optional: Seq<Seq<u8>>,
    /// What each optional extension adds to the rating.
    pub ratings: Seq<u32>,
    /// The lowest packed API version that will do.
    pub minimum_api_version: u32,
}

impl Criteria {
    /// Every optional extension has its rating, and the highest rating
    /// that an adapter can reach fits 32 bits.
    pub open spec fn wf(self) -> bool {
        &&& self.ratings.len() == self.optional.len()
        &&& DISCRETE_GPU_BONUS + ratings_sum(self.ratings) <= u32::MAX
    }
}

/// What the selector goes by.
pub struct SelectionCriteria<'a> {
    pub required_extensions: &'a Vec<Vec<u8>>,
    pub optional_extensions: &'a Vec<Vec<u8>>,
    pub ratings: &'a Vec<u32>,
    pub minimum_api_version: u32,
}

impl<'a> View for SelectionCriteria<'a> {
    type V = Criteria;

    open spec fn view(&self) -> Criteria {
        Criteria {
            required: names_of(self.required_extensions@),
            optional: names_of(self.optional_extensions@),
            ratings: self.ratings@,
            minimum_api_version: self.minimum_api_version,
        }
    }
}

impl<'a> SelectionCriteria<'a> {
    /// Whether every optional extension has its rating and the highest
    /// rating that an adapter can reach fits 32 bits.
    pub fn is_well_formed(&self) -> (sound: bool)
        ensures
            sound == self@.wf(),
    {
        self.ratings.len() == self.optional_extensions.len() && ratings_fit(self.ratings)
    }
}

/// What the selector goes by when it works for a configured renderer.
pub open spec fn criteria_of(config: &RendererConfig) -> Criteria {
    Criteria {
        required: names_of(config.physical_device_required_extension_names@),
        optional: names_of(config.physical_device_optional_extension_names@),
        ratings: config.physical_device_optional_extension_ratings@,
        minimum_api_version: config.api_version.packed_patchless(),
    }
}

/// What the optional extensions add to the rating of an adapter that
/// offers the extensions `offered`.
pub open spec fn optional_bonus(offered: Seq<Seq<u8>>, optional: Seq<Seq<u8>>, ratings: Seq<u32>)
    -> int
    decreases optional.len(),
{
    if optional.len() == 0 || ratings.len() == 0 {
        0
    } else {
        optional_bonus(offered, optional.drop_last(), ratings.drop_last()) + if offered.contains(
            optional.last(),
        ) {
            ratings.last() as int
        } else {
            0
        }
    }
}

/// No adapter gets more from the optional extensions than the rating
/// table holds.
pub proof fn lemma_optional_bonus_bounded(
    offered: Seq<Seq<u8>>,
    optional: Seq<Seq<u8>>,
    ratings: Seq<u32>,
)
    requires
        optional.len() == ratings.len(),
    ensures
        0 <= optional_bonus(offered, optional, ratings) <= ratings_sum(ratings),
    decreases optional.len(),
{
    if optional.len() > 0 {
        lemma_optional_bonus_bounded(offered, optional.drop_last(), ratings.drop_last());
    }
}

/// A candidate for the renderer's adapter, as the driver describes it for
/// the surface in question.
#[derive(Debug)]
pub struct AdapterDescriptor {
    /// The adapter's handle.
    pub handle: u64,
    pub layer_properties: Vec<LayerProperties>,
    pub extension_properties: Vec<ExtensionProperties>,
    pub properties: crate::vk::PhysicalDeviceProperties,
    pub queue_family_properties: Vec<QueueFamilyProperties>,
    pub swap_chain_support_details: SwapChainSupportDetails,
}

impl AdapterDescriptor {
    /// The names of the extensions that the adapter offers.
    pub open spec fn offered_names(&self) -> Seq<Seq<u8>> {
        extension_names(extensions_of(self.extension_properties@))
    }

    /// The adapter is of the discrete-GPU class.
    pub open spec fn is_discrete(&self) -> bool {
        self.properties.device_type == PHYSICAL_DEVICE_TYPE_DISCRETE_GPU
    }

    /// The adapter will do: it has a queue family that draws and one that
    /// presents to the surface, it offers every required extension, the
    /// surface has a format and a present mode for it, and it speaks a
    /// version that is new enough.
    pub open spec fn eligible(&self, criteria: Criteria) -> bool {
        &&& QueueFamiliesIndices::of(self.queue_family_properties@).is_complete()
        &&& first_missing(criteria.required, self.offered_names()) is None
        &&& self.swap_chain_support_details.suitable()
        &&& self.properties.api_version >= criteria.minimum_api_version
    }

    /// The rating of the adapter: the bonus of the discrete GPU, and for
    /// each optional extension that it offers what the table gives.
    pub open spec fn score(&self, criteria: Criteria) -> int {
        (if self.is_discrete() {
            DISCRETE_GPU_BONUS as int
        } else {
            0
        }) + optional_bonus(self.offered_names(), criteria.optional, criteria.ratings)
    }

    /// Whether the adapter will do.
    pub fn is_eligible(&self, criteria: &SelectionCriteria) -> (will_do: bool)
        ensures
            will_do == self.eligible(criteria@),
    {
        let indices = QueueFamiliesIndices::extract(&self.queue_family_properties);
        if indices.graphics_family.is_none() || indices.present_family.is_none() {
            return false;
        }
        let extensions = Extension::convert_vec(&self.extension_properties);
        if first_missing_extension(criteria.required_extensions, &extensions).is_some() {
            return false;
        }
        if !self.swap_chain_support_details.is_suitable() {
            return false;
        }
        if self.properties.api_version < criteria.minimum_api_version {
            return false;
        }
        true
    }

    /// Rates an adapter that will do. One that will not is never rated.
    pub fn rating(&self, criteria: &SelectionCriteria) -> (rating: u32)
        requires
            criteria@.wf(),
            self.eligible(criteria@),
        ensures
            rating == self.score(criteria@),
    {
        let extensions = Extension::convert_vec(&self.extension_properties);
        let ghost offered = self.offered_names();
        let ghost optional = criteria@.optional;
        let ghost ratings = criteria@.ratings;
        let mut score: u32 = 0;
        let mut index: usize = 0;
        assert(optional.take(0) =~= Seq::<Seq<u8>>::empty());
        while index < criteria.optional_extensions.len()
            invariant
                0 <= index <= optional.len(),
                optional.len() == ratings.len(),
                optional == names_of(criteria.optional_extensions@),
                ratings == criteria.ratings@,
                offered == extension_names(extension_views(extensions@)),
                DISCRETE_GPU_BONUS + ratings_sum(ratings) <= u32::MAX,
                score == optional_bonus(
                    offered,
                    optional.take(index as int),
                    ratings.take(index as int),
                ),
            decreases optional.len() - index,
        {
            proof {
                assert(optional.take(index + 1).drop_last() =~= optional.take(index as int));
                assert(ratings.take(index + 1).drop_last() =~= ratings.take(index as int));
                assert(optional.take(index + 1).last() == criteria.optional_extensions@[index as int]@);
                assert(ratings.take(index + 1).last() == ratings[index as int]);
                lemma_optional_bonus_bounded(
                    offered,
                    optional.take(index + 1),
                    ratings.take(index + 1),
                );
                lemma_ratings_sum_take(ratings, index + 1);
            }
            if has_extension_named(&extensions, &criteria.optional_extensions[index]) {
                score += criteria.ratings[index];
            }
            index += 1;
        }
        proof {
            assert(optional.take(index as int) =~= optional);
            assert(ratings.take(index as int) =~= ratings);
            lemma_optional_bonus_bounded(offered, optional, ratings);
        }
        if self.properties.device_type == physical_device_type_discrete_gpu() {
            score += DISCRETE_GPU_BONUS;
        }
        score
    }
}

/// The adapter to use among `adapters`: of those that will do the one
/// with the highest rating, and of several such the one that comes first.
pub open spec fn best_adapter(adapters: Seq<AdapterDescriptor>, criteria: Criteria) -> Option<int>
    decreases adapters.len(),
{
    if adapters.len() == 0 {
        None
    } else {
        let before = best_adapter(adapters.drop_last(), criteria);
        let last = adapters.last();
        if !last.eligible(criteria) {
            before
        } else {
            match before {
                None => Some(adapters.len() - 1),
                Some(best) => if last.score(criteria) > adapters[best].score(criteria) {
                    Some(adapters.len() - 1)
                } else {
                    Some(best)
                },
            }
        }
    }
}

/// The adapter at `best` will do, none that will do is rated higher, and
/// none that will do and comes before it is rated as high.
pub open spec fn is_best_choice(adapters: Seq<AdapterDescriptor>, criteria: Criteria, best: int)
    -> bool {
    &&& 0 <= best < adapters.len()
    &&& adapters[best].eligible(criteria)
    &&& forall|j: int|
        0 <= j < adapters.len() && (#[trigger] adapters[j]).eligible(criteria)
            ==> adapters[j].score(criteria) <= adapters[best].score(criteria)
    &&& forall|j: int|
        0 <= j < best && (#[trigger] adapters[j]).eligible(criteria) ==> adapters[j].score(
            criteria,
        ) < adapters[best].score(criteria)
}

/// None of `adapters` will do.
pub open spec fn none_will_do(adapters: Seq<AdapterDescriptor>, criteria: Criteria) -> bool {
    forall|j: int| 0 <= j < adapters.len() ==> !(#[trigger] adapters[j]).eligible(criteria)
}

/// What [`best_adapter`] comes to: there is a best adapter exactly when
/// some adapter will do; it will do itself, none that will do is rated
/// higher, and none that comes before it is rated as high.
pub proof fn lemma_best_adapter(adapters: Seq<AdapterDescriptor>, criteria: Criteria)
    ensures
        match best_adapter(adapters, criteria) {
            Some(best) => is_best_choice(adapters, criteria, best),
            None => none_will_do(adapters, criteria),
        },
    decreases adapters.len(),
{
    if adapters.len() > 0 {
        let front = adapters.drop_last();
        lemma_best_adapter(front, criteria);
        assert forall|j: int| 0 <= j < front.len() implies front[j] == adapters[j] by {}
    }
}

/// Picks the adapter to use, by its place in `adapters`.
pub fn select_adapter(adapters: &Vec<AdapterDescriptor>, criteria: &SelectionCriteria) -> (selected:
    Option<usize>)
    requires
        criteria@.wf(),
    ensures
        match selected {
            Some(place) => {
                &&& best_adapter(adapters@, criteria@) == Some(place as int)
                &&& is_best_choice(adapters@, criteria@, place as int)
            },
            None => {
                &&& best_adapter(adapters@, criteria@) is None
                &&& none_will_do(adapters@, criteria@)
            },
        },
{
    proof {
        lemma_best_adapter(adapters@, criteria@);
    }
    let mut best: Option<(usize, u32)> = None;
    let mut index: usize = 0;
    assert(adapters@.take(0) =~= Seq::<AdapterDescriptor>::empty());
    while index < adapters.len()
        invariant
            0 <= index <= adapters@.len(),
            criteria@.wf(),
            match best {
                Some((place, rating)) => {
                    &&& best_adapter(adapters@.take(index as int), criteria@) == Some(place as int)
                    &&& place < index
                    &&& rating == adapters@[place as int].score(criteria@)
                },
                None => best_adapter(adapters@.take(index as int), criteria@) is None,
            },
        decreases adapters@.len() - index,
    {
        proof {
            assert(adapters@.take(index + 1).drop_last() =~= adapters@.take(index as int));
            assert(adapters@.take(index + 1).last() == adapters@[index as int]);
            match best {
                Some((place, _)) => {
                    assert(adapters@.take(index + 1)[place as int] == adapters@[place as int]);
                },
                None => {},
            }
        }
        let adapter = &adapters[index];
        if adapter.is_eligible(criteria) {
            let rating = adapter.rating(criteria);
            match best {
                None => {
                    best = Some((index, rating));
                },
                Some((_, best_rating)) => {
                    if rating > best_rating {
                        best = Some((index, rating));
                    }
                },
            }
        }
        index += 1;
    }
    assert(adapters@.take(index as int) =~= adapters@);
    match best {
        Some((place, _)) => Some(place),
        None => None,
    }
}

/// The adapter that the renderer uses, with what it needs to know of it.
#[derive(Debug)]
pub struct PhysicalDevice {
    /// The adapter's handle.
    pub inner: u64,
    pub layers: Vec<Layer>,
    pub extensions: Vec<Extension>,
    pub properties: PhysicalDeviceProperties,
    pub queue_family_properties: Vec<QueueFamilyProperties>,
    pub queue_family_indices: QueueFamiliesIndices,
    pub swap_chain_support_details: SwapChainSupportDetails,
}

impl PhysicalDevice {
    /// `self` is what the renderer keeps of the candidate `adapter`.
    pub open spec fn describes(&self, adapter: AdapterDescriptor) -> bool {
        &&& self.inner == adapter.handle
        &&& layer_views(self.layers@) == layers_of(adapter.layer_properties@)
        &&& extension_views(self.extensions@) == extensions_of(adapter.extension_properties@)
        &&& self.properties@ == properties_of(adapter.properties)
        &&& self.queue_family_properties@ == adapter.queue_family_properties@
        &&& self.queue_family_indices == QueueFamiliesIndices::of(adapter.queue_family_properties@)
        &&& self.swap_chain_support_details == adapter.swap_chain_support_details
    }

    /// The adapter has its queue families and the surface a format for it:
    /// what a presentation chain needs.
    pub open spec fn wf(&self) -> bool {
        &&& self.queue_family_indices.is_complete()
        &&& self.swap_chain_support_details.suitable()
    }

    /// Picks the adapter to use from the candidates. There is none where
    /// no candidate will do.
    pub fn pick(adapters: Vec<AdapterDescriptor>, config: &RendererConfig) -> (picked: Option<
        PhysicalDevice,
    >)
        requires
            config.wf(),
        ensures
            match picked {
                Some(device) => {
                    &&& best_adapter(adapters@, criteria_of(config)) matches Some(best)
                    &&& is_best_choice(adapters@, criteria_of(config), best)
                    &&& device.describes(adapters@[best])
                    &&& device.wf()
                },
                None => {
                    &&& best_adapter(adapters@, criteria_of(config)) is None
                    &&& none_will_do(adapters@, criteria_of(config))
                },
            },
    {
        let criteria = SelectionCriteria {
            required_extensions: &config.physical_device_required_extension_names,
            optional_extensions: &config.physical_device_optional_extension_names,
            ratings: &config.physical_device_optional_extension_ratings,
            minimum_api_version: config.api_version.u32_patchless(),
        };
        let mut adapters = adapters;
        let ghost candidates = adapters@;
        let place = match select_adapter(&adapters, &criteria) {
            Some(place) => place,
            None => {
                return None;
            },
        };
        proof {
            lemma_best_adapter(candidates, criteria@);
        }
        let chosen = adapters.remove(place);
        let extensions = Extension::convert_vec(&chosen.extension_properties);
        let layers = Layer::convert_vec(&chosen.layer_properties);
        let properties = PhysicalDeviceProperties::from_report(&chosen.properties);
        let queue_family_indices = QueueFamiliesIndices::extract(&chosen.queue_family_properties);
        Some(
            PhysicalDevice {
                inner: chosen.handle,
                layers,
                extensions,
                properties,
                queue_family_properties: chosen.queue_family_properties,
                queue_family_indices,
                swap_chain_support_details: chosen.swap_chain_support_details,
            },
        )
    }

    /// Rates a candidate: nothing where it will not do, else its rating.
    pub fn rate(adapter: &AdapterDescriptor, config: &RendererConfig) -> (rating: Option<u32>)
        requires
            config.wf(),
        ensures
            rating == (if adapter.eligible(criteria_of(config)) {
                Some(adapter.score(criteria_of(config)) as u32)
            } else {
                None
            }),
            rating matches Some(value) ==> value == adapter.score(criteria_of(config)),
    {
        let criteria = SelectionCriteria {
            required_extensions: &config.physical_device_required_extension_names,
            optional_extensions: &config.physical_device_optional_extension_names,
            ratings: &config.physical_device_optional_extension_ratings,
            minimum_api_version: config.api_version.u32_patchless(),
        };
        if !adapter.is_eligible(&criteria) {
            return None;
        }
        Some(adapter.rating(&criteria))
    }
}

/// An adapter without a queue family that draws, or without one that
/// presents to the surface, is never the one selected.
pub proof fn lemma_selected_has_queue_families(
    adapters: Seq<AdapterDescriptor>,
    criteria: Criteria,
    place: int,
)
    requires
        best_adapter(adapters, criteria) == Some(place),
    ensures
        0 <= place < adapters.len(),
        exists|i: int|
            0 <= i < adapters[place].queue_family_properties@.len()
                && #[trigger] adapters[place].queue_family_properties@[i].has_graphics(),
        exists|i: int|
            0 <= i < adapters[place].queue_family_properties@.len()
                && #[trigger] adapters[place].queue_family_properties@[i].present_support,
{
    lemma_best_adapter(adapters, criteria);
    let families = adapters[place].queue_family_properties@;
    lemma_first_true(graphics_flags(families));
    lemma_first_true(present_flags(families));
    let drawing = first_true(graphics_flags(families))->0;
    let presenting = first_true(present_flags(families))->0;
    assert(graphics_flags(families)[drawing]);
    assert(families[drawing].has_graphics());
    assert(present_flags(families)[presenting]);
    assert(families[presenting].present_support);
}

/// An adapter that lacks a required extension will not do, whatever else
/// it offers: it is turned away and never rated.
pub proof fn lemma_missing_extension_rejects(
    adapter: AdapterDescriptor,
    criteria: Criteria,
    missing: int,
)
    requires
        0 <= missing < criteria.required.len(),
        !adapter.offered_names().contains(criteria.required[missing]),
    ensures
        !adapter.eligible(criteria),
{
    lemma_first_missing(criteria.required, adapter.offered_names());
}

/// Of two adapters that will do and offer the same optional extensions,
/// the one of the discrete-GPU class is rated strictly higher and is the
/// one selected, whichever comes first.
pub proof fn lemma_discrete_preferred(
    discrete: AdapterDescriptor,
    other: AdapterDescriptor,
    criteria: Criteria,
)
    requires
        discrete.eligible(criteria),
        other.eligible(criteria),
        discrete.is_discrete(),
        !other.is_discrete(),
        forall|i: int|
            0 <= i < criteria.optional.len() ==> discrete.offered_names().contains(
                #[trigger] criteria.optional[i],
            ) == other.offered_names().contains(criteria.optional[i]),
    ensures
        discrete.score(criteria) > other.score(criteria),
        best_adapter(seq![discrete, other], criteria) == Some(0int),
        best_adapter(seq![other, discrete], criteria) == Some(1int),
{
    lemma_same_support_same_bonus(
        discrete.offered_names(),
        other.offered_names(),
        criteria.optional,
        criteria.ratings,
    );
    let first = seq![discrete, other];
    let second = seq![other, discrete];
    assert(first.drop_last() =~= seq![discrete]);
    assert(first.drop_last().drop_last() =~= Seq::<AdapterDescriptor>::empty());
    assert(second.drop_last() =~= seq![other]);
    assert(second.drop_last().drop_last() =~= Seq::<AdapterDescriptor>::empty());
    reveal_with_fuel(best_adapter, 3);
}

/// Adapters that offer the same optional extensions get the same from
/// them.
pub proof fn lemma_same_support_same_bonus(
    one: Seq<Seq<u8>>,
    other: Seq<Seq<u8>>,
    optional: Seq<Seq<u8>>,
    ratings: Seq<u32>,
)
    requires
        forall|i: int|
            0 <= i < optional.len() ==> one.contains(#[trigger] optional[i]) == other.contains(
                optional[i],
            ),
    ensures
        optional_bonus(one, optional, ratings) == optional_bonus(other, optional, ratings),
    decreases optional.len(),
{
    if optional.len() > 0 && ratings.len() > 0 {
        let front = optional.drop_last();
        assert forall|i: int| 0 <= i < front.len() implies one.contains(#[trigger] front[i])
            == other.contains(front[i]) by {
            assert(front[i] == optional[i]);
        }
        lemma_same_support_same_bonus(one, other, front, ratings.drop_last());
        assert(optional.last() == optional[optional.len() - 1]);
    }
}

} // verus!

//! What the renderer is set up with: its name and versions, and the layers
//! and extensions it needs or would like. The values are fixed when the
//! renderer starts and handed on by reference.

use crate::apiversion::ApiVersion;
use crate::cstringstuff::{contains_name, name_from_str, names_of};
use crate::names::{
    vk_ext_debug_utils, vk_ext_debug_utils_bytes, vk_khr_swapchain, vk_khr_swapchain_bytes,
    vk_layer_khronos_validation, vk_layer_khronos_validation_bytes,
};
use vstd::prelude::*;
use vstd::string::StringSliceAdditionalSpecFns;

verus! {

/// The bonus in an adapter's rating for being a discrete GPU.
pub const DISCRETE_GPU_BONUS: u32 = 1000;

/// The sum of a rating table.
pub open spec fn ratings_sum(ratings: Seq<u32>) -> int
    decreases ratings.len(),
{
    if ratings.len() == 0 {
        0
    } else {
        ratings_sum(ratings.drop_last()) + ratings.last()
    }
}

/// The sum of the first ratings of a table is no more than the sum of
/// all.
pub proof fn lemma_ratings_sum_take(ratings: Seq<u32>, count: int)
    requires
        0 <= count <= ratings.len(),
    ensures
        0 <= ratings_sum(ratings.take(count)) <= ratings_sum(ratings),
    decreases ratings.len(),
{
    if count == ratings.len() {
        assert(ratings.take(count) =~= ratings);
        lemma_ratings_sum_nonnegative(ratings);
    } else {
        lemma_ratings_sum_take(ratings.drop_last(), count);
        assert(ratings.drop_last().take(count) =~= ratings.take(count));
    }
}

/// A rating table sums to nothing below zero.
pub proof fn lemma_ratings_sum_nonnegative(ratings: Seq<u32>)
    ensures
        0 <= ratings_sum(ratings),
    decreases ratings.len(),
{
    if ratings.len() > 0 {
        lemma_ratings_sum_nonnegative(ratings.drop_last());
    }
}

/// Whether the highest rating that the table allows fits 32 bits.
pub fn ratings_fit(ratings: &Vec<u32>) -> (fit: bool)
    ensures
        fit == (DISCRETE_GPU_BONUS + ratings_sum(ratings@) <= u32::MAX),
{
    let mut highest: u64 = 1000;
    let mut i: usize = 0;
    assert(ratings@.take(0) =~= Seq::<u32>::empty());
    while i < ratings.len()
        invariant
            0 <= i <= ratings@.len(),
            highest == DISCRETE_GPU_BONUS + ratings_sum(ratings@.take(i as int)),
            highest <= u32::MAX,
        decreases ratings@.len() - i,
    {
        proof {
            assert(ratings@.take(i + 1).drop_last() =~= ratings@.take(i as int));
            assert(ratings@.take(i + 1).last() == ratings@[i as int]);
            lemma_ratings_sum_take(ratings@, i + 1);
        }
        highest = highest + ratings[i] as u64;
        if highest > 0xffff_ffff {
            return false;
        }
        i += 1;
    }
    assert(ratings@.take(i as int) =~= ratings@);
    true
}

/// The configuration of the renderer.
#[derive(Debug)]
pub struct RendererConfig {
    pub application_name: Vec<u8>,
    pub application_version: ApiVersion,
    pub engine_name: Vec<u8>,
    pub engine_version: ApiVersion,
    /// The lowest API version that will do, for the instance and for the
    /// adapter.
    pub api_version: ApiVersion,
    /// Whether the layers and extensions for debugging are asked for.
    pub debug: bool,
    pub instance_debug_layer_names: Vec<Vec<u8>>,
    pub instance_required_layer_names: Vec<Vec<u8>>,
    pub instance_debug_extension_names: Vec<Vec<u8>>,
    pub instance_required_extension_names: Vec<Vec<u8>>,
    pub instance_optional_extension_names: Vec<Vec<u8>>,
    pub physical_device_required_extension_names: Vec<Vec<u8>>,
    pub physical_device_optional_extension_names: Vec<Vec<u8>>,
    /// What each optional extension adds to the rating of an adapter that
    /// has it, in the order of their names.
    pub physical_device_optional_extension_ratings: Vec<u32>,
}

impl RendererConfig {
    /// Every optional extension has its rating, and the highest rating an
    /// adapter can reach fits 32 bits.
    pub open spec fn wf(&self) -> bool {
        &&& self.physical_device_optional_extension_ratings@.len()
            == self.physical_device_optional_extension_names@.len()
        &&& DISCRETE_GPU_BONUS + ratings_sum(self.physical_device_optional_extension_ratings@)
            <= u32::MAX
    }

    /// Whether every optional extension has its rating and the highest
    /// rating that an adapter can reach fits 32 bits.
    pub fn is_well_formed(&self) -> (sound: bool)
        ensures
            sound == self.wf(),
    {
        self.physical_device_optional_extension_ratings.len()
            == self.physical_device_optional_extension_names.len() && ratings_fit(
            &self.physical_device_optional_extension_ratings,
        )
    }

    /// An instance layer of this name is switched on where it is there.
    pub open spec fn wants_instance_layer(&self, name: Seq<u8>) -> bool {
        ||| self.debug && names_of(self.instance_debug_layer_names@).contains(name)
        ||| names_of(self.instance_required_layer_names@).contains(name)
    }

    /// An instance extension of this name is switched on where it is there.
    pub open spec fn wants_instance_extension(&self, name: Seq<u8>) -> bool {
        ||| names_of(self.instance_required_extension_names@).contains(name)
        ||| names_of(self.instance_optional_extension_names@).contains(name)
        ||| self.debug && names_of(self.instance_debug_extension_names@).contains(name)
    }

    /// A device extension of this name is switched on where it is there.
    pub open spec fn wants_device_extension(&self, name: Seq<u8>) -> bool {
        ||| names_of(self.physical_device_required_extension_names@).contains(name)
        ||| names_of(self.physical_device_optional_extension_names@).contains(name)
    }

    /// The configuration of the renderer as it ships: no layer and no
    /// instance extension is required, validation and debug-utils are asked
    /// for when debugging, and an adapter must offer the swapchain
    /// extension and Vulkan 1.2.
    pub fn new(debug: bool) -> (config: Self)
        ensures
            config.wf(),
            config.debug == debug,
            config.application_name@ == "OpenCubes".spec_bytes(),
            config.application_version == (ApiVersion { variant: 0, major: 0, minor: 0, patch: 0 }),
            config.engine_name@ == "OpenCubes".spec_bytes(),
            config.engine_version == (ApiVersion { variant: 0, major: 0, minor: 0, patch: 0 }),
            config.api_version == (ApiVersion { variant: 0, major: 1, minor: 2, patch: 0 }),
            names_of(config.instance_debug_layer_names@) == seq![
                vk_layer_khronos_validation_bytes(),
            ],
            config.instance_required_layer_names@.len() == 0,
            names_of(config.instance_debug_extension_names@) == seq![vk_ext_debug_utils_bytes()],
            config.instance_required_extension_names@.len() == 0,
            config.instance_optional_extension_names@.len() == 0,
            names_of(config.physical_device_required_extension_names@) == seq![
                vk_khr_swapchain_bytes(),
            ],
            config.physical_device_optional_extension_names@.len() == 0,
            config.physical_device_optional_extension_ratings@.len() == 0,
    {
        let mut instance_debug_layer_names: Vec<Vec<u8>> = Vec::new();
        instance_debug_layer_names.push(vk_layer_khronos_validation());
        let mut instance_debug_extension_names: Vec<Vec<u8>> = Vec::new();
        instance_debug_extension_names.push(vk_ext_debug_utils());
        let mut physical_device_required_extension_names: Vec<Vec<u8>> = Vec::new();
        physical_device_required_extension_names.push(vk_khr_swapchain());
        let physical_device_optional_extension_ratings: Vec<u32> = Vec::new();
        proof {
            assert(names_of(instance_debug_layer_names@) =~= seq![
                vk_layer_khronos_validation_bytes(),
            ]);
            assert(names_of(instance_debug_extension_names@) =~= seq![vk_ext_debug_utils_bytes()]);
            assert(names_of(physical_device_required_extension_names@) =~= seq![
                vk_khr_swapchain_bytes(),
            ]);
            assert(ratings_sum(physical_device_optional_extension_ratings@) == 0);
        }
        RendererConfig {
            application_name: name_from_str("OpenCubes"),
            application_version: ApiVersion::new(0, 0, 0, 0),
            engine_name: name_from_str("OpenCubes"),
            engine_version: ApiVersion::new(0, 0, 0, 0),
            api_version: ApiVersion::new(0, 1, 2, 0),
            debug,
            instance_debug_layer_names,
            instance_required_layer_names: Vec::new(),
            instance_debug_extension_names,
            instance_required_extension_names: Vec::new(),
            instance_optional_extension_names: Vec::new(),
            physical_device_required_extension_names,
            physical_device_optional_extension_names: Vec::new(),
            physical_device_optional_extension_ratings,
        }
    }

    /// Whether an instance layer of this name is to be switched on.
    pub fn is_instance_layer_wanted(&self, name: &Vec<u8>) -> (wanted: bool)
        ensures
            wanted == self.wants_instance_layer(name@),
    {
        let mut is_debug = false;
        if self.debug {
            is_debug = contains_name(&self.instance_debug_layer_names, name);
        }
        is_debug || contains_name(&self.instance_required_layer_names, name)
    }

    /// Whether an instance extension of this name is to be switched on.
    pub fn is_instance_extension_wanted(&self, name: &Vec<u8>) -> (wanted: bool)
        ensures
            wanted == self.wants_instance_extension(name@),
    {
        let mut is_debug = false;
        if self.debug {
            is_debug = contains_name(&self.instance_debug_extension_names, name);
        }
        contains_name(&self.instance_required_extension_names, name) || contains_name(
            &self.instance_optional_extension_names,
            name,
        ) || is_debug
    }

    /// Whether a device extension of this name is to be switched on.
    pub fn is_device_extension_wanted(&self, name: &Vec<u8>) -> (wanted: bool)
        ensures
            wanted == self.wants_device_extension(name@),
    {
        contains_name(&self.physical_device_required_extension_names, name) || contains_name(
            &self.physical_device_optional_extension_names,
            name,
        )
    }
}

} // verus!

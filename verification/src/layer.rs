//! Layers by name.

use crate::apiversion::{unpack_version, ApiVersion};
use crate::cstringstuff::{
    c_string_of, clone_name, first_missing, i8_slice_to_cstring, missing_flags, names_equal,
    names_of,
};
use crate::utils::{first_true, lemma_first_true};
use crate::vk::LayerProperties;
use vstd::prelude::*;

verus! {

/// A layer that an instance or an adapter offers.
#[derive(Debug)]
pub struct Layer {
    pub name: Vec<u8>,
    pub spec_version: ApiVersion,
    pub implementation_version: u32,
    pub description: Vec<u8>,
}

/// What a [`Layer`] stands for.
pub struct LayerView {
    pub name: Seq<u8>,
    pub spec_version: ApiVersion,
    pub implementation_version: u32,
    pub description: Seq<u8>,
}

impl View for Layer {
    type V = LayerView;

    open spec fn view(&self) -> LayerView {
        LayerView {
            name: self.name@,
            spec_version: self.spec_version,
            implementation_version: self.implementation_version,
            description: self.description@,
        }
    }
}

impl Clone for Layer {
    fn clone(&self) -> (copy: Self)
        ensures
            copy@ == self@,
    {
        Layer {
            name: clone_name(&self.name),
            spec_version: self.spec_version,
            implementation_version: self.implementation_version,
            description: clone_name(&self.description),
        }
    }
}

/// The layer that a report speaks of: name and description up to their
/// closing zeros, the version it was written for taken apart.
pub open spec fn layer_of(properties: LayerProperties) -> LayerView {
    LayerView {
        name: c_string_of(properties.layer_name@),
        spec_version: unpack_version(properties.spec_version),
        implementation_version: properties.implementation_version,
        description: c_string_of(properties.description@),
    }
}

/// The layers that a list of reports speaks of, in its order.
pub open spec fn layers_of(properties: Seq<LayerProperties>) -> Seq<LayerView> {
    properties.map_values(|report: LayerProperties| layer_of(report))
}

/// What a list of layers stands for.
pub open spec fn layer_views(layers: Seq<Layer>) -> Seq<LayerView> {
    layers.map_values(|layer: Layer| layer@)
}

/// The names of a list of layers, in its order.
pub open spec fn layer_names(layers: Seq<LayerView>) -> Seq<Seq<u8>> {
    layers.map_values(|layer: LayerView| layer.name)
}

impl Layer {
    /// Takes the layer out of the driver's report.
    pub fn from_properties(properties: &LayerProperties) -> (layer: Self)
        ensures
            layer@ == layer_of(*properties),
    {
        let name = i8_slice_to_cstring(properties.layer_name.as_slice());
        let description = i8_slice_to_cstring(properties.description.as_slice());
        let spec_version = ApiVersion::from(properties.spec_version);
        Layer {
            name,
            spec_version,
            implementation_version: properties.implementation_version,
            description,
        }
    }

    /// Takes the layers out of the driver's reports, in their order.
    pub fn convert_vec(properties: &Vec<LayerProperties>) -> (layers: Vec<Layer>)
        ensures
            layer_views(layers@) == layers_of(properties@),
    {
        let mut result: Vec<Layer> = Vec::new();
        let mut i: usize = 0;
        while i < properties.len()
            invariant
                0 <= i <= properties@.len(),
                result@.len() == i,
                forall|j: int| 0 <= j < i ==> (#[trigger] result@[j])@ == layer_of(properties@[j]),
            decreases properties@.len() - i,
        {
            result.push(Layer::from_properties(&properties[i]));
            i += 1;
        }
        assert(layer_views(result@) =~= layers_of(properties@));
        result
    }
}

/// Whether one of `layers` is called `name`.
pub fn has_layer_named(layers: &Vec<Layer>, name: &Vec<u8>) -> (found: bool)
    ensures
        found == layer_names(layer_views(layers@)).contains(name@),
{
    let ghost names = layer_names(layer_views(layers@));
    let mut i: usize = 0;
    while i < layers.len()
        invariant
            0 <= i <= layers@.len(),
            names == layer_names(layer_views(layers@)),
            forall|j: int| 0 <= j < i ==> names[j] != name@,
        decreases layers@.len() - i,
    {
        if names_equal(&layers[i].name, name) {
            assert(names[i as int] == name@);
            return true;
        }
        i += 1;
    }
    false
}

/// The first of `required` that none of `layers` is called.
pub fn first_missing_layer(required: &Vec<Vec<u8>>, layers: &Vec<Layer>) -> (missing: Option<Vec<u8>>)
    ensures
        match missing {
            Some(name) => Some(name@) == first_missing(
                names_of(required@),
                layer_names(layer_views(layers@)),
            ),
            None => first_missing(names_of(required@), layer_names(layer_views(layers@)))
                is None,
        },
{
    let ghost available = layer_names(layer_views(layers@));
    let ghost lacking = missing_flags(names_of(required@), available);
    let mut i: usize = 0;
    while i < required.len()
        invariant
            0 <= i <= required@.len(),
            available == layer_names(layer_views(layers@)),
            lacking == missing_flags(names_of(required@), available),
            forall|j: int| 0 <= j < i ==> !lacking[j],
        decreases required@.len() - i,
    {
        if !has_layer_named(layers, &required[i]) {
            proof {
                assert(lacking[i as int]);
                lemma_first_true(lacking);
                assert(first_true(lacking) == Some(i as int));
                assert(names_of(required@)[i as int] == required@[i as int]@);
            }
            return Some(clone_name(&required[i]));
        }
        assert(!lacking[i as int]);
        i += 1;
    }
    proof {
        lemma_first_true(lacking);
    }
    None
}

} // verus!

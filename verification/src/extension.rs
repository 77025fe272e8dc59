//! Extensions by name.

use crate::cstringstuff::{
    c_string_of, clone_name, first_missing, i8_slice_to_cstring, missing_flags, names_equal,
    names_of,
};
use crate::utils::{first_true, lemma_first_true};
use crate::vk::ExtensionProperties;
use vstd::prelude::*;

verus! {

/// An extension that an instance or an adapter offers.
#[derive(Debug)]
pub struct Extension {
    pub name: Vec<u8>,
    pub spec_version: Option<u32>,
}

/// What an [`Extension`] stands for.
pub struct ExtensionView {
    pub name: Seq<u8>,
    pub spec_version: Option<u32>,
}

impl View for Extension {
    type V = ExtensionView;

    open spec fn view(&self) -> ExtensionView {
        ExtensionView { name: self.name@, spec_version: self.spec_version }
    }
}

impl Clone for Extension {
    fn clone(&self) -> (copy: Self)
        ensures
            copy@ == self@,
    {
        Extension { name: clone_name(&self.name), spec_version: self.spec_version }
    }
}

/// The extension that a report speaks of: the name up to its closing zero,
/// and the revision.
pub open spec fn extension_of(properties: ExtensionProperties) -> ExtensionView {
    ExtensionView {
        name: c_string_of(properties.extension_name@),
        spec_version: Some(properties.spec_version),
    }
}

/// The extensions that a list of reports speaks of, in its order.
pub open spec fn extensions_of(properties: Seq<ExtensionProperties>) -> Seq<ExtensionView> {
    properties.map_values(|report: ExtensionProperties| extension_of(report))
}

/// What a list of extensions stands for.
pub open spec fn extension_views(extensions: Seq<Extension>) -> Seq<ExtensionView> {
    extensions.map_values(|extension: Extension| extension@)
}

/// The names of a list of extensions, in its order.
pub open spec fn extension_names(extensions: Seq<ExtensionView>) -> Seq<Seq<u8>> {
    extensions.map_values(|extension: ExtensionView| extension.name)
}

impl Extension {
    /// Takes the extension out of the driver's report.
    pub fn from_properties(properties: &ExtensionProperties) -> (extension: Self)
        ensures
            extension@ == extension_of(*properties),
    {
        let name = i8_slice_to_cstring(properties.extension_name.as_slice());
        Extension { name, spec_version: Some(properties.spec_version) }
    }

    /// Takes the extensions out of the driver's reports, in their order.
    pub fn convert_vec(properties: &Vec<ExtensionProperties>) -> (extensions: Vec<Extension>)
        ensures
            extension_views(extensions@) == extensions_of(properties@),
    {
        let mut result: Vec<Extension> = Vec::new();
        let mut i: usize = 0;
        while i < properties.len()
            invariant
                0 <= i <= properties@.len(),
                result@.len() == i,
                forall|j: int| 0 <= j < i ==> (#[trigger] result@[j])@ == extension_of(properties@[j]),
            decreases properties@.len() - i,
        {
            result.push(Extension::from_properties(&properties[i]));
            i += 1;
        }
        assert(extension_views(result@) =~= extensions_of(properties@));
        result
    }
}

/// Whether one of `extensions` is called `name`.
pub fn has_extension_named(extensions: &Vec<Extension>, name: &Vec<u8>) -> (found: bool)
    ensures
        found == extension_names(extension_views(extensions@)).contains(name@),
{
    let ghost names = extension_names(extension_views(extensions@));
    let mut i: usize = 0;
    while i < extensions.len()
        invariant
            0 <= i <= extensions@.len(),
            names == extension_names(extension_views(extensions@)),
            forall|j: int| 0 <= j < i ==> names[j] != name@,
        decreases extensions@.len() - i,
    {
        if names_equal(&extensions[i].name, name) {
            assert(names[i as int] == name@);
            return true;
        }
        i += 1;
    }
    false
}

/// The first of `required` that none of `extensions` is called.
pub fn first_missing_extension(required: &Vec<Vec<u8>>, extensions: &Vec<Extension>) -> (missing:
    Option<Vec<u8>>)
    ensures
        match missing {
            Some(name) => Some(name@) == first_missing(
                names_of(required@),
                extension_names(extension_views(extensions@)),
            ),
            None => first_missing(
                names_of(required@),
                extension_names(extension_views(extensions@)),
            ) is None,
        },
{
    let ghost available = extension_names(extension_views(extensions@));
    let ghost lacking = missing_flags(names_of(required@), available);
    let mut i: usize = 0;
    while i < required.len()
        invariant
            0 <= i <= required@.len(),
            available == extension_names(extension_views(extensions@)),
            lacking == missing_flags(names_of(required@), available),
            forall|j: int| 0 <= j < i ==> !lacking[j],
        decreases required@.len() - i,
    {
        if !has_extension_named(extensions, &required[i]) {
            proof {
                assert(lacking[i as int]);
                lemma_first_true(lacking);
                assert(first_true(lacking) == Some(i as int));
                assert(names_of(required@)[i as int] == required@[i as int]@);
            }
            return Some(clone_name(&required[i]));
        }
        assert(!lacking[i as int]);
        i += 1;
    }
    proof {
        lemma_first_true(lacking);
    }
    None
}

} // verus!

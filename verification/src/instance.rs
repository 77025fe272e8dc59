//! Setting up the instance: which version the loader speaks, which of its
//! layers and extensions are switched on, and what the instance is created
//! with.
//!
//! The caller asks the loader and hands the answers to [`Instance::new`],
//! which either says why the renderer cannot start or what to create.

use crate::apiversion::{unpack_version, ApiVersion};
use crate::constants::RendererConfig;
use crate::cstringstuff::{clone_name, first_missing, names_of};
use crate::debug::{listen_to_all, DebugMessenger, DebugMessengerCreateInfo};
use crate::extension::{
    extension_names, extension_views, extensions_of, first_missing_extension,
    has_extension_named, Extension, ExtensionView,
};
use crate::layer::{first_missing_layer, layer_names, layer_of, layer_views, Layer, LayerView};
use crate::names::{vk_ext_debug_utils, vk_ext_debug_utils_bytes};
use crate::vk::{ExtensionProperties, LayerProperties};
use vstd::prelude::*;

verus! {

/// A layer of the loader with the extensions that it brings.
#[derive(Debug)]
pub struct LayerSupport {
    pub properties: LayerProperties,
    pub extensions: Vec<ExtensionProperties>,
}

impl LayerSupport {
    /// Whether the layer that `properties` reports is wanted. Only of a
    /// wanted layer are the extensions read, so only a wanted layer needs
    /// to be asked for them.
    pub fn is_wanted(properties: &LayerProperties, config: &RendererConfig) -> (wanted: bool)
        ensures
            wanted == config.wants_instance_layer(layer_of(*properties).name),
    {
        let layer = Layer::from_properties(properties);
        config.is_instance_layer_wanted(&layer.name)
    }
}

/// Why no instance can be set up.
#[derive(Debug)]
pub enum InstanceError {
    ApiVersionTooLow { actual: ApiVersion, required: ApiVersion },
    RequiredLayerNotSupported(Vec<u8>),
    RequiredExtensionNotSupported(Vec<u8>),
}

/// What an [`InstanceError`] stands for.
pub enum InstanceErrorView {
    ApiVersionTooLow { actual: ApiVersion, required: ApiVersion },
    RequiredLayerNotSupported(Seq<u8>),
    RequiredExtensionNotSupported(Seq<u8>),
}

impl View for InstanceError {
    type V = InstanceErrorView;

    open spec fn view(&self) -> InstanceErrorView {
        match self {
            InstanceError::ApiVersionTooLow { actual, required } => {
                InstanceErrorView::ApiVersionTooLow { actual: *actual, required: *required }
            },
            InstanceError::RequiredLayerNotSupported(name) => {
                InstanceErrorView::RequiredLayerNotSupported(name@)
            },
            InstanceError::RequiredExtensionNotSupported(name) => {
                InstanceErrorView::RequiredExtensionNotSupported(name@)
            },
        }
    }
}

/// Who asks for the instance. Versions are packed numbers.
#[derive(Debug)]
pub struct ApplicationInfo {
    pub application_name: Vec<u8>,
    pub application_version: u32,
    pub engine_name: Vec<u8>,
    pub engine_version: u32,
    pub api_version: u32,
}

/// What the instance is created with.
#[derive(Debug)]
pub struct InstanceCreateInfo {
    pub application_info: ApplicationInfo,
    pub enabled_layer_names: Vec<Vec<u8>>,
    pub enabled_extension_names: Vec<Vec<u8>>,
    /// The messenger that watches the creation itself, where there is one.
    pub debug_messenger: Option<DebugMessengerCreateInfo>,
}

/// The instance as the renderer set it up.
#[derive(Debug)]
pub struct Instance {
    pub version: ApiVersion,
    pub layers: Vec<Layer>,
    pub extensions: Vec<Extension>,
    pub create_info: InstanceCreateInfo,
}

/// What an [`Instance`] stands for.
pub struct InstanceView {
    pub version: ApiVersion,
    pub layers: Seq<LayerView>,
    pub extensions: Seq<ExtensionView>,
    pub application_name: Seq<u8>,
    pub application_version: u32,
    pub engine_name: Seq<u8>,
    pub engine_version: u32,
    pub api_version: u32,
    pub enabled_layer_names: Seq<Seq<u8>>,
    pub enabled_extension_names: Seq<Seq<u8>>,
    pub debug_messenger: Option<DebugMessengerCreateInfo>,
}

impl View for Instance {
    type V = InstanceView;

    open spec fn view(&self) -> InstanceView {
        InstanceView {
            version: self.version,
            layers: layer_views(self.layers@),
            extensions: extension_views(self.extensions@),
            application_name: self.create_info.application_info.application_name@,
            application_version: self.create_info.application_info.application_version,
            engine_name: self.create_info.application_info.engine_name@,
            engine_version: self.create_info.application_info.engine_version,
            api_version: self.create_info.application_info.api_version,
            enabled_layer_names: names_of(self.create_info.enabled_layer_names@),
            enabled_extension_names: names_of(self.create_info.enabled_extension_names@),
            debug_messenger: self.create_info.debug_messenger,
        }
    }
}

/// The version that the loader speaks. A loader that cannot say speaks
/// Vulkan 1.0.
pub open spec fn loader_version(reported: Option<u32>) -> ApiVersion {
    match reported {
        Some(version) => unpack_version(version),
        None => ApiVersion { variant: 0, major: 1, minor: 0, patch: 0 },
    }
}

/// The layers of the loader that the configuration wants, in the order
/// that the loader lists them.
pub open spec fn wanted_layers(support: Seq<LayerSupport>, config: &RendererConfig) -> Seq<
    LayerView,
>
    decreases support.len(),
{
    if support.len() == 0 {
        Seq::empty()
    } else {
        let before = wanted_layers(support.drop_last(), config);
        let layer = layer_of(support.last().properties);
        if config.wants_instance_layer(layer.name) {
            before.push(layer)
        } else {
            before
        }
    }
}

/// The extensions that the wanted layers bring, layer after layer.
pub open spec fn layer_extensions(support: Seq<LayerSupport>, config: &RendererConfig) -> Seq<
    ExtensionView,
>
    decreases support.len(),
{
    if support.len() == 0 {
        Seq::empty()
    } else {
        let before = layer_extensions(support.drop_last(), config);
        let layer = layer_of(support.last().properties);
        if config.wants_instance_layer(layer.name) {
            before + extensions_of(support.last().extensions@)
        } else {
            before
        }
    }
}

/// Those of `offered` that the configuration wants, in their order.
pub open spec fn wanted_extensions(offered: Seq<ExtensionView>, config: &RendererConfig) -> Seq<
    ExtensionView,
>
    decreases offered.len(),
{
    if offered.len() == 0 {
        Seq::empty()
    } else {
        let before = wanted_extensions(offered.drop_last(), config);
        if config.wants_instance_extension(offered.last().name) {
            before.push(offered.last())
        } else {
            before
        }
    }
}

/// Goes through the layers of the loader and keeps those that are wanted,
/// and the extensions that they bring.
fn gather_layers(support: &Vec<LayerSupport>, config: &RendererConfig) -> (gathered: (
    Vec<Layer>,
    Vec<Extension>,
))
    ensures
        layer_views(gathered.0@) == wanted_layers(support@, config),
        extension_views(gathered.1@) == layer_extensions(support@, config),
{
    let mut layers: Vec<Layer> = Vec::new();
    let mut extensions: Vec<Extension> = Vec::new();
    let mut i: usize = 0;
    assert(layer_views(layers@) =~= wanted_layers(support@.take(0), config));
    assert(extension_views(extensions@) =~= layer_extensions(support@.take(0), config));
    while i < support.len()
        invariant
            0 <= i <= support@.len(),
            layer_views(layers@) == wanted_layers(support@.take(i as int), config),
            extension_views(extensions@) == layer_extensions(support@.take(i as int), config),
        decreases support@.len() - i,
    {
        let layer = Layer::from_properties(&support[i].properties);
        let ghost old_layers = layers@;
        let ghost old_extensions = extensions@;
        proof {
            assert(support@.take(i + 1).drop_last() =~= support@.take(i as int));
            assert(support@.take(i + 1).last() == support@[i as int]);
        }
        if config.is_instance_layer_wanted(&layer.name) {
            let mut brought = Extension::convert_vec(&support[i].extensions);
            let ghost brought_views = extension_views(brought@);
            layers.push(layer);
            extensions.append(&mut brought);
            proof {
                assert(layer_views(layers@) =~= layer_views(old_layers).push(layer@));
                assert(extension_views(extensions@) =~= extension_views(old_extensions)
                    + brought_views);
            }
        }
        i += 1;
    }
    assert(support@.take(i as int) =~= support@);
    (layers, extensions)
}

/// Keeps those of `offered` that the configuration wants.
fn keep_wanted_extensions(offered: &Vec<Extension>, config: &RendererConfig) -> (kept: Vec<
    Extension,
>)
    ensures
        extension_views(kept@) == wanted_extensions(extension_views(offered@), config),
{
    let mut kept: Vec<Extension> = Vec::new();
    let ghost all = extension_views(offered@);
    let mut i: usize = 0;
    assert(extension_views(kept@) =~= wanted_extensions(all.take(0), config));
    while i < offered.len()
        invariant
            0 <= i <= offered@.len(),
            all == extension_views(offered@),
            extension_views(kept@) == wanted_extensions(all.take(i as int), config),
        decreases offered@.len() - i,
    {
        let ghost old_kept = kept@;
        proof {
            assert(all.take(i + 1).drop_last() =~= all.take(i as int));
            assert(all.take(i + 1).last() == offered@[i as int]@);
        }
        if config.is_instance_extension_wanted(&offered[i].name) {
            let copy = offered[i].clone();
            kept.push(copy);
            assert(extension_views(kept@) =~= extension_views(old_kept).push(copy@));
        }
        i += 1;
    }
    assert(all.take(i as int) =~= all);
    kept
}

/// Copies of `names`, followed by copies of `more`.
fn collect_names(names: &Vec<Vec<u8>>, more: &Vec<Vec<u8>>) -> (all: Vec<Vec<u8>>)
    ensures
        names_of(all@) == names_of(names@) + names_of(more@),
{
    let mut all: Vec<Vec<u8>> = Vec::new();
    let mut i: usize = 0;
    while i < names.len()
        invariant
            0 <= i <= names@.len(),
            names_of(all@) == names_of(names@).take(i as int),
        decreases names@.len() - i,
    {
        let ghost before = all@;
        let copy = clone_name(&names[i]);
        all.push(copy);
        assert(names_of(all@) =~= names_of(before).push(copy@));
        assert(names_of(names@).take(i + 1) =~= names_of(names@).take(i as int).push(names@[i as int]@));
        i += 1;
    }
    let mut k: usize = 0;
    assert(names_of(names@).take(i as int) =~= names_of(names@));
    assert(names_of(all@) =~= names_of(names@) + names_of(more@).take(0));
    while k < more.len()
        invariant
            0 <= k <= more@.len(),
            names_of(all@) == names_of(names@) + names_of(more@).take(k as int),
        decreases more@.len() - k,
    {
        let ghost before = all@;
        let copy = clone_name(&more[k]);
        all.push(copy);
        assert(names_of(all@) =~= names_of(before).push(copy@));
        assert(names_of(more@).take(k + 1) =~= names_of(more@).take(k as int).push(more@[k as int]@));
        assert(names_of(all@) =~= names_of(names@) + names_of(more@).take(k + 1));
        k += 1;
    }
    assert(names_of(more@).take(k as int) =~= names_of(more@));
    all
}

/// The names of `layers`, copied.
fn copy_layer_names(layers: &Vec<Layer>) -> (names: Vec<Vec<u8>>)
    ensures
        names_of(names@) == layer_names(layer_views(layers@)),
{
    let mut names: Vec<Vec<u8>> = Vec::new();
    let mut i: usize = 0;
    while i < layers.len()
        invariant
            0 <= i <= layers@.len(),
            names@.len() == i,
            forall|j: int| 0 <= j < i ==> (#[trigger] names@[j])@ == layers@[j].name@,
        decreases layers@.len() - i,
    {
        names.push(clone_name(&layers[i].name));
        i += 1;
    }
    assert(names_of(names@) =~= layer_names(layer_views(layers@)));
    names
}

/// The names of `extensions`, copied.
fn copy_extension_names(extensions: &Vec<Extension>) -> (names: Vec<Vec<u8>>)
    ensures
        names_of(names@) == extension_names(extension_views(extensions@)),
{
    let mut names: Vec<Vec<u8>> = Vec::new();
    let mut i: usize = 0;
    while i < extensions.len()
        invariant
            0 <= i <= extensions@.len(),
            names@.len() == i,
            forall|j: int| 0 <= j < i ==> (#[trigger] names@[j])@ == extensions@[j].name@,
        decreases extensions@.len() - i,
    {
        names.push(clone_name(&extensions[i].name));
        i += 1;
    }
    assert(names_of(names@) =~= extension_names(extension_views(extensions@)));
    names
}

impl Instance {
    /// The extensions that are switched on: those that the loader offers
    /// by itself or through a wanted layer, as far as they are wanted.
    pub open spec fn planned_extensions(
        support: Seq<LayerSupport>,
        global_extensions: Seq<ExtensionProperties>,
        config: &RendererConfig,
    ) -> Seq<ExtensionView> {
        wanted_extensions(
            extensions_of(global_extensions) + layer_extensions(support, config),
            config,
        )
    }

    /// Why the renderer cannot start, if it cannot: the loader is too old,
    /// or a required layer is missing, or a required extension; the first
    /// of these that holds, and of the missing names the first.
    pub open spec fn refusal(
        reported_version: Option<u32>,
        support: Seq<LayerSupport>,
        global_extensions: Seq<ExtensionProperties>,
        config: &RendererConfig,
    ) -> Option<InstanceErrorView> {
        let version = loader_version(reported_version);
        let layers = wanted_layers(support, config);
        let extensions = Self::planned_extensions(support, global_extensions, config);
        if version.is_older_than(config.api_version) {
            Some(
                InstanceErrorView::ApiVersionTooLow {
                    actual: version,
                    required: config.api_version,
                },
            )
        } else {
            match first_missing(
                names_of(config.instance_required_layer_names@),
                layer_names(layers),
            ) {
                Some(name) => Some(InstanceErrorView::RequiredLayerNotSupported(name)),
                None => match first_missing(
                    names_of(config.instance_required_extension_names@),
                    extension_names(extensions),
                ) {
                    Some(name) => Some(InstanceErrorView::RequiredExtensionNotSupported(name)),
                    None => None,
                },
            }
        }
    }

    /// The instance that is set up where nothing stands against it. The
    /// window system's extensions are switched on after the renderer's
    /// own. The creation is watched by a debug messenger where debugging
    /// is on and the debug-utils extension is there.
    pub open spec fn planned(
        reported_version: Option<u32>,
        support: Seq<LayerSupport>,
        global_extensions: Seq<ExtensionProperties>,
        window_extensions: Seq<Vec<u8>>,
        config: &RendererConfig,
    ) -> InstanceView {
        let layers = wanted_layers(support, config);
        let extensions = Self::planned_extensions(support, global_extensions, config);
        InstanceView {
            version: loader_version(reported_version),
            layers,
            extensions,
            application_name: config.application_name@,
            application_version: config.application_version.packed(),
            engine_name: config.engine_name@,
            engine_version: config.engine_version.packed(),
            api_version: config.api_version.packed_patchless(),
            enabled_layer_names: layer_names(layers),
            enabled_extension_names: extension_names(extensions) + names_of(window_extensions),
            debug_messenger: if config.debug && extension_names(extensions).contains(
                vk_ext_debug_utils_bytes(),
            ) {
                Some(listen_to_all())
            } else {
                None
            },
        }
    }

    /// Sets up the instance from what the loader answered:
    /// `reported_version` is the version it speaks, if it can say;
    /// `layer_support` its layers, each with the extensions it brings;
    /// `global_extensions` the extensions it offers by itself;
    /// `window_extensions` the names of those that the window system needs.
    pub fn new(
        reported_version: Option<u32>,
        layer_support: &Vec<LayerSupport>,
        global_extensions: &Vec<ExtensionProperties>,
        window_extensions: &Vec<Vec<u8>>,
        config: &RendererConfig,
    ) -> (outcome: Result<Instance, InstanceError>)
        ensures
            match outcome {
                Ok(instance) => {
                    &&& Self::refusal(reported_version, layer_support@, global_extensions@, config)
                        is None
                    &&& instance@ == Self::planned(
                        reported_version,
                        layer_support@,
                        global_extensions@,
                        window_extensions@,
                        config,
                    )
                },
                Err(error) => Self::refusal(
                    reported_version,
                    layer_support@,
                    global_extensions@,
                    config,
                ) == Some(error@),
            },
    {
        let version = match reported_version {
            Some(version) => ApiVersion::from(version),
            None => ApiVersion::new(0, 1, 0, 0),
        };
        if version.older_than(&config.api_version) {
            return Err(
                InstanceError::ApiVersionTooLow { actual: version, required: config.api_version },
            );
        }
        let (layers, mut brought) = gather_layers(layer_support, config);
        let mut offered = Extension::convert_vec(global_extensions);
        let ghost offered_first = extension_views(offered@);
        let ghost brought_views = extension_views(brought@);
        offered.append(&mut brought);
        assert(extension_views(offered@) =~= offered_first + brought_views);
        let extensions = keep_wanted_extensions(&offered, config);

        match first_missing_layer(&config.instance_required_layer_names, &layers) {
            Some(name) => {
                return Err(InstanceError::RequiredLayerNotSupported(name));
            },
            None => {},
        }
        match first_missing_extension(&config.instance_required_extension_names, &extensions) {
            Some(name) => {
                return Err(InstanceError::RequiredExtensionNotSupported(name));
            },
            None => {},
        }
        let application_info = ApplicationInfo {
            application_name: clone_name(&config.application_name),
            application_version: config.application_version.u32(),
            engine_name: clone_name(&config.engine_name),
            engine_version: config.engine_version.u32(),
            api_version: config.api_version.u32_patchless(),
        };
        let enabled_layer_names = copy_layer_names(&layers);
        let own_extension_names = copy_extension_names(&extensions);
        let enabled_extension_names = collect_names(&own_extension_names, window_extensions);
        let debug_utils = vk_ext_debug_utils();
        let debug_messenger = if config.debug && has_extension_named(&extensions, &debug_utils) {
            Some(DebugMessenger::get_create_info())
        } else {
            None
        };
        let instance = Instance {
            version,
            layers,
            extensions,
            create_info: InstanceCreateInfo {
                application_info,
                enabled_layer_names,
                enabled_extension_names,
                debug_messenger,
            },
        };
        Ok(instance)
    }

    /// Whether the debug-utils extension is switched on.
    pub fn has_extension_debug_utils(&self) -> (has: bool)
        ensures
            has == extension_names(self@.extensions).contains(vk_ext_debug_utils_bytes()),
    {
        let name = vk_ext_debug_utils();
        self.has_extension(&name)
    }

    /// Whether the extension of this name is switched on.
    pub fn has_extension(&self, name: &Vec<u8>) -> (has: bool)
        ensures
            has == extension_names(self@.extensions).contains(name@),
    {
        has_extension_named(&self.extensions, name)
    }
}

/// The two lists report the same layers, and of every wanted layer the
/// same extensions. What layers that are not wanted bring is left open.
pub open spec fn same_where_wanted(
    one: Seq<LayerSupport>,
    other: Seq<LayerSupport>,
    config: &RendererConfig,
) -> bool {
    &&& one.len() == other.len()
    &&& forall|i: int|
        0 <= i < one.len() ==> layer_of((#[trigger] one[i]).properties) == layer_of(
            other[i].properties,
        )
    &&& forall|i: int|
        0 <= i < one.len() && config.wants_instance_layer(
            layer_of((#[trigger] one[i]).properties).name,
        ) ==> extensions_of(one[i].extensions@) == extensions_of(other[i].extensions@)
}

/// The extensions of a layer that is not wanted play no part: whatever
/// stands in their place, the same instance is set up or refused.
pub proof fn lemma_unwanted_layers_bring_nothing(
    reported_version: Option<u32>,
    one: Seq<LayerSupport>,
    other: Seq<LayerSupport>,
    global_extensions: Seq<ExtensionProperties>,
    window_extensions: Seq<Vec<u8>>,
    config: &RendererConfig,
)
    requires
        same_where_wanted(one, other, config),
    ensures
        wanted_layers(one, config) == wanted_layers(other, config),
        layer_extensions(one, config) == layer_extensions(other, config),
        Instance::refusal(reported_version, one, global_extensions, config) == Instance::refusal(
            reported_version,
            other,
            global_extensions,
            config,
        ),
        Instance::planned(reported_version, one, global_extensions, window_extensions, config)
            == Instance::planned(
            reported_version,
            other,
            global_extensions,
            window_extensions,
            config,
        ),
    decreases one.len(),
{
    if one.len() > 0 {
        let one_front = one.drop_last();
        let other_front = other.drop_last();
        assert(same_where_wanted(one_front, other_front, config)) by {
            assert forall|i: int| 0 <= i < one_front.len() implies layer_of(
                (#[trigger] one_front[i]).properties,
            ) == layer_of(other_front[i].properties) by {
                assert(one_front[i] == one[i] && other_front[i] == other[i]);
            }
            assert forall|i: int|
                0 <= i < one_front.len() && config.wants_instance_layer(
                    layer_of((#[trigger] one_front[i]).properties).name,
                ) implies extensions_of(one_front[i].extensions@) == extensions_of(
                other_front[i].extensions@,
            ) by {
                assert(one_front[i] == one[i] && other_front[i] == other[i]);
            }
        }
        lemma_unwanted_layers_bring_nothing(
            reported_version,
            one_front,
            other_front,
            global_extensions,
            window_extensions,
            config,
        );
        assert(one.last() == one[one.len() - 1]);
        assert(other.last() == other[one.len() - 1]);
    }
}

} // verus!

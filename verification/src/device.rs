//! The logical device: which queues it is created with and which of the
//! adapter's extensions are switched on.

use crate::constants::RendererConfig;
use crate::cstringstuff::names_of;
use crate::extension::{extension_names, extension_views, Extension, ExtensionView};
use crate::physical_device::PhysicalDevice;
use vstd::prelude::*;

verus! {

/// The queues to create in one family. Every queue is created with the
/// highest priority.
#[derive(PartialEq, Eq, Structural, Debug, Clone, Copy)]
pub struct DeviceQueueCreateInfo {
    pub queue_family_index: u32,
    pub queue_count: u32,
}

/// What the device is created with. No optional feature of the adapter is
/// switched on.
#[derive(Debug)]
pub struct DeviceCreateInfo {
    pub queue_create_infos: Vec<DeviceQueueCreateInfo>,
    pub enabled_extension_names: Vec<Vec<u8>>,
}

/// The logical device on the chosen adapter.
#[derive(Debug)]
pub struct Device {
    /// The device's handle, null until [`Device::attach`].
    pub inner: u64,
    pub physical_device: PhysicalDevice,
    pub enabled_extensions: Vec<Extension>,
    pub create_info: DeviceCreateInfo,
    pub graphics_queue: u64,
    pub present_queue: u64,
}

/// Those of `offered` that the configuration asks of an adapter, be it as
/// required or as optional; in their order.
pub open spec fn wanted_device_extensions(offered: Seq<ExtensionView>, config: &RendererConfig)
    -> Seq<ExtensionView>
    decreases offered.len(),
{
    if offered.len() == 0 {
        Seq::empty()
    } else {
        let before = wanted_device_extensions(offered.drop_last(), config);
        if config.wants_device_extension(offered.last().name) {
            before.push(offered.last())
        } else {
            before
        }
    }
}

/// One queue in each of `families`.
pub open spec fn one_queue_each(families: Seq<u32>) -> Seq<DeviceQueueCreateInfo> {
    families.map_values(
        |family: u32| DeviceQueueCreateInfo { queue_family_index: family, queue_count: 1 },
    )
}

impl Device {
    /// Lays down the device for the chosen adapter: one queue in each of
    /// its queue families that the renderer uses, and every extension
    /// switched on that the adapter offers and the configuration names.
    /// Nothing is created yet: the handles are null.
    pub fn new(physical_device: PhysicalDevice, config: &RendererConfig) -> (device: Self)
        ensures
            device.physical_device == physical_device,
            device.create_info.queue_create_infos@ == one_queue_each(
                physical_device.queue_family_indices.unique(),
            ),
            extension_views(device.enabled_extensions@) == wanted_device_extensions(
                extension_views(physical_device.extensions@),
                config,
            ),
            names_of(device.create_info.enabled_extension_names@) == extension_names(
                extension_views(device.enabled_extensions@),
            ),
            device.inner == 0,
            device.graphics_queue == 0,
            device.present_queue == 0,
    {
        let mut queue_create_infos: Vec<DeviceQueueCreateInfo> = Vec::new();
        let unique_queue_families = physical_device.queue_family_indices.get_unique_indices();
        let mut i: usize = 0;
        while i < unique_queue_families.len()
            invariant
                0 <= i <= unique_queue_families@.len(),
                queue_create_infos@ == one_queue_each(unique_queue_families@.take(i as int)),
            decreases unique_queue_families@.len() - i,
        {
            queue_create_infos.push(
                DeviceQueueCreateInfo {
                    queue_family_index: unique_queue_families[i],
                    queue_count: 1,
                },
            );
            i += 1;
            assert(queue_create_infos@ =~= one_queue_each(unique_queue_families@.take(i as int)));
        }
        assert(unique_queue_families@.take(i as int) =~= unique_queue_families@);

        let ghost offered = extension_views(physical_device.extensions@);
        let mut enabled_extensions: Vec<Extension> = Vec::new();
        let mut enabled_extension_names: Vec<Vec<u8>> = Vec::new();
        let mut k: usize = 0;
        assert(extension_views(enabled_extensions@) =~= wanted_device_extensions(
            offered.take(0),
            config,
        ));
        assert(names_of(enabled_extension_names@) =~= extension_names(
            extension_views(enabled_extensions@),
        ));
        while k < physical_device.extensions.len()
            invariant
                0 <= k <= physical_device.extensions@.len(),
                offered == extension_views(physical_device.extensions@),
                extension_views(enabled_extensions@) == wanted_device_extensions(
                    offered.take(k as int),
                    config,
                ),
                names_of(enabled_extension_names@) == extension_names(
                    extension_views(enabled_extensions@),
                ),
            decreases physical_device.extensions@.len() - k,
        {
            let ghost kept = enabled_extensions@;
            let ghost kept_names = enabled_extension_names@;
            proof {
                assert(offered.take(k + 1).drop_last() =~= offered.take(k as int));
                assert(offered.take(k + 1).last() == physical_device.extensions@[k as int]@);
            }
            if config.is_device_extension_wanted(&physical_device.extensions[k].name) {
                let copy = physical_device.extensions[k].clone();
                let name = crate::cstringstuff::clone_name(&copy.name);
                enabled_extensions.push(copy);
                enabled_extension_names.push(name);
                proof {
                    assert(extension_views(enabled_extensions@) =~= extension_views(kept).push(
                        copy@,
                    ));
                    assert(names_of(enabled_extension_names@) =~= names_of(kept_names).push(name@));
                    assert(names_of(enabled_extension_names@) =~= extension_names(
                        extension_views(enabled_extensions@),
                    ));
                }
            }
            k += 1;
        }
        assert(offered.take(k as int) =~= offered);
        Device {
            inner: 0,
            physical_device,
            enabled_extensions,
            create_info: DeviceCreateInfo { queue_create_infos, enabled_extension_names },
            graphics_queue: 0,
            present_queue: 0,
        }
    }

    /// Takes over the created device and the first queue of the graphics
    /// family and of the present family.
    pub fn attach(&mut self, inner: u64, graphics_queue: u64, present_queue: u64)
        ensures
            final(self).inner == inner,
            final(self).graphics_queue == graphics_queue,
            final(self).present_queue == present_queue,
            final(self).physical_device == old(self).physical_device,
            final(self).enabled_extensions == old(self).enabled_extensions,
            final(self).create_info == old(self).create_info,
    {
        self.inner = inner;
        self.graphics_queue = graphics_queue;
        self.present_queue = present_queue;
    }
}

} // verus!

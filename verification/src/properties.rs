//! The properties of an adapter in the form the renderer keeps them.

use crate::apiversion::{unpack_version, ApiVersion};
use vstd::prelude::*;

verus! {

/// The properties of an adapter: the version it speaks, its kind by raw
/// value, and its name.
#[derive(Debug)]
pub struct PhysicalDeviceProperties {
    pub api_version: ApiVersion,
    pub device_type: i32,
    pub name: Vec<u8>,
}

/// What a [`PhysicalDeviceProperties`] stands for.
pub struct PhysicalDevicePropertiesView {
    pub api_version: ApiVersion,
    pub device_type: i32,
    pub name: Seq<u8>,
}

impl View for PhysicalDeviceProperties {
    type V = PhysicalDevicePropertiesView;

    open spec fn view(&self) -> PhysicalDevicePropertiesView {
        PhysicalDevicePropertiesView {
            api_version: self.api_version,
            device_type: self.device_type,
            name: self.name@,
        }
    }
}

/// The bytes of a name buffer that are not zero, each reread as unsigned.
/// Unlike a zero-terminated name this goes on after a zero.
pub open spec fn nonzero_bytes(buffer: Seq<i8>) -> Seq<u8> {
    buffer.filter(|byte: i8| byte != 0).map_values(|byte: i8| byte as u8)
}

/// The properties that a report speaks of.
pub open spec fn properties_of(
    report: crate::vk::PhysicalDeviceProperties,
) -> PhysicalDevicePropertiesView {
    PhysicalDevicePropertiesView {
        api_version: unpack_version(report.api_version),
        device_type: report.device_type,
        name: nonzero_bytes(report.device_name@),
    }
}

impl PhysicalDeviceProperties {
    /// Takes the properties out of the driver's report.
    pub fn from_report(report: &crate::vk::PhysicalDeviceProperties) -> (properties: Self)
        ensures
            properties@ == properties_of(*report),
    {
        let mut name: Vec<u8> = Vec::new();
        let ghost nonzero = |byte: i8| byte != 0;
        let ghost unsigned = |byte: i8| byte as u8;
        let mut i: usize = 0;
        while i < report.device_name.len()
            invariant
                0 <= i <= report.device_name@.len(),
                nonzero == |byte: i8| byte != 0,
                unsigned == |byte: i8| byte as u8,
                name@ == report.device_name@.take(i as int).filter(nonzero).map_values(unsigned),
            decreases report.device_name@.len() - i,
        {
            let byte = report.device_name[i];
            proof {
                let before = report.device_name@.take(i as int);
                report.device_name@.lemma_take_succ_push(i as int);
                before.lemma_filter_push(byte, nonzero);
                before.filter(nonzero).lemma_push_map_commute(unsigned, byte);
            }
            if byte != 0 {
                name.push(byte as u8);
            }
            i += 1;
        }
        assert(report.device_name@.take(i as int) =~= report.device_name@);
        PhysicalDeviceProperties {
            api_version: ApiVersion::from(report.api_version),
            device_type: report.device_type,
            name,
        }
    }
}

} // verus!

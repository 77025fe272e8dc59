//! Packed Vulkan API version numbers.

use std::cmp::Ordering;
use vstd::prelude::*;

verus! {

/// The 32-bit packing of a version: three bits of variant, seven of major,
/// ten of minor and twelve of patch, from the top down. Fields that are too
/// wide spill into their upper neighbour, as the shifts do.
pub open spec fn pack_version(variant: u32, major: u32, minor: u32, patch: u32) -> u32 {
    (variant << 29u32) | (major << 22u32) | (minor << 12u32) | patch
}

/// `ash::vk::make_api_version` shifts each field to its place and ors them
/// together; it never fails.
pub assume_specification[ ash::vk::make_api_version ](
    variant: u32,
    major: u32,
    minor: u32,
    patch: u32,
) -> (version: u32)
    ensures
        version == pack_version(variant, major, minor, patch),
;

/// `ash::vk::api_version_variant` is the top three bits.
pub assume_specification[ ash::vk::api_version_variant ](version: u32) -> (variant: u32)
    ensures
        variant == version >> 29u32,
;

/// `ash::vk::api_version_major` is the seven bits below the variant.
pub assume_specification[ ash::vk::api_version_major ](version: u32) -> (major: u32)
    ensures
        major == (version >> 22u32) & 0x7fu32,
;

/// `ash::vk::api_version_minor` is the ten bits below the major number.
pub assume_specification[ ash::vk::api_version_minor ](version: u32) -> (minor: u32)
    ensures
        minor == (version >> 12u32) & 0x3ffu32,
;

/// `ash::vk::api_version_patch` is the low twelve bits.
pub assume_specification[ ash::vk::api_version_patch ](version: u32) -> (patch: u32)
    ensures
        patch == version & 0xfffu32,
;

/// A version number split into its four fields.
#[derive(PartialEq, Eq, Structural, Debug, Clone, Copy)]
pub struct ApiVersion {
    pub variant: u8,
    pub major: u8,
    pub minor: u8,
    pub patch: u16,
}

/// The fields of a packed number. The minor field has ten bits, of which
/// an [`ApiVersion`] keeps the low eight.
pub open spec fn unpack_version(version: u32) -> ApiVersion {
    ApiVersion {
        variant: (version >> 29u32) as u8,
        major: ((version >> 22u32) & 0x7fu32) as u8,
        minor: ((version >> 12u32) & 0xffu32) as u8,
        patch: (version & 0xfffu32) as u16,
    }
}

/// How two numbers compare.
pub open spec fn order_of(a: int, b: int) -> Ordering {
    if a < b {
        Ordering::Less
    } else if a > b {
        Ordering::Greater
    } else {
        Ordering::Equal
    }
}

/// The first of three comparisons that is not `Equal`, or `Equal`.
pub open spec fn first_unequal(first: Ordering, second: Ordering, third: Ordering) -> Ordering {
    if first != Ordering::Equal {
        first
    } else if second != Ordering::Equal {
        second
    } else {
        third
    }
}

impl ApiVersion {
    /// A version of the given fields.
    pub fn new(variant: u8, major: u8, minor: u8, patch: u16) -> (version: Self)
        ensures
            version == (ApiVersion { variant, major, minor, patch }),
    {
        ApiVersion { variant, major, minor, patch }
    }

    /// The packed number with the patch field cleared.
    pub fn u32_patchless(&self) -> (packed: u32)
        ensures
            packed == self.packed_patchless(),
    {
        ash::vk::make_api_version(self.variant as u32, self.major as u32, self.minor as u32, 0)
    }

    /// The packed number.
    pub fn u32(&self) -> (packed: u32)
        ensures
            packed == self.packed(),
    {
        ash::vk::make_api_version(
            self.variant as u32,
            self.major as u32,
            self.minor as u32,
            self.patch as u32,
        )
    }

    /// Major, minor and patch as numbers.
    pub open spec fn release_fields(self) -> (int, int, int) {
        (self.major as int, self.minor as int, self.patch as int)
    }

    /// The variant as a number.
    pub open spec fn variant_field(self) -> int {
        self.variant as int
    }

    /// The order of two releases: by major, then minor, then patch. The
    /// variant takes no part in it.
    pub open spec fn release_order(self, other: Self) -> Ordering {
        first_unequal(
            order_of(self.release_fields().0, other.release_fields().0),
            order_of(self.release_fields().1, other.release_fields().1),
            order_of(self.release_fields().2, other.release_fields().2),
        )
    }

    /// The order over all four fields, the variant first.
    pub open spec fn field_order(self, other: Self) -> Ordering {
        if self.variant != other.variant {
            order_of(self.variant_field(), other.variant_field())
        } else {
            self.release_order(other)
        }
    }

    /// The packed number.
    pub open spec fn packed(self) -> u32 {
        pack_version(self.variant as u32, self.major as u32, self.minor as u32, self.patch as u32)
    }

    /// The packed number with the patch field cleared.
    pub open spec fn packed_patchless(self) -> u32 {
        pack_version(self.variant as u32, self.major as u32, self.minor as u32, 0)
    }

    /// `self` comes before `other` in the order over all four fields.
    pub open spec fn is_older_than(self, other: Self) -> bool {
        self.field_order(other) == Ordering::Less
    }

    /// Compares two releases, leaving the variant out.
    pub fn cmp(&self, other: &Self) -> (order: Ordering)
        ensures
            order == self.release_order(*other),
    {
        if self.major > other.major {
            return Ordering::Greater;
        } else if self.major < other.major {
            return Ordering::Less;
        }
        if self.minor > other.minor {
            return Ordering::Greater;
        } else if self.minor < other.minor {
            return Ordering::Less;
        }
        if self.patch > other.patch {
            return Ordering::Greater;
        } else if self.patch < other.patch {
            return Ordering::Less;
        }
        Ordering::Equal
    }

    /// Whether `self` comes before `other`, the variant counting first.
    pub fn older_than(&self, other: &Self) -> (older: bool)
        ensures
            older == self.is_older_than(*other),
    {
        *self < *other
    }
}

impl PartialOrd for ApiVersion {
    fn partial_cmp(&self, other: &Self) -> (order: Option<Ordering>) {
        if self.variant < other.variant {
            Some(Ordering::Less)
        } else if self.variant > other.variant {
            Some(Ordering::Greater)
        } else {
            Some(self.cmp(other))
        }
    }
}

impl vstd::std_specs::cmp::PartialOrdSpecImpl for ApiVersion {
    open spec fn obeys_partial_cmp_spec() -> bool {
        true
    }

    open spec fn partial_cmp_spec(&self, other: &Self) -> Option<Ordering> {
        Some(self.field_order(*other))
    }
}

impl From<u32> for ApiVersion {
    fn from(version: u32) -> (unpacked: Self) {
        let variant: u32 = ash::vk::api_version_variant(version);
        let major: u32 = ash::vk::api_version_major(version);
        let minor: u32 = ash::vk::api_version_minor(version);
        let patch: u32 = ash::vk::api_version_patch(version);
        proof {
            assert((version >> 29u32) < 0x100u32) by (bit_vector);
            assert(((version >> 22u32) & 0x7fu32) < 0x100u32) by (bit_vector);
            assert((((version >> 12u32) & 0x3ffu32) as u8) == ((version >> 12u32) & 0xffu32) as u8)
                by (bit_vector);
            assert((version & 0xfffu32) < 0x10000u32) by (bit_vector);
        }
        ApiVersion {
            variant: variant as u8,
            major: major as u8,
            minor: #[verifier::truncate] (minor as u8),
            patch: patch as u16,
        }
    }
}

impl vstd::std_specs::convert::FromSpecImpl<u32> for ApiVersion {
    open spec fn obeys_from_spec() -> bool {
        true
    }

    open spec fn from_spec(version: u32) -> Self {
        unpack_version(version)
    }
}

impl From<ApiVersion> for u32 {
    fn from(version: ApiVersion) -> (packed: Self) {
        ash::vk::make_api_version(
            version.variant as u32,
            version.major as u32,
            version.minor as u32,
            version.patch as u32,
        )
    }
}

impl vstd::std_specs::convert::FromSpecImpl<ApiVersion> for u32 {
    open spec fn obeys_from_spec() -> bool {
        true
    }

    open spec fn from_spec(version: ApiVersion) -> Self {
        version.packed()
    }
}

} // verus!

//! Version tags that select compatibility behaviour when namespaces are minted.
use vstd::prelude::*;

verus! {

/// A release of the runtime's API, in release order.
///
/// `AllVersions` is the tag of a namespace whose provenance is unknown (one
/// derived from a finished qualified name): it matches a package namespace
/// of any version with the same URI.
#[derive(Clone, Copy, Debug, PartialEq, Eq, Structural)]
pub enum ApiVersion {
    AllVersions,
    Air1_0,
    Fp10_0,
    Air1_5,
    Air1_5_1,
    Fp10_0_32,
    Air1_5_2,
    Fp10_1,
    Air2_0,
    Air2_5,
    Fp10_2,
    Air2_6,
    Swf12,
    Air2_7,
    Swf13,
    VmInternal,
}

impl ApiVersion {
    /// Position of a tag in release order; `AllVersions` comes first.
    pub open spec fn rank(self) -> nat {
        match self {
            ApiVersion::AllVersions => 0,
            ApiVersion::Air1_0 => 1,
            ApiVersion::Fp10_0 => 2,
            ApiVersion::Air1_5 => 3,
            ApiVersion::Air1_5_1 => 4,
            ApiVersion::Fp10_0_32 => 5,
            ApiVersion::Air1_5_2 => 6,
            ApiVersion::Fp10_1 => 7,
            ApiVersion::Air2_0 => 8,
            ApiVersion::Air2_5 => 9,
            ApiVersion::Fp10_2 => 10,
            ApiVersion::Air2_6 => 11,
            ApiVersion::Swf12 => 12,
            ApiVersion::Air2_7 => 13,
            ApiVersion::Swf13 => 14,
            ApiVersion::VmInternal => 15,
        }
    }

    /// The position of this tag in release order.
    pub fn ordinal(&self) -> (r: u8)
        ensures
            r as nat == self.rank(),
    {
        match self {
            ApiVersion::AllVersions => 0,
            ApiVersion::Air1_0 => 1,
            ApiVersion::Fp10_0 => 2,
            ApiVersion::Air1_5 => 3,
            ApiVersion::Air1_5_1 => 4,
            ApiVersion::Fp10_0_32 => 5,
            ApiVersion::Air1_5_2 => 6,
            ApiVersion::Fp10_1 => 7,
            ApiVersion::Air2_0 => 8,
            ApiVersion::Air2_5 => 9,
            ApiVersion::Fp10_2 => 10,
            ApiVersion::Air2_6 => 11,
            ApiVersion::Swf12 => 12,
            ApiVersion::Air2_7 => 13,
            ApiVersion::Swf13 => 14,
            ApiVersion::VmInternal => 15,
        }
    }

    /// Whether this tag was released no later than `other`.
    pub fn is_at_most(&self, other: &ApiVersion) -> (r: bool)
        ensures
            r == (self.rank() <= other.rank()),
    {
        self.ordinal() <= other.ordinal()
    }

    /// Whether this is the tag that matches every version.
    pub fn is_all_versions(&self) -> (r: bool)
        ensures
            r == (*self == ApiVersion::AllVersions),
    {
        matches!(self, ApiVersion::AllVersions)
    }
}

} // verus!

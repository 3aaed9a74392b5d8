//! The state the qualified-name operations run against.
use vstd::prelude::*;
use crate::api_version::ApiVersion;
use crate::heap::QNameHeap;

verus! {

/// The heap of qualified-name objects and the root version tag of the
/// loaded program. The root version is configuration: no operation of this
/// library changes it.
pub struct Activation {
    pub heap: QNameHeap,
    pub root_api_version: ApiVersion,
}

impl Activation {
    /// An activation with an empty heap.
    pub fn new(root_api_version: ApiVersion) -> (r: Activation)
        ensures
            r.heap@.len() == 0,
            r.root_api_version == root_api_version,
    {
        Activation { heap: QNameHeap::new(), root_api_version }
    }
}

} // verus!

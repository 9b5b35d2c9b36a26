//! Distinguished device indices.

use vstd::prelude::*;

use crate::TrackedDeviceIndex;

verus! {

/// The index the runtime reports when no device answers a query
/// (`k_unTrackedDeviceIndexInvalid`).
pub const INVALID: TrackedDeviceIndex = 4294967295u32;

} // verus!

//! The codes that the runtime reports for device-property queries
//! (`ETrackedPropertyError` in the C API). A [`TrackedPropertyError`] carries
//! one of them.
//!
//! [`TrackedPropertyError`]: super::TrackedPropertyError

use vstd::prelude::*;

verus! {

/// The query succeeded.
pub const SUCCESS: u32 = 0u32;
/// The property holds a value of another type than the one asked for.
pub const WRONG_DATA_TYPE: u32 = 1u32;
/// The property does not apply to a device of this class.
pub const WRONG_DEVICE_CLASS: u32 = 2u32;
/// The buffer handed in is too small for the value.
pub const BUFFER_TOO_SMALL: u32 = 3u32;
/// The runtime does not know this property.
pub const UNKNOWN_PROPERTY: u32 = 4u32;
/// No device at this index.
pub const INVALID_DEVICE: u32 = 5u32;
/// The runtime's server could not be reached.
pub const COULD_NOT_CONTACT_SERVER: u32 = 6u32;
/// The device does not provide this property.
pub const VALUE_NOT_PROVIDED_BY_DEVICE: u32 = 7u32;
/// The string value is longer than the runtime allows.
pub const STRING_EXCEEDS_MAXIMUM_LENGTH: u32 = 8u32;
/// The value is not available yet.
pub const NOT_YET_AVAILABLE: u32 = 9u32;
/// The caller may not read this property.
pub const PERMISSION_DENIED: u32 = 10u32;
/// The operation is not valid for this property.
pub const INVALID_OPERATION: u32 = 11u32;

} // verus!

//! The `System` interface of the runtime: display configuration, tracking
//! data, controller state, events and device properties.
//!
//! Each function here decodes what the runtime answered to one query. The
//! calls themselves cross the runtime's C interface and are made by the
//! embedding application, which hands the raw answer to these functions.

use vstd::prelude::*;

use crate::tracked_device_index;
use crate::{
    controller_role_of_code, device_class_of_code, TrackedControllerRole, TrackedDeviceClass,
    TrackedDeviceIndex,
};

pub mod tracked_property_error;

use tracked_property_error::{
    BUFFER_TOO_SMALL, COULD_NOT_CONTACT_SERVER, INVALID_DEVICE, INVALID_OPERATION,
    NOT_YET_AVAILABLE, PERMISSION_DENIED, STRING_EXCEEDS_MAXIMUM_LENGTH, SUCCESS,
    UNKNOWN_PROPERTY, VALUE_NOT_PROVIDED_BY_DEVICE, WRONG_DATA_TYPE, WRONG_DEVICE_CLASS,
};

verus! {

/// An error code that the runtime reports for a device-property query
/// (`ETrackedPropertyError` in the C API).
#[derive(Clone, Copy, Debug, PartialEq, Eq, Structural)]
pub struct TrackedPropertyError(pub u32);

/// The name under which an error code is described: the name of the constant
/// in [`tracked_property_error`] that carries the code, or `UNKNOWN`.
pub open spec fn property_error_name(code: u32) -> Seq<char> {
    if code == SUCCESS {
        "SUCCESS"@
    } else if code == WRONG_DATA_TYPE {
        "WRONG_DATA_TYPE"@
    } else if code == WRONG_DEVICE_CLASS {
        "WRONG_DEVICE_CLASS"@
    } else if code == BUFFER_TOO_SMALL {
        "BUFFER_TOO_SMALL"@
    } else if code == UNKNOWN_PROPERTY {
        "UNKNOWN_PROPERTY"@
    } else if code == INVALID_DEVICE {
        "INVALID_DEVICE"@
    } else if code == COULD_NOT_CONTACT_SERVER {
        "COULD_NOT_CONTACT_SERVER"@
    } else if code == VALUE_NOT_PROVIDED_BY_DEVICE {
        "VALUE_NOT_PROVIDED_BY_DEVICE"@
    } else if code == STRING_EXCEEDS_MAXIMUM_LENGTH {
        "STRING_EXCEEDS_MAXIMUM_LENGTH"@
    } else if code == NOT_YET_AVAILABLE {
        "NOT_YET_AVAILABLE"@
    } else if code == PERMISSION_DENIED {
        "PERMISSION_DENIED"@
    } else if code == INVALID_OPERATION {
        "INVALID_OPERATION"@
    } else {
        "UNKNOWN"@
    }
}

impl TrackedPropertyError {
    /// The name of this error, as the constants of [`tracked_property_error`]
    /// spell it; `UNKNOWN` for a code that none of them carries.
    pub fn description(&self) -> (r: &'static str)
        ensures
            r@ == property_error_name(self.0),
    {
        match self.0 {
            SUCCESS => "SUCCESS",
            WRONG_DATA_TYPE => "WRONG_DATA_TYPE",
            WRONG_DEVICE_CLASS => "WRONG_DEVICE_CLASS",
            BUFFER_TOO_SMALL => "BUFFER_TOO_SMALL",
            UNKNOWN_PROPERTY => "UNKNOWN_PROPERTY",
            INVALID_DEVICE => "INVALID_DEVICE",
            COULD_NOT_CONTACT_SERVER => "COULD_NOT_CONTACT_SERVER",
            VALUE_NOT_PROVIDED_BY_DEVICE => "VALUE_NOT_PROVIDED_BY_DEVICE",
            STRING_EXCEEDS_MAXIMUM_LENGTH => "STRING_EXCEEDS_MAXIMUM_LENGTH",
            NOT_YET_AVAILABLE => "NOT_YET_AVAILABLE",
            PERMISSION_DENIED => "PERMISSION_DENIED",
            INVALID_OPERATION => "INVALID_OPERATION",
            _ => "UNKNOWN",
        }
    }
}

/// The device class named by the runtime's answer to `GetTrackedDeviceClass`:
/// the class whose code the answer is, and `Invalid` for any other code.
pub fn tracked_device_class(raw: u32) -> (class: TrackedDeviceClass)
    ensures
        class == device_class_of_code(raw),
{
    if raw == 1 {
        TrackedDeviceClass::HMD
    } else if raw == 2 {
        TrackedDeviceClass::Controller
    } else if raw == 3 {
        TrackedDeviceClass::GenericTracker
    } else if raw == 4 {
        TrackedDeviceClass::TrackingReference
    } else if raw == 5 {
        TrackedDeviceClass::DisplayRedirect
    } else {
        TrackedDeviceClass::Invalid
    }
}

/// The device index that the runtime reported for a controller role, or
/// `None` when it reported the invalid index (no device has that role).
pub fn tracked_device_index_for_controller_role(raw: TrackedDeviceIndex) -> (r: Option<
    TrackedDeviceIndex,
>)
    ensures
        r == (if raw == tracked_device_index::INVALID {
            None::<TrackedDeviceIndex>
        } else {
            Some(raw)
        }),
{
    if raw == tracked_device_index::INVALID {
        None
    } else {
        Some(raw)
    }
}

/// The controller role that the runtime reported for a device: the hand whose
/// code the answer is, and `None` for any other code.
pub fn get_controller_role_for_tracked_device_index(raw: u32) -> (r: Option<
    TrackedControllerRole,
>)
    ensures
        r == controller_role_of_code(raw),
{
    if raw == 1 {
        Some(TrackedControllerRole::LeftHand)
    } else if raw == 2 {
        Some(TrackedControllerRole::RightHand)
    } else {
        None
    }
}

/// A value that the runtime writes only when its success flag is set: the
/// value when the flag is set, `None` otherwise. This is how vsync timing,
/// distortion and polled events come back.
pub fn reported_value<T>(reported: bool, value: T) -> (r: Option<T>)
    ensures
        r == (if reported {
            Some(value)
        } else {
            None
        }),
{
    if reported {
        Some(value)
    } else {
        None
    }
}

/// The output device handle that the runtime reported, or `None` when it
/// reported the null handle.
pub fn vulkan_output_device(device: u64) -> (r: Option<u64>)
    ensures
        r == (if device == 0 {
            None::<u64>
        } else {
            Some(device)
        }),
{
    if device == 0 {
        None
    } else {
        Some(device)
    }
}

/// The result of a property query that answered `value` with the error code
/// `error`: the value when the code is `SUCCESS`, the error otherwise.
pub fn property_result<T>(value: T, error: u32) -> (r: Result<T, TrackedPropertyError>)
    ensures
        error == SUCCESS ==> r == Ok::<T, TrackedPropertyError>(value),
        error != SUCCESS ==> r == Err::<T, TrackedPropertyError>(TrackedPropertyError(error)),
{
    if error == SUCCESS {
        Ok(value)
    } else {
        Err(TrackedPropertyError(error))
    }
}

/// The buffer for a string property whose length query answered `len` bytes
/// with the error code `error`: a zeroed buffer of `len` bytes for the runtime
/// to fill, or, when the runtime reported no bytes, the error it reported.
pub fn string_property_storage(len: u32, error: u32) -> (r: Result<Vec<u8>, TrackedPropertyError>)
    ensures
        match r {
            Ok(storage) => len != 0 && storage@ == Seq::new(len as nat, |_i: int| 0u8),
            Err(e) => len == 0 && e == TrackedPropertyError(error),
        },
{
    if len == 0 {
        return Err(TrackedPropertyError(error));
    }
    let n = len as usize;
    let mut storage: Vec<u8> = Vec::new();
    while storage.len() < n
        invariant
            n == len,
            storage.len() <= n,
            storage@ == Seq::new(storage.len() as nat, |_i: int| 0u8),
        decreases n - storage.len(),
    {
        storage.push(0u8);
    }
    Ok(storage)
}

/// Distinct error codes that the constants of [`tracked_property_error`] name
/// are described by distinct names, and none of them is described as
/// `UNKNOWN`.
pub proof fn lemma_property_error_names_distinct(a: u32, b: u32)
    requires
        a <= INVALID_OPERATION,
        a != b,
    ensures
        property_error_name(a) != property_error_name(b),
        property_error_name(a) != "UNKNOWN"@,
{
    // The names differ in their length or in their first letter.
    reveal_strlit("SUCCESS");
    assert("SUCCESS"@.len() == 7 && "SUCCESS"@[0] == 'S');
    reveal_strlit("WRONG_DATA_TYPE");
    assert("WRONG_DATA_TYPE"@.len() == 15 && "WRONG_DATA_TYPE"@[0] == 'W');
    reveal_strlit("WRONG_DEVICE_CLASS");
    assert("WRONG_DEVICE_CLASS"@.len() == 18 && "WRONG_DEVICE_CLASS"@[0] == 'W');
    reveal_strlit("BUFFER_TOO_SMALL");
    assert("BUFFER_TOO_SMALL"@.len() == 16 && "BUFFER_TOO_SMALL"@[0] == 'B');
    reveal_strlit("UNKNOWN_PROPERTY");
    assert("UNKNOWN_PROPERTY"@.len() == 16 && "UNKNOWN_PROPERTY"@[0] == 'U');
    reveal_strlit("INVALID_DEVICE");
    assert("INVALID_DEVICE"@.len() == 14 && "INVALID_DEVICE"@[0] == 'I');
    reveal_strlit("COULD_NOT_CONTACT_SERVER");
    assert("COULD_NOT_CONTACT_SERVER"@.len() == 24 && "COULD_NOT_CONTACT_SERVER"@[0] == 'C');
    reveal_strlit("VALUE_NOT_PROVIDED_BY_DEVICE");
    assert("VALUE_NOT_PROVIDED_BY_DEVICE"@.len() == 28 && "VALUE_NOT_PROVIDED_BY_DEVICE"@[0] == 'V');
    reveal_strlit("STRING_EXCEEDS_MAXIMUM_LENGTH");
    assert("STRING_EXCEEDS_MAXIMUM_LENGTH"@.len() == 29 && "STRING_EXCEEDS_MAXIMUM_LENGTH"@[0] == 'S');
    reveal_strlit("NOT_YET_AVAILABLE");
    assert("NOT_YET_AVAILABLE"@.len() == 17 && "NOT_YET_AVAILABLE"@[0] == 'N');
    reveal_strlit("PERMISSION_DENIED");
    assert("PERMISSION_DENIED"@.len() == 17 && "PERMISSION_DENIED"@[0] == 'P');
    reveal_strlit("INVALID_OPERATION");
    assert("INVALID_OPERATION"@.len() == 17 && "INVALID_OPERATION"@[0] == 'I');
    reveal_strlit("UNKNOWN");
    assert("UNKNOWN"@.len() == 7 && "UNKNOWN"@[0] == 'U');
}

} // verus!

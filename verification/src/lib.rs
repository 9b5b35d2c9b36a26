//! Typed access to the display, tracking and device-property queries of an
//! OpenVR runtime.
//!
//! The runtime answers every query through raw C values: enumeration codes,
//! sentinel indices, success flags and error codes. This crate decodes those
//! answers into Rust types, and states each decoding as a contract.

use vstd::prelude::*;

pub mod system;
pub mod tracked_device_index;

pub use system::TrackedPropertyError;

verus! {

/// Index of a tracked device, as the runtime hands it out.
pub type TrackedDeviceIndex = u32;

/// Code of a tracked device property (`ETrackedDeviceProperty` in the C API).
pub type TrackedDeviceProperty = u32;

/// One of the two eyes of a head-mounted display.
#[derive(Clone, Copy, Debug, PartialEq, Eq, Structural)]
pub enum Eye {
    Left,
    Right,
}

/// The code of an eye in the C API (`EVREye`).
pub open spec fn eye_code(eye: Eye) -> u32 {
    match eye {
        Eye::Left => 0,
        Eye::Right => 1,
    }
}

impl Eye {
    /// The code that names this eye to the runtime.
    pub fn to_raw(self) -> (r: u32)
        ensures
            r == eye_code(self),
    {
        match self {
            Eye::Left => 0,
            Eye::Right => 1,
        }
    }
}

/// The coordinate system in which poses are reported.
#[derive(Clone, Copy, Debug, PartialEq, Eq, Structural)]
pub enum TrackingUniverseOrigin {
    /// Poses relative to the seated zero pose.
    Seated,
    /// Poses relative to the chaperone soft bounds.
    Standing,
    /// Poses in the driver's own hardware coordinate system.
    RawAndUncalibrated,
}

/// The code of a tracking universe origin in the C API (`ETrackingUniverseOrigin`).
pub open spec fn origin_code(origin: TrackingUniverseOrigin) -> u32 {
    match origin {
        TrackingUniverseOrigin::Seated => 0,
        TrackingUniverseOrigin::Standing => 1,
        TrackingUniverseOrigin::RawAndUncalibrated => 2,
    }
}

impl TrackingUniverseOrigin {
    /// The code that names this origin to the runtime.
    pub fn to_raw(self) -> (r: u32)
        ensures
            r == origin_code(self),
    {
        match self {
            TrackingUniverseOrigin::Seated => 0,
            TrackingUniverseOrigin::Standing => 1,
            TrackingUniverseOrigin::RawAndUncalibrated => 2,
        }
    }
}

/// The kind of a tracked device.
#[derive(Clone, Copy, Debug, PartialEq, Eq, Structural)]
pub enum TrackedDeviceClass {
    /// No device at this index, or a kind this crate does not know.
    Invalid,
    /// A head-mounted display.
    HMD,
    /// A tracked controller.
    Controller,
    /// A generic tracker, such as a puck.
    GenericTracker,
    /// A camera or base station that serves as a tracking reference.
    TrackingReference,
    /// An accessory that takes over the display.
    DisplayRedirect,
}

/// The code of a device class in the C API (`ETrackedDeviceClass`).
pub open spec fn device_class_code(class: TrackedDeviceClass) -> u32 {
    match class {
        TrackedDeviceClass::Invalid => 0,
        TrackedDeviceClass::HMD => 1,
        TrackedDeviceClass::Controller => 2,
        TrackedDeviceClass::GenericTracker => 3,
        TrackedDeviceClass::TrackingReference => 4,
        TrackedDeviceClass::DisplayRedirect => 5,
    }
}

/// The class that a raw device-class code stands for: the class whose code it
/// is, and `Invalid` for every code that names no class.
pub open spec fn device_class_of_code(raw: u32) -> TrackedDeviceClass {
    if raw == 1 {
        TrackedDeviceClass::HMD
    } else if raw == 2 {
        TrackedDeviceClass::Controller
    } else if raw == 3 {
        TrackedDeviceClass::GenericTracker
    } else if raw == 4 {
        TrackedDeviceClass::TrackingReference
    } else if raw == 5 {
        TrackedDeviceClass::DisplayRedirect
    } else {
        TrackedDeviceClass::Invalid
    }
}

/// The role a controller plays.
#[derive(Clone, Copy, Debug, PartialEq, Eq, Structural)]
pub enum TrackedControllerRole {
    /// The controller held in the left hand.
    LeftHand,
    /// The controller held in the right hand.
    RightHand,
}

/// The code of a controller role in the C API (`ETrackedControllerRole`).
pub open spec fn controller_role_code(role: TrackedControllerRole) -> u32 {
    match role {
        TrackedControllerRole::LeftHand => 1,
        TrackedControllerRole::RightHand => 2,
    }
}

/// The role that a raw controller-role code stands for, if it is one of the
/// hands.
pub open spec fn controller_role_of_code(raw: u32) -> Option<TrackedControllerRole> {
    if raw == 1 {
        Some(TrackedControllerRole::LeftHand)
    } else if raw == 2 {
        Some(TrackedControllerRole::RightHand)
    } else {
        None
    }
}

impl TrackedControllerRole {
    /// The code that names this role to the runtime.
    pub fn to_raw(self) -> (r: u32)
        ensures
            r == controller_role_code(self),
    {
        match self {
            TrackedControllerRole::LeftHand => 1,
            TrackedControllerRole::RightHand => 2,
        }
    }
}

/// Decoding a device-class code and naming a class by its code agree: a code
/// decodes to a class other than `Invalid` exactly when it is that class's
/// code, and every class is decoded from its own code.
pub proof fn lemma_device_class_codes(raw: u32, class: TrackedDeviceClass)
    ensures
        device_class_of_code(device_class_code(class)) == class,
        class != TrackedDeviceClass::Invalid ==> (device_class_of_code(raw) == class
            <==> device_class_code(class) == raw),
{
}

/// Decoding a controller-role code is the inverse of naming a role by its
/// code: a code decodes to a role exactly when it is that role's code.
pub proof fn lemma_controller_role_codes(raw: u32, role: TrackedControllerRole)
    ensures
        controller_role_of_code(raw) == Some(role) <==> controller_role_code(role) == raw,
{
}

} // verus!

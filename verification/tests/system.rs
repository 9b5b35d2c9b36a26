use openvr::system::tracked_property_error::{
    BUFFER_TOO_SMALL, COULD_NOT_CONTACT_SERVER, INVALID_DEVICE, INVALID_OPERATION,
    NOT_YET_AVAILABLE, PERMISSION_DENIED, STRING_EXCEEDS_MAXIMUM_LENGTH, SUCCESS,
    UNKNOWN_PROPERTY, VALUE_NOT_PROVIDED_BY_DEVICE, WRONG_DATA_TYPE, WRONG_DEVICE_CLASS,
};
use openvr::system::{
    get_controller_role_for_tracked_device_index, property_result, reported_value,
    string_property_storage, tracked_device_class, tracked_device_index_for_controller_role,
    vulkan_output_device,
};
use openvr::tracked_device_index;
use openvr::{
    Eye, TrackedControllerRole, TrackedDeviceClass, TrackedPropertyError, TrackingUniverseOrigin,
};

#[test]
fn device_class_codes_decode_to_their_classes() {
    assert_eq!(tracked_device_class(0), TrackedDeviceClass::Invalid);
    assert_eq!(tracked_device_class(1), TrackedDeviceClass::HMD);
    assert_eq!(tracked_device_class(2), TrackedDeviceClass::Controller);
    assert_eq!(tracked_device_class(3), TrackedDeviceClass::GenericTracker);
    assert_eq!(tracked_device_class(4), TrackedDeviceClass::TrackingReference);
    assert_eq!(tracked_device_class(5), TrackedDeviceClass::DisplayRedirect);
}

#[test]
fn unknown_device_class_codes_decode_to_invalid() {
    assert_eq!(tracked_device_class(6), TrackedDeviceClass::Invalid);
    assert_eq!(tracked_device_class(42), TrackedDeviceClass::Invalid);
    assert_eq!(tracked_device_class(u32::MAX), TrackedDeviceClass::Invalid);
}

#[test]
fn controller_role_codes_decode_to_hands() {
    assert_eq!(
        get_controller_role_for_tracked_device_index(1),
        Some(TrackedControllerRole::LeftHand)
    );
    assert_eq!(
        get_controller_role_for_tracked_device_index(2),
        Some(TrackedControllerRole::RightHand)
    );
}

#[test]
fn other_controller_role_codes_decode_to_none() {
    assert_eq!(get_controller_role_for_tracked_device_index(0), None);
    assert_eq!(get_controller_role_for_tracked_device_index(3), None);
    assert_eq!(get_controller_role_for_tracked_device_index(5), None);
    assert_eq!(get_controller_role_for_tracked_device_index(u32::MAX), None);
}

#[test]
fn controller_role_round_trips_through_its_code() {
    for role in [TrackedControllerRole::LeftHand, TrackedControllerRole::RightHand] {
        assert_eq!(get_controller_role_for_tracked_device_index(role.to_raw()), Some(role));
    }
    assert_eq!(TrackedControllerRole::LeftHand.to_raw(), 1);
    assert_eq!(TrackedControllerRole::RightHand.to_raw(), 2);
}

#[test]
fn eye_and_origin_codes() {
    assert_eq!(Eye::Left.to_raw(), 0);
    assert_eq!(Eye::Right.to_raw(), 1);
    assert_eq!(TrackingUniverseOrigin::Seated.to_raw(), 0);
    assert_eq!(TrackingUniverseOrigin::Standing.to_raw(), 1);
    assert_eq!(TrackingUniverseOrigin::RawAndUncalibrated.to_raw(), 2);
}

#[test]
fn invalid_index_means_no_device_for_role() {
    assert_eq!(tracked_device_index::INVALID, u32::MAX);
    assert_eq!(tracked_device_index_for_controller_role(tracked_device_index::INVALID), None);
    assert_eq!(tracked_device_index_for_controller_role(0), Some(0));
    assert_eq!(tracked_device_index_for_controller_role(3), Some(3));
    assert_eq!(tracked_device_index_for_controller_role(u32::MAX - 1), Some(u32::MAX - 1));
}

#[test]
fn reported_value_follows_the_flag() {
    assert_eq!(reported_value(true, (7u64, 9u32)), Some((7u64, 9u32)));
    assert_eq!(reported_value(false, (7u64, 9u32)), None);
    assert_eq!(reported_value(true, 0.25f32), Some(0.25f32));
    assert_eq!(reported_value(false, 0.25f32), None);
}

#[test]
fn null_output_device_is_none() {
    assert_eq!(vulkan_output_device(0), None);
    assert_eq!(vulkan_output_device(0x1234), Some(0x1234));
    assert_eq!(vulkan_output_device(u64::MAX), Some(u64::MAX));
}

#[test]
fn property_result_is_ok_on_success() {
    assert_eq!(property_result(true, SUCCESS), Ok(true));
    assert_eq!(property_result(-3i32, SUCCESS), Ok(-3i32));
    assert_eq!(property_result(1.5f32, SUCCESS), Ok(1.5f32));
    assert_eq!(property_result([[0.5f32; 4]; 3], SUCCESS), Ok([[0.5f32; 4]; 3]));
}

#[test]
fn property_result_carries_every_error_code() {
    for code in [
        WRONG_DATA_TYPE,
        WRONG_DEVICE_CLASS,
        BUFFER_TOO_SMALL,
        UNKNOWN_PROPERTY,
        INVALID_DEVICE,
        COULD_NOT_CONTACT_SERVER,
        VALUE_NOT_PROVIDED_BY_DEVICE,
        STRING_EXCEEDS_MAXIMUM_LENGTH,
        NOT_YET_AVAILABLE,
        PERMISSION_DENIED,
        INVALID_OPERATION,
        12,
        999,
    ] {
        assert_eq!(property_result(17u64, code), Err(TrackedPropertyError(code)));
    }
}

#[test]
fn string_storage_is_a_zeroed_buffer_of_the_reported_length() {
    assert_eq!(string_property_storage(5, SUCCESS), Ok(vec![0u8; 5]));
    assert_eq!(string_property_storage(1, SUCCESS), Ok(vec![0u8]));
    // The length decides, whatever code came with it.
    assert_eq!(string_property_storage(4, BUFFER_TOO_SMALL), Ok(vec![0u8; 4]));
}

#[test]
fn string_storage_of_no_bytes_is_the_reported_error() {
    assert_eq!(
        string_property_storage(0, UNKNOWN_PROPERTY),
        Err(TrackedPropertyError(UNKNOWN_PROPERTY))
    );
    assert_eq!(
        string_property_storage(0, INVALID_DEVICE),
        Err(TrackedPropertyError(INVALID_DEVICE))
    );
    assert_eq!(string_property_storage(0, SUCCESS), Err(TrackedPropertyError(SUCCESS)));
}

#[test]
fn error_descriptions_name_their_constants() {
    let expected = [
        (SUCCESS, "SUCCESS"),
        (WRONG_DATA_TYPE, "WRONG_DATA_TYPE"),
        (WRONG_DEVICE_CLASS, "WRONG_DEVICE_CLASS"),
        (BUFFER_TOO_SMALL, "BUFFER_TOO_SMALL"),
        (UNKNOWN_PROPERTY, "UNKNOWN_PROPERTY"),
        (INVALID_DEVICE, "INVALID_DEVICE"),
        (COULD_NOT_CONTACT_SERVER, "COULD_NOT_CONTACT_SERVER"),
        (VALUE_NOT_PROVIDED_BY_DEVICE, "VALUE_NOT_PROVIDED_BY_DEVICE"),
        (STRING_EXCEEDS_MAXIMUM_LENGTH, "STRING_EXCEEDS_MAXIMUM_LENGTH"),
        (NOT_YET_AVAILABLE, "NOT_YET_AVAILABLE"),
        (PERMISSION_DENIED, "PERMISSION_DENIED"),
        (INVALID_OPERATION, "INVALID_OPERATION"),
    ];
    for (code, name) in expected {
        assert_eq!(TrackedPropertyError(code).description(), name);
    }
}

#[test]
fn unnamed_error_codes_are_unknown() {
    assert_eq!(TrackedPropertyError(12).description(), "UNKNOWN");
    assert_eq!(TrackedPropertyError(15).description(), "UNKNOWN");
    assert_eq!(TrackedPropertyError(u32::MAX).description(), "UNKNOWN");
}

#[test]
fn named_error_descriptions_are_distinct() {
    let mut names: Vec<&str> = (SUCCESS..=INVALID_OPERATION)
        .map(|code| TrackedPropertyError(code).description())
        .collect();
    names.push(TrackedPropertyError(INVALID_OPERATION + 1).description());
    let count = names.len();
    names.sort();
    names.dedup();
    assert_eq!(names.len(), count);
}

use std::cell::Cell;

use tracked_devices::device::{TrackedDeviceCreateInfo, TrackedDeviceType, XrTrackedDevice};
use tracked_devices::hand::{Hand, SubactionPaths, XrPath, NULL_RAW_PATH};
use tracked_devices::pose::{DeviceSpace, SessionData, SpaceQuery, SpaceReply, TrackedDevicePose};
use tracked_devices::profiles::{InteractionProfile, MainAxisType, ProfileProperties, Property};
use tracked_devices::vr::{ETrackedDeviceProperty, ETrackingUniverseOrigin, EVRControllerAxisType};
use tracked_devices::xdev::{is_tracker_name, Xdev, XdevProperties};

const PROFILE: InteractionProfile = InteractionProfile {
    profile_path: "/interaction_profiles/valve/index_controller",
    properties: ProfileProperties {
        model: Property { left: b"Knuckles Left", right: b"Knuckles Right" },
        openvr_controller_type: b"knuckles",
        render_model_name: Property { left: b"model_left", right: b"model_right" },
        registered_device_type: Property { left: b"valve/left", right: b"valve/right" },
        serial_number: Property { left: b"LHR-L", right: b"LHR-R" },
        tracking_system_name: b"lighthouse",
        manufacturer_name: b"Valve",
        main_axis: MainAxisType::Thumbstick,
        legacy_buttons_mask: 0b1011,
    },
};

const ORIGIN: ETrackingUniverseOrigin = ETrackingUniverseOrigin::Standing;

const SESSION: SessionData = SessionData { current_origin: ORIGIN, legacy_actions: true };

fn device(device_type: TrackedDeviceType) -> XrTrackedDevice {
    XrTrackedDevice::new(TrackedDeviceCreateInfo {
        device_type,
        profile_path: None,
        interaction_profile: Some(&PROFILE),
        xdev: None,
    })
}

fn xdev(id: u64, name: &str, serial: &[u8], space: Option<u64>) -> Xdev {
    let properties = XdevProperties::new(name.to_string(), serial.to_vec());
    Xdev { id, properties, space }
}

fn tracker(xdev: Option<Xdev>) -> XrTrackedDevice {
    XrTrackedDevice::new(TrackedDeviceCreateInfo {
        device_type: TrackedDeviceType::GenericTracker,
        profile_path: None,
        interaction_profile: Some(&PROFILE),
        xdev,
    })
}

fn pose(n: u32) -> TrackedDevicePose {
    TrackedDevicePose {
        device_to_absolute_tracking: [n; 12],
        velocity: [n; 3],
        angular_velocity: [n; 3],
        tracking_result: 200,
        pose_is_valid: false,
        device_is_connected: false,
    }
}

#[test]
fn default_device_is_a_disconnected_hmd() {
    assert_eq!(TrackedDeviceType::default(), TrackedDeviceType::Hmd);
    let hmd = XrTrackedDevice::default();
    assert_eq!(hmd.get_type(), TrackedDeviceType::Hmd);
    assert!(!hmd.connected());
    assert_eq!(hmd.get_profile_path(), XrPath { raw: NULL_RAW_PATH });
    assert!(hmd.get_interaction_profile().is_none());
}

#[test]
fn only_a_new_hmd_is_connected() {
    assert!(device(TrackedDeviceType::Hmd).connected());
    assert!(!device(TrackedDeviceType::Controller { hand: Hand::Left }).connected());
    assert!(!device(TrackedDeviceType::GenericTracker).connected());
}

#[test]
fn getters_give_back_what_was_set() {
    let mut controller = device(TrackedDeviceType::Controller { hand: Hand::Right });
    assert_eq!(controller.get_profile_path(), XrPath { raw: 0 });
    controller.set_profile_path(XrPath { raw: 17 });
    assert_eq!(controller.get_profile_path(), XrPath { raw: 17 });
    controller.set_connected(true);
    assert!(controller.connected());
    controller.set_connected(false);
    assert!(!controller.connected());
    assert_eq!(controller.get_controller_hand(), Some(Hand::Right));
    assert_eq!(device(TrackedDeviceType::Hmd).get_controller_hand(), None);
    let mut bare = XrTrackedDevice::default();
    bare.set_interaction_profile(&PROFILE);
    assert_eq!(bare.get_interaction_profile(), Some(&PROFILE));
    let with_path = XrTrackedDevice::new(TrackedDeviceCreateInfo {
        device_type: TrackedDeviceType::Hmd,
        profile_path: Some(XrPath { raw: 5 }),
        interaction_profile: None,
        xdev: None,
    });
    assert_eq!(with_path.get_profile_path(), XrPath { raw: 5 });
    assert!(with_path.xdev().is_none());
}

#[test]
fn connection_change_is_reported_once() {
    let mut hmd = device(TrackedDeviceType::Hmd);
    assert_eq!(hmd.compare_exchange_connected(), Ok(false));
    assert_eq!(hmd.compare_exchange_connected(), Err(true));
    hmd.set_connected(false);
    assert_eq!(hmd.compare_exchange_connected(), Ok(true));
    assert_eq!(hmd.compare_exchange_connected(), Err(false));
    hmd.set_connected(true);
    hmd.set_connected(false);
    assert_eq!(hmd.compare_exchange_connected(), Err(false));
    let mut controller = device(TrackedDeviceType::Controller { hand: Hand::Left });
    assert_eq!(controller.compare_exchange_connected(), Err(false));
}

#[test]
fn hmd_string_properties() {
    let hmd = device(TrackedDeviceType::Hmd);
    let unknown: Option<&[u8]> = Some(b"<unknown>");
    assert_eq!(hmd.get_string_property(ETrackedDeviceProperty::SerialNumberString), unknown);
    assert_eq!(hmd.get_string_property(ETrackedDeviceProperty::ManufacturerNameString), unknown);
    assert_eq!(hmd.get_string_property(ETrackedDeviceProperty::ControllerTypeString), unknown);
    assert_eq!(hmd.get_string_property(ETrackedDeviceProperty::ModelNumberString), None);
    assert_eq!(hmd.get_string_property(ETrackedDeviceProperty::Other(1004)), None);
}

#[test]
fn controller_string_properties() {
    let left = device(TrackedDeviceType::Controller { hand: Hand::Left });
    let right = device(TrackedDeviceType::Controller { hand: Hand::Right });
    let expected: [(ETrackedDeviceProperty, &[u8], &[u8]); 7] = [
        (ETrackedDeviceProperty::ControllerTypeString, b"knuckles", b"knuckles"),
        (ETrackedDeviceProperty::ModelNumberString, b"Knuckles Left", b"Knuckles Right"),
        (ETrackedDeviceProperty::RenderModelNameString, b"model_left", b"model_right"),
        (ETrackedDeviceProperty::RegisteredDeviceTypeString, b"valve/left", b"valve/right"),
        (ETrackedDeviceProperty::TrackingSystemNameString, b"lighthouse", b"lighthouse"),
        (ETrackedDeviceProperty::SerialNumberString, b"LHR-L", b"LHR-R"),
        (ETrackedDeviceProperty::ManufacturerNameString, b"Valve", b"Valve"),
    ];
    for (prop, for_left, for_right) in expected {
        assert_eq!(left.get_string_property(prop), Some(for_left));
        assert_eq!(right.get_string_property(prop), Some(for_right));
    }
    assert_eq!(left.get_string_property(ETrackedDeviceProperty::Axis0TypeInt32), None);
}

#[test]
fn without_profile_there_are_no_string_properties() {
    for device_type in [
        TrackedDeviceType::Controller { hand: Hand::Left },
        TrackedDeviceType::GenericTracker,
    ] {
        let bare = XrTrackedDevice::new(TrackedDeviceCreateInfo {
            device_type,
            profile_path: None,
            interaction_profile: None,
            xdev: Some(xdev(1, "tracker", b"S\0", Some(2))),
        });
        assert_eq!(bare.get_string_property(ETrackedDeviceProperty::SerialNumberString), None);
        assert_eq!(bare.get_string_property(ETrackedDeviceProperty::ModelNumberString), None);
    }
}

#[test]
fn tracker_reports_like_left_controller_but_for_its_serial() {
    let left = device(TrackedDeviceType::Controller { hand: Hand::Left });
    let own = tracker(Some(xdev(1, "Vive Tracker", b"LHR-123\0junk\0", Some(2))));
    for prop in [
        ETrackedDeviceProperty::ControllerTypeString,
        ETrackedDeviceProperty::ModelNumberString,
        ETrackedDeviceProperty::RenderModelNameString,
        ETrackedDeviceProperty::RegisteredDeviceTypeString,
        ETrackedDeviceProperty::TrackingSystemNameString,
        ETrackedDeviceProperty::ManufacturerNameString,
        ETrackedDeviceProperty::SupportedButtonsUint64,
    ] {
        assert_eq!(own.get_string_property(prop), left.get_string_property(prop));
    }
    let serial: Option<&[u8]> = Some(b"LHR-123");
    assert_eq!(own.get_string_property(ETrackedDeviceProperty::SerialNumberString), serial);
    assert_eq!(tracker(None).get_string_property(ETrackedDeviceProperty::SerialNumberString), None);
    let empty = tracker(Some(xdev(1, "Vive Tracker", b"\0\0", Some(2))));
    let nothing: Option<&[u8]> = Some(b"");
    assert_eq!(empty.get_string_property(ETrackedDeviceProperty::SerialNumberString), nothing);
}

#[test]
fn pose_is_asked_for_once_until_cleared() {
    let asked = Cell::new(0);
    let locate = |_: SpaceQuery| {
        asked.set(asked.get() + 1);
        SpaceReply::Related(pose(asked.get()))
    };
    let mut hmd = device(TrackedDeviceType::Hmd);
    assert_eq!(hmd.get_pose(&SESSION, ORIGIN, &locate), Some(pose(1)));
    assert_eq!(hmd.get_pose(&SESSION, ETrackingUniverseOrigin::Seated, &locate), Some(pose(1)));
    assert_eq!(asked.get(), 1);
    hmd.clear_pose_cache();
    assert_eq!(hmd.get_pose(&SESSION, ORIGIN, &locate), Some(pose(2)));
}

#[test]
fn missing_pose_is_asked_for_again() {
    let asked = Cell::new(0);
    let locate = |_: SpaceQuery| {
        asked.set(asked.get() + 1);
        SpaceReply::Failed
    };
    let mut hmd = device(TrackedDeviceType::Hmd);
    assert_eq!(hmd.get_pose(&SESSION, ORIGIN, &locate), None);
    assert_eq!(hmd.get_pose(&SESSION, ORIGIN, &locate), None);
    assert_eq!(asked.get(), 2);
}

#[test]
fn hmd_pose_comes_from_the_view_space() {
    let locate = |query: SpaceQuery| {
        assert!(matches!(query.space, DeviceSpace::View));
        assert_eq!(query.origin, ETrackingUniverseOrigin::Seated);
        SpaceReply::Related(pose(3))
    };
    let mut hmd = device(TrackedDeviceType::Hmd);
    assert_eq!(hmd.get_pose(&SESSION, ETrackingUniverseOrigin::Seated, &locate), Some(pose(3)));
}

#[test]
fn controller_pose_comes_from_its_raw_space() {
    let locate = |query: SpaceQuery| {
        assert_eq!(query.origin, ORIGIN);
        match query.space {
            DeviceSpace::ControllerRaw { hand: Hand::Right, profile } => {
                assert_eq!(profile, Some(&PROFILE));
                SpaceReply::Related(pose(4))
            }
            _ => SpaceReply::Failed,
        }
    };
    let right = TrackedDeviceType::Controller { hand: Hand::Right };
    assert_eq!(device(right).get_pose(&SESSION, ORIGIN, &locate), Some(pose(4)));
    let left = TrackedDeviceType::Controller { hand: Hand::Left };
    assert_eq!(device(left).get_pose(&SESSION, ORIGIN, &locate), None);
}

#[test]
fn controller_without_raw_space_has_the_empty_pose() {
    let left = TrackedDeviceType::Controller { hand: Hand::Left };
    let locate = |_: SpaceQuery| SpaceReply::NoRawSpace(pose(0));
    assert_eq!(device(left).get_pose(&SESSION, ORIGIN, &locate), Some(pose(0)));
}

#[test]
fn controller_without_legacy_actions_has_no_pose() {
    let left = TrackedDeviceType::Controller { hand: Hand::Left };
    let session = SessionData { current_origin: ORIGIN, legacy_actions: false };
    let locate = |_: SpaceQuery| -> SpaceReply { panic!("there is no space to ask for") };
    assert_eq!(device(left).get_pose(&session, ORIGIN, &locate), None);
}

#[test]
fn tracker_pose_is_always_valid() {
    let locate = |query: SpaceQuery| {
        assert!(matches!(query.space, DeviceSpace::Xdev { handle: 77 }));
        SpaceReply::Related(pose(5))
    };
    let mut followed = tracker(Some(xdev(1, "tracker", b"S\0", Some(77))));
    let expected =
        TrackedDevicePose { pose_is_valid: true, device_is_connected: true, ..pose(5) };
    assert_eq!(followed.get_pose(&SESSION, ORIGIN, &locate), Some(expected));
}

#[test]
fn tracker_without_space_has_no_pose() {
    let locate = |_: SpaceQuery| -> SpaceReply { panic!("there is no space to ask for") };
    assert_eq!(tracker(None).get_pose(&SESSION, ORIGIN, &locate), None);
    let lost = xdev(1, "tracker", b"S\0", None);
    assert_eq!(tracker(Some(lost)).get_pose(&SESSION, ORIGIN, &locate), None);
}

#[test]
fn replies_that_are_no_pose() {
    assert_eq!(SpaceReply::Failed.hmd_pose(), None);
    assert_eq!(SpaceReply::NoRawSpace(pose(1)).hmd_pose(), None);
    assert_eq!(SpaceReply::Failed.controller_pose(), None);
    assert_eq!(SpaceReply::Failed.generic_tracker_pose(), None);
    assert_eq!(SpaceReply::NoRawSpace(pose(1)).generic_tracker_pose(), None);
}

#[test]
fn xdevs_are_equal_by_id() {
    assert!(xdev(1, "a", b"x\0", None) == xdev(1, "b", b"y\0", Some(1)));
    assert!(xdev(1, "a", b"x\0", None) != xdev(2, "a", b"x\0", None));
}

#[test]
fn tracker_names() {
    assert!(is_tracker_name("vive tracker 3.0"));
    assert!(is_tracker_name("tracker"));
    assert!(!is_tracker_name("Tracker"));
    assert!(!is_tracker_name("track er"));
    assert!(!is_tracker_name(""));
    assert!(xdev(1, "VIVE TRACKER", b"x\0", Some(1)).is_generic_tracker());
    assert!(xdev(1, "\u{c4}TRACKER", b"x\0", Some(1)).is_generic_tracker());
    assert!(!xdev(1, "VIVE TRACKER", b"x\0", None).is_generic_tracker());
    assert!(!xdev(1, "Index HMD", b"x\0", Some(1)).is_generic_tracker());
}

#[test]
fn axis_type_values() {
    assert_eq!(EVRControllerAxisType::NoAxis.value(), 0);
    assert_eq!(EVRControllerAxisType::TrackPad.value(), 1);
    assert_eq!(EVRControllerAxisType::Joystick.value(), 2);
    assert_eq!(EVRControllerAxisType::Trigger.value(), 3);
}

#[test]
fn subaction_paths_name_the_hands() {
    let lookup = |text: &'static str| match text {
        "/user/hand/left" => Ok(XrPath { raw: 1 }),
        "/user/hand/right" => Ok(XrPath { raw: 2 }),
        _ => Err(openxr::sys::Result::ERROR_PATH_UNSUPPORTED),
    };
    let paths = SubactionPaths::new(&lookup).unwrap();
    assert_eq!(paths.left, XrPath { raw: 1 });
    assert_eq!(paths.right, XrPath { raw: 2 });
}

#[test]
fn subaction_paths_fail_with_the_first_error() {
    let asked = Cell::new(0);
    let refuse = |_: &'static str| {
        asked.set(asked.get() + 1);
        Err(openxr::sys::Result::ERROR_INSTANCE_LOST)
    };
    let error = SubactionPaths::new(&refuse).unwrap_err();
    assert!(error == openxr::sys::Result::ERROR_INSTANCE_LOST);
    assert_eq!(asked.get(), 1);
    let no_right = |text: &'static str| {
        if text.ends_with("left") {
            Ok(XrPath { raw: 1 })
        } else {
            Err(openxr::sys::Result::ERROR_PATH_COUNT_EXCEEDED)
        }
    };
    let error = SubactionPaths::new(&no_right).unwrap_err();
    assert!(error == openxr::sys::Result::ERROR_PATH_COUNT_EXCEEDED);
}

use std::cell::Cell;
use std::collections::HashMap;

use tracked_devices::device::{TrackedDeviceCreateInfo, TrackedDeviceType, XrTrackedDevice};
use tracked_devices::hand::{Hand, XrPath};
use tracked_devices::input::Input;
use tracked_devices::list::{NewTrackers, TrackedDeviceList};
use tracked_devices::pose::{DeviceSpace, SessionData, SpaceQuery, SpaceReply, TrackedDevicePose};
use tracked_devices::profiles::{InteractionProfile, MainAxisType, ProfileProperties, Property};
use tracked_devices::vr::{
    ETrackedDeviceProperty, ETrackingUniverseOrigin, EVRInputError, TRACKED_DEVICE_INDEX_INVALID,
};
use tracked_devices::xdev::{Xdev, XdevProperties};

const fn properties(main_axis: MainAxisType) -> ProfileProperties {
    ProfileProperties {
        model: Property { left: b"L", right: b"R" },
        openvr_controller_type: b"type",
        render_model_name: Property { left: b"l", right: b"r" },
        registered_device_type: Property { left: b"rl", right: b"rr" },
        serial_number: Property { left: b"sl", right: b"sr" },
        tracking_system_name: b"system",
        manufacturer_name: b"maker",
        main_axis,
        legacy_buttons_mask: 0xF0F0,
    }
}

const TRACKER_PROFILE: InteractionProfile = InteractionProfile {
    profile_path: "/interaction_profiles/htc/vive_tracker_htcx",
    properties: properties(MainAxisType::Trackpad),
};

type XrResult<T> = Result<T, openxr::sys::Result>;

fn controller(hand: Hand) -> XrTrackedDevice {
    XrTrackedDevice::new(TrackedDeviceCreateInfo {
        device_type: TrackedDeviceType::Controller { hand },
        profile_path: None,
        interaction_profile: None,
        xdev: None,
    })
}

fn xdev(id: u64, name: &str, space: Option<u64>) -> Xdev {
    let properties = XdevProperties::new(name.to_string(), vec![b'S', 0]);
    Xdev { id, properties, space }
}

fn types(list: &TrackedDeviceList) -> Vec<TrackedDeviceType> {
    list.iter().map(|device| device.get_type()).collect()
}

fn tracker_ids(list: &TrackedDeviceList) -> Vec<u64> {
    list.iter().filter_map(|device| device.xdev().map(|xdev| xdev.id)).collect()
}

fn pose(n: u32) -> TrackedDevicePose {
    TrackedDevicePose {
        device_to_absolute_tracking: [n; 12],
        velocity: [0; 3],
        angular_velocity: [0; 3],
        tracking_result: 200,
        pose_is_valid: true,
        device_is_connected: true,
    }
}

fn input(devices: TrackedDeviceList) -> Input {
    Input {
        devices,
        session: SessionData {
            current_origin: ETrackingUniverseOrigin::Seated,
            legacy_actions: true,
        },
        profile_map: HashMap::new(),
    }
}

#[test]
fn new_list_holds_a_connected_hmd() {
    for list in [TrackedDeviceList::new(), TrackedDeviceList::default()] {
        assert_eq!(types(&list), vec![TrackedDeviceType::Hmd]);
        assert!(list.get_hmd().connected());
        assert!(list.get_device(1).is_none());
        assert!(list.get_controller(Hand::Left).is_none());
        assert_eq!(list.get_controller_index(Hand::Left), TRACKED_DEVICE_INDEX_INVALID);
    }
}

#[test]
fn pushed_devices_are_found_by_index() {
    let mut list = TrackedDeviceList::new();
    assert_eq!(list.push_device(controller(Hand::Right)), Ok(1));
    assert_eq!(list.push_device(controller(Hand::Left)), Ok(2));
    assert_eq!(list.get_device(1).unwrap().get_controller_hand(), Some(Hand::Right));
    assert_eq!(list.get_device(2).unwrap().get_controller_hand(), Some(Hand::Left));
    assert_eq!(list.get_controller_index(Hand::Left), 2);
    assert_eq!(list.get_controller_index(Hand::Right), 1);
    assert_eq!(list.get_hmd().get_type(), TrackedDeviceType::Hmd);
}

#[test]
fn first_controller_keeps_its_index() {
    let mut list = TrackedDeviceList::new();
    list.push_device(controller(Hand::Left)).unwrap();
    list.push_device(controller(Hand::Left)).unwrap();
    assert_eq!(list.get_controller_index(Hand::Left), 1);
    list.get_device_mut(2).unwrap().set_connected(true);
    assert!(!list.get_controller(Hand::Left).unwrap().connected());
    list.get_device_mut(1).unwrap().set_connected(true);
    assert!(list.get_controller(Hand::Left).unwrap().connected());
    assert!(list.get_device_mut(3).is_none());
}

#[test]
fn full_list_takes_no_more_devices() {
    let mut list = TrackedDeviceList::new();
    for index in 1..64 {
        assert_eq!(list.max_generic_trackers(), 64 - index as usize);
        assert_eq!(list.push_device(controller(Hand::Left)), Ok(index));
    }
    assert_eq!(list.max_generic_trackers(), 0);
    assert_eq!(list.push_device(controller(Hand::Right)), Err(EVRInputError::MaxCapacityReached));
    assert_eq!(list.iter().count(), 64);
    assert!(list.get_controller(Hand::Right).is_none());
}

#[test]
fn trackers_need_the_extension() {
    let mut list = TrackedDeviceList::new();
    list.add_generic_trackers(Ok(vec![xdev(1, "tracker", Some(1))]), &TRACKER_PROFILE).unwrap();
    let none: Option<fn(usize) -> XrResult<Vec<Xdev>>> = None;
    let report = list.create_generic_trackers(none, &TRACKER_PROFILE).unwrap();
    assert_eq!(report, NewTrackers { qualified: 0, left_out: 0 });
    assert_eq!(tracker_ids(&list), vec![1]);
}

#[test]
fn trackers_are_chosen_by_name_and_space() {
    let mut list = TrackedDeviceList::new();
    list.push_device(controller(Hand::Left)).unwrap();
    let asked = Cell::new(0);
    let enumerate = |max: usize| {
        asked.set(max);
        Ok(vec![
            xdev(1, "Vive Tracker Pro", Some(10)),
            xdev(2, "Index Controller", Some(20)),
            xdev(3, "TRACKER without space", None),
            xdev(4, "Tundra TRACKER", Some(40)),
        ])
    };
    let report = list.create_generic_trackers(Some(enumerate), &TRACKER_PROFILE).unwrap();
    assert_eq!(report, NewTrackers { qualified: 2, left_out: 0 });
    assert_eq!(asked.get(), 62);
    assert_eq!(tracker_ids(&list), vec![1, 4]);
    let tracker = list.get_device(2).unwrap();
    assert_eq!(tracker.get_type(), TrackedDeviceType::GenericTracker);
    assert!(tracker.connected());
    assert_eq!(tracker.get_interaction_profile(), Some(&TRACKER_PROFILE));
    assert_eq!(tracker.get_profile_path(), XrPath { raw: 0 });
}

#[test]
fn creating_trackers_again_changes_nothing() {
    let mut list = TrackedDeviceList::new();
    list.push_device(controller(Hand::Left)).unwrap();
    let asked = Cell::new(0);
    let enumerate = |max: usize| {
        asked.set(max);
        Ok(vec![xdev(7, "tracker", Some(1)), xdev(8, "tracker", Some(2))])
    };
    for _ in 0..3 {
        list.create_generic_trackers(Some(&enumerate), &TRACKER_PROFILE).unwrap();
        assert_eq!(asked.get(), 62);
        assert_eq!(tracker_ids(&list), vec![7, 8]);
        assert_eq!(list.iter().count(), 4);
        assert_eq!(list.get_controller_index(Hand::Left), 1);
    }
}

#[test]
fn trackers_between_other_devices_are_replaced() {
    let mut list = TrackedDeviceList::new();
    list.add_generic_trackers(Ok(vec![xdev(1, "tracker", Some(1))]), &TRACKER_PROFILE).unwrap();
    list.push_device(controller(Hand::Right)).unwrap();
    list.add_generic_trackers(Ok(vec![xdev(2, "tracker", Some(2))]), &TRACKER_PROFILE).unwrap();
    assert_eq!(list.get_controller_index(Hand::Right), 2);
    let enumerate = |_: usize| Ok(vec![xdev(3, "tracker", Some(3))]);
    list.create_generic_trackers(Some(enumerate), &TRACKER_PROFILE).unwrap();
    assert_eq!(
        types(&list),
        vec![
            TrackedDeviceType::Hmd,
            TrackedDeviceType::Controller { hand: Hand::Right },
            TrackedDeviceType::GenericTracker,
        ]
    );
    assert_eq!(tracker_ids(&list), vec![3]);
    list.remove_generic_trackers();
    assert_eq!(list.iter().count(), 2);
}

#[test]
fn trackers_leave_each_hand_its_controller() {
    let mut list = TrackedDeviceList::new();
    list.add_generic_trackers(Ok(vec![xdev(1, "tracker", Some(1))]), &TRACKER_PROFILE).unwrap();
    for raw in [40, 41] {
        let mut right = controller(Hand::Right);
        right.set_profile_path(XrPath { raw });
        list.push_device(right).unwrap();
    }
    let path = |list: &TrackedDeviceList, hand| {
        list.get_controller(hand).map(|controller| controller.get_profile_path().raw)
    };
    assert_eq!(list.get_controller_index(Hand::Right), 2);
    assert_eq!(path(&list, Hand::Right), Some(40));
    let enumerate = |_: usize| Ok(vec![xdev(3, "tracker", Some(3)), xdev(4, "tracker", Some(4))]);
    list.create_generic_trackers(Some(enumerate), &TRACKER_PROFILE).unwrap();
    assert_eq!(list.get_controller_index(Hand::Right), 1);
    assert_eq!(path(&list, Hand::Right), Some(40));
    assert_eq!(list.get_controller_index(Hand::Left), TRACKED_DEVICE_INDEX_INVALID);
    assert_eq!(path(&list, Hand::Left), None);
}

#[test]
fn serial_number_of_a_tracker_ends_at_the_first_nul() {
    let mut list = TrackedDeviceList::new();
    let properties = XdevProperties::new("tracker".to_string(), b"LHR-7\0rest\0".to_vec());
    assert_eq!(properties.serial(), b"LHR-7");
    let found = Ok(vec![Xdev { id: 7, properties, space: Some(1) }]);
    list.add_generic_trackers(found, &TRACKER_PROFILE).unwrap();
    let input = input(list);
    let serial: Option<&[u8]> = Some(b"LHR-7");
    assert_eq!(
        input.get_device_string_property(1, ETrackedDeviceProperty::SerialNumberString),
        serial
    );
}

#[test]
fn listed_devices_do_not_become_trackers() {
    let mut list = TrackedDeviceList::new();
    let known = XrTrackedDevice::new(TrackedDeviceCreateInfo {
        device_type: TrackedDeviceType::Controller { hand: Hand::Left },
        profile_path: None,
        interaction_profile: None,
        xdev: Some(xdev(5, "tracker", Some(5))),
    });
    list.push_device(known).unwrap();
    let enumerate = |_: usize| {
        Ok(vec![
            xdev(5, "other tracker", Some(5)),
            xdev(6, "tracker", Some(6)),
            xdev(6, "tracker", Some(6)),
        ])
    };
    list.create_generic_trackers(Some(enumerate), &TRACKER_PROFILE).unwrap();
    assert_eq!(tracker_ids(&list), vec![5, 6, 6]);
}

#[test]
fn failed_enumeration_leaves_no_trackers() {
    let mut list = TrackedDeviceList::new();
    list.add_generic_trackers(Ok(vec![xdev(1, "tracker", Some(1))]), &TRACKER_PROFILE).unwrap();
    let fail =
        |_: usize| -> XrResult<Vec<Xdev>> { Err(openxr::sys::Result::ERROR_SESSION_LOST) };
    let error = list.create_generic_trackers(Some(fail), &TRACKER_PROFILE).unwrap_err();
    assert!(error == openxr::sys::Result::ERROR_SESSION_LOST);
    assert_eq!(types(&list), vec![TrackedDeviceType::Hmd]);
    let error = list
        .add_generic_trackers(Err(openxr::sys::Result::ERROR_OUT_OF_MEMORY), &TRACKER_PROFILE)
        .unwrap_err();
    assert!(error == openxr::sys::Result::ERROR_OUT_OF_MEMORY);
}

#[test]
fn trackers_that_do_not_fit_are_left_out() {
    let mut list = TrackedDeviceList::new();
    let many = |_: usize| Ok((0..100).map(|id| xdev(id, "tracker", Some(id))).collect());
    let report = list.create_generic_trackers(Some(many), &TRACKER_PROFILE).unwrap();
    assert_eq!(report, NewTrackers { qualified: 100, left_out: 37 });
    assert_eq!(list.iter().count(), 64);
    assert_eq!(tracker_ids(&list), (0..63).collect::<Vec<u64>>());
}

#[test]
fn devices_are_described_by_index() {
    let mut list = TrackedDeviceList::new();
    list.push_device(controller(Hand::Right)).unwrap();
    let input = input(list);
    assert!(input.is_device_connected(0));
    assert!(!input.is_device_connected(1));
    assert!(!input.is_device_connected(2));
    assert!(!input.is_device_connected(TRACKED_DEVICE_INDEX_INVALID));
    assert_eq!(input.device_index_to_device_type(0), Some(TrackedDeviceType::Hmd));
    assert_eq!(
        input.device_index_to_device_type(1),
        Some(TrackedDeviceType::Controller { hand: Hand::Right })
    );
    assert_eq!(input.device_index_to_device_type(2), None);
    assert_eq!(input.device_index_to_hand(0), None);
    assert_eq!(input.device_index_to_hand(1), Some(Hand::Right));
    assert_eq!(input.device_index_to_hand(2), None);
    let unknown: Option<&[u8]> = Some(b"<unknown>");
    let serial = ETrackedDeviceProperty::SerialNumberString;
    assert_eq!(input.get_device_string_property(0, serial), unknown);
    assert_eq!(input.get_device_string_property(1, serial), None);
    assert_eq!(input.get_device_string_property(9, serial), None);
}

#[test]
fn controller_index_and_hand_agree() {
    let mut list = TrackedDeviceList::new();
    list.push_device(controller(Hand::Left)).unwrap();
    let input = input(list);
    let index = input.get_controller_device_index(Hand::Left).unwrap();
    assert_eq!(index, 1);
    assert_eq!(input.device_index_to_hand(index), Some(Hand::Left));
    assert_eq!(input.get_controller_device_index(Hand::Right), None);
}

#[test]
fn numbers_come_from_the_profile_of_the_controller() {
    let mut list = TrackedDeviceList::new();
    list.push_device(controller(Hand::Left)).unwrap();
    list.push_device(controller(Hand::Right)).unwrap();
    list.get_device_mut(1).unwrap().set_profile_path(XrPath { raw: 11 });
    list.get_device_mut(2).unwrap().set_profile_path(XrPath { raw: 12 });
    let mut input = input(list);
    let axis0 = ETrackedDeviceProperty::Axis0TypeInt32;
    assert!(input.get_profile_data(Hand::Left).is_none());
    assert_eq!(input.get_controller_int_tracked_property(Hand::Left, axis0), None);
    input.profile_map.insert(11, properties(MainAxisType::Thumbstick));
    input.profile_map.insert(12, properties(MainAxisType::Trackpad));
    assert_eq!(input.get_profile_data(Hand::Left).unwrap().main_axis, MainAxisType::Thumbstick);
    assert_eq!(input.get_controller_int_tracked_property(Hand::Left, axis0), Some(2));
    assert_eq!(input.get_controller_int_tracked_property(Hand::Right, axis0), Some(1));
    for (property, expected) in [
        (ETrackedDeviceProperty::Axis1TypeInt32, Some(3)),
        (ETrackedDeviceProperty::Axis2TypeInt32, Some(3)),
        (ETrackedDeviceProperty::Axis3TypeInt32, Some(0)),
        (ETrackedDeviceProperty::Axis4TypeInt32, Some(0)),
        (ETrackedDeviceProperty::SupportedButtonsUint64, None),
        (ETrackedDeviceProperty::Other(1), None),
    ] {
        assert_eq!(input.get_controller_int_tracked_property(Hand::Left, property), expected);
    }
    let buttons = ETrackedDeviceProperty::SupportedButtonsUint64;
    assert_eq!(input.get_controller_uint_tracked_property(Hand::Left, buttons), Some(0xF0F0));
    assert_eq!(input.get_controller_uint_tracked_property(Hand::Left, axis0), None);
}

#[test]
fn without_controller_there_are_no_numbers() {
    let mut input = input(TrackedDeviceList::new());
    input.profile_map.insert(0, properties(MainAxisType::Trackpad));
    let buttons = ETrackedDeviceProperty::SupportedButtonsUint64;
    assert_eq!(input.get_controller_uint_tracked_property(Hand::Left, buttons), None);
    // A controller whose profile is not known yet is looked up under the null path
    input.devices.push_device(controller(Hand::Left)).unwrap();
    assert_eq!(input.get_controller_uint_tracked_property(Hand::Left, buttons), Some(0xF0F0));
}

#[test]
fn device_poses_use_the_origin_asked_for() {
    let mut list = TrackedDeviceList::new();
    list.push_device(controller(Hand::Left)).unwrap();
    let mut input = input(list);
    let locate = |query: SpaceQuery| match query.origin {
        ETrackingUniverseOrigin::Seated => SpaceReply::Related(pose(1)),
        _ => SpaceReply::Related(pose(2)),
    };
    assert_eq!(input.get_device_pose(0, None, &locate), Some(pose(1)));
    let standing = Some(ETrackingUniverseOrigin::Standing);
    assert_eq!(input.get_controller_pose(Hand::Left, standing, &locate), Some(pose(2)));
    // The pose is kept, whatever origin is asked for next
    assert_eq!(input.get_controller_pose(Hand::Left, None, &locate), Some(pose(2)));
    assert_eq!(input.get_device_pose(1, None, &locate), Some(pose(2)));
    assert_eq!(input.get_controller_pose(Hand::Right, None, &locate), None);
    assert_eq!(input.get_device_pose(2, None, &locate), None);
}

#[test]
fn poses_fill_the_slots_of_devices() {
    let mut list = TrackedDeviceList::new();
    list.push_device(controller(Hand::Left)).unwrap();
    list.push_device(controller(Hand::Right)).unwrap();
    let mut input = input(list);
    let locate = |query: SpaceQuery| match query.space {
        DeviceSpace::View => SpaceReply::Related(pose(1)),
        DeviceSpace::ControllerRaw { hand: Hand::Right, .. } => SpaceReply::Related(pose(3)),
        _ => SpaceReply::Failed,
    };
    let missing = TrackedDevicePose { pose_is_valid: false, ..pose(0) };
    let mut poses = [pose(9); 5];
    input.get_poses(&mut poses, None, missing, &locate);
    assert_eq!(poses, [pose(1), missing, pose(3), pose(9), pose(9)]);
    let mut short = [pose(8)];
    input.get_poses(&mut short, None, missing, &|_: SpaceQuery| SpaceReply::Failed);
    assert_eq!(short, [pose(1)]);
    input.get_poses(&mut [], None, missing, &locate);
}

#[test]
fn runtime_is_asked_once_for_trackers() {
    let mut list = TrackedDeviceList::new();
    let asked = Cell::new(0);
    let enumerate = |_: usize| {
        asked.set(asked.get() + 1);
        Ok(Vec::new())
    };
    let report = list.create_generic_trackers(Some(enumerate), &TRACKER_PROFILE).unwrap();
    assert_eq!(report, NewTrackers { qualified: 0, left_out: 0 });
    assert_eq!(asked.get(), 1);
}

//! What the runtime is asked, and what has to hold for a call.
use vstd::prelude::*;
use crate::device::{DeviceView, TrackedDeviceType, XrTrackedDevice};
use crate::hand::{Hand, SubactionPaths, XrPath};
use crate::input::Input;
use crate::list::TrackedDeviceList;
use crate::pose::{DeviceSpace, SessionData, SpaceQuery, SpaceReply, TrackedDevicePose};
use crate::profiles::InteractionProfile;
use crate::vr::{ETrackedDeviceProperty, ETrackingUniverseOrigin};
use crate::xdev::Xdev;

verus! {

/// A device can be asked for its pose with a runtime that answers at most one question: where
/// the space of the device is, relative to the origin. No question is asked if a pose is
/// cached, or if the device has no space.
pub proof fn device_asks_for_its_own_space_only<F: FnOnce(SpaceQuery) -> SpaceReply>(
    device: &mut XrTrackedDevice,
    session: SessionData,
    origin: ETrackingUniverseOrigin,
    locate: F,
)
    requires
        old(device)@.pose_cache is None ==> match old(device)@.device_type {
            TrackedDeviceType::Hmd => call_requires(
                locate,
                (SpaceQuery { space: DeviceSpace::View, origin },),
            ),
            TrackedDeviceType::Controller { hand } => session.legacy_actions ==> call_requires(
                locate,
                (SpaceQuery {
                    space: DeviceSpace::ControllerRaw {
                        hand,
                        profile: old(device)@.interaction_profile,
                    },
                    origin,
                },),
            ),
            TrackedDeviceType::GenericTracker => old(device)@.xdev is Some && old(
                device)@.xdev->0.space is Some ==> call_requires(
                locate,
                (SpaceQuery {
                    space: DeviceSpace::Xdev { handle: old(device)@.xdev->0.space->0 },
                    origin,
                },),
            ),
        },
    ensures
        call_requires(XrTrackedDevice::get_pose::<F>, (device, &session, origin, locate)),
{
}

/// Asked by index, a device asks for its own space only, relative to the origin that is asked
/// for, or to the session's current origin where none is asked for. No question is asked where
/// there is no device.
pub proof fn pose_by_index_asks_for_one_space_only<F: FnOnce(SpaceQuery) -> SpaceReply>(
    input: &mut Input,
    i: u32,
    origin: Option<ETrackingUniverseOrigin>,
    at: ETrackingUniverseOrigin,
    locate: F,
)
    requires
        1 <= old(input).devices@.len() <= 64,
        old(input).devices@[0].device_type == TrackedDeviceType::Hmd,
        origin is Some ==> at == origin->0,
        origin is None ==> at == old(input).session.current_origin,
        i < old(input).devices@.len() && old(input).devices@[i as int].pose_cache is None ==> {
            let device = old(input).devices@[i as int];
            match device.device_type {
                TrackedDeviceType::Hmd => call_requires(
                    locate,
                    (SpaceQuery { space: DeviceSpace::View, origin: at },),
                ),
                TrackedDeviceType::Controller { hand } => old(input).session.legacy_actions
                    ==> call_requires(
                    locate,
                    (SpaceQuery {
                        space: DeviceSpace::ControllerRaw {
                            hand,
                            profile: device.interaction_profile,
                        },
                        origin: at,
                    },),
                ),
                TrackedDeviceType::GenericTracker => device.xdev is Some
                    && device.xdev->0.space is Some ==> call_requires(
                    locate,
                    (SpaceQuery {
                        space: DeviceSpace::Xdev { handle: device.xdev->0.space->0 },
                        origin: at,
                    },),
                ),
            }
        },
    ensures
        call_requires(Input::get_device_pose::<F>, (input, i, origin, locate)),
{
}

/// Asked for by hand, the first controller for it asks for the raw space of that hand only.
pub proof fn pose_by_hand_asks_for_one_space_only<F: FnOnce(SpaceQuery) -> SpaceReply>(
    input: &mut Input,
    hand: Hand,
    i: int,
    origin: Option<ETrackingUniverseOrigin>,
    at: ETrackingUniverseOrigin,
    locate: F,
)
    requires
        1 <= old(input).devices@.len() <= 64,
        old(input).devices@[0].device_type == TrackedDeviceType::Hmd,
        origin is Some ==> at == origin->0,
        origin is None ==> at == old(input).session.current_origin,
        0 <= i < old(input).devices@.len(),
        old(input).devices@[i].device_type == (TrackedDeviceType::Controller { hand }),
        forall|j: int|
            0 <= j < i ==> (#[trigger] old(input).devices@[j]).device_type
                != (TrackedDeviceType::Controller { hand }),
        old(input).devices@[i].pose_cache is None && old(input).session.legacy_actions
            ==> call_requires(
            locate,
            (SpaceQuery {
                space: DeviceSpace::ControllerRaw {
                    hand,
                    profile: old(input).devices@[i].interaction_profile,
                },
                origin: at,
            },),
        ),
    ensures
        call_requires(Input::get_controller_pose::<F>, (input, hand, origin, locate)),
{
    super::lists::lemma_first_controller_index(old(input).devices@, hand, i);
}

/// For a hand without a controller the runtime is asked nothing.
pub proof fn without_controller_nothing_is_asked<F: FnOnce(SpaceQuery) -> SpaceReply>(
    input: &mut Input,
    hand: Hand,
    origin: Option<ETrackingUniverseOrigin>,
    locate: F,
)
    requires
        1 <= old(input).devices@.len() <= 64,
        old(input).devices@[0].device_type == TrackedDeviceType::Hmd,
        forall|j: int|
            0 <= j < old(input).devices@.len() ==> (#[trigger] old(input).devices@[j]).device_type
                != (TrackedDeviceType::Controller { hand }),
    ensures
        call_requires(Input::get_controller_pose::<F>, (input, hand, origin, locate)),
{
    super::lists::lemma_no_controller_index(old(input).devices@, hand);
}

/// Asking for all poses asks for the spaces of those devices only that have a slot and no cached
/// pose, relative to the origin that is asked for, or to the session's current origin where none
/// is asked for.
pub proof fn poses_ask_for_the_spaces_of_devices_only<F: Fn(SpaceQuery) -> SpaceReply>(
    input: &mut Input,
    poses: &mut [TrackedDevicePose],
    origin: Option<ETrackingUniverseOrigin>,
    at: ETrackingUniverseOrigin,
    missing: TrackedDevicePose,
    locate: &F,
)
    requires
        1 <= old(input).devices@.len() <= 64,
        old(input).devices@[0].device_type == TrackedDeviceType::Hmd,
        origin is Some ==> at == origin->0,
        origin is None ==> at == old(input).session.current_origin,
        forall|k: int|
            0 <= k < old(poses)@.len() && k < old(input).devices@.len() && (
            #[trigger] old(input).devices@[k]).pose_cache is None ==> {
                let device = old(input).devices@[k];
                match device.device_type {
                    TrackedDeviceType::Hmd => call_requires(
                        *locate,
                        (SpaceQuery { space: DeviceSpace::View, origin: at },),
                    ),
                    TrackedDeviceType::Controller { hand } => old(input).session.legacy_actions
                        ==> call_requires(
                        *locate,
                        (SpaceQuery {
                            space: DeviceSpace::ControllerRaw {
                                hand,
                                profile: device.interaction_profile,
                            },
                            origin: at,
                        },),
                    ),
                    TrackedDeviceType::GenericTracker => device.xdev is Some
                        && device.xdev->0.space is Some ==> call_requires(
                        *locate,
                        (SpaceQuery {
                            space: DeviceSpace::Xdev { handle: device.xdev->0.space->0 },
                            origin: at,
                        },),
                    ),
                }
            },
    ensures
        call_requires(Input::get_poses::<F>, (input, poses, origin, missing, locate)),
{
}

/// The runtime is asked for as many devices as are missing to 64 once the generic trackers are
/// gone, and for nothing else; `kept` is the number of the devices that are none.
pub proof fn runtime_is_asked_for_missing_devices_only<
    F: FnOnce(usize) -> Result<Vec<Xdev>, openxr::sys::Result>,
>(
    list: &mut TrackedDeviceList,
    kept: nat,
    enumerate_xdevs: Option<F>,
    profile: &'static InteractionProfile,
)
    requires
        1 <= old(list)@.len() <= 64,
        old(list)@[0].device_type == TrackedDeviceType::Hmd,
        kept == old(list)@.filter(
            |device: DeviceView| device.device_type != TrackedDeviceType::GenericTracker,
        ).len(),
        enumerate_xdevs matches Some(f) ==> call_requires(f, ((64 - kept) as usize,)),
    ensures
        call_requires(
            TrackedDeviceList::create_generic_trackers::<F>,
            (list, enumerate_xdevs, profile),
        ),
{
}

/// A list with a headset first and no more than 64 devices can be asked and changed.
pub proof fn every_valid_list_can_be_used(
    list: TrackedDeviceList,
    changed: &mut TrackedDeviceList,
    device: XrTrackedDevice,
    hand: Hand,
    found: Result<Vec<Xdev>, openxr::sys::Result>,
    profile: &'static InteractionProfile,
)
    requires
        1 <= list@.len() <= 64,
        list@[0].device_type == TrackedDeviceType::Hmd,
        *changed == list,
    ensures
        call_requires(TrackedDeviceList::get_hmd, (&list,)),
        call_requires(TrackedDeviceList::get_controller, (&list, hand)),
        call_requires(TrackedDeviceList::get_controller_index, (&list, hand)),
        call_requires(TrackedDeviceList::max_generic_trackers, (&list,)),
        call_requires(TrackedDeviceList::push_device, (changed, device)),
        call_requires(TrackedDeviceList::remove_generic_trackers, (changed,)),
        call_requires(TrackedDeviceList::add_generic_trackers, (changed, found, profile)),
{
}

/// The questions by hand can be asked whenever the list of devices is valid.
pub proof fn questions_by_hand_can_be_asked(input: Input, hand: Hand, prop: ETrackedDeviceProperty)
    requires
        1 <= input.devices@.len() <= 64,
        input.devices@[0].device_type == TrackedDeviceType::Hmd,
    ensures
        call_requires(Input::get_controller_device_index, (&input, hand)),
        call_requires(Input::get_profile_data, (&input, hand)),
        call_requires(Input::get_controller_int_tracked_property, (&input, hand, prop)),
        call_requires(Input::get_controller_uint_tracked_property, (&input, hand, prop)),
{
}

/// For the paths of the hands the runtime is asked for `/user/hand/left`, and, once it has
/// answered that, for `/user/hand/right`.
pub proof fn hand_paths_are_asked_for_by_name<
    F: Fn(&'static str) -> Result<XrPath, openxr::sys::Result>,
>(string_to_path: F)
    requires
        forall|text: &'static str|
            text@ == "/user/hand/left"@ ==> #[trigger] call_requires(string_to_path, (text,)),
        (exists|text: &'static str, reply: Result<XrPath, openxr::sys::Result>|
            text@ == "/user/hand/left"@ && reply is Ok && #[trigger] call_ensures(
                string_to_path,
                (text,),
                reply,
            )) ==> forall|text: &'static str|
            text@ == "/user/hand/right"@ ==> #[trigger] call_requires(string_to_path, (text,)),
    ensures
        call_requires(SubactionPaths::new::<F>, (&string_to_path,)),
{
}

} // verus!

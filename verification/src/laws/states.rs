//! How the state of a device comes about and changes.
use vstd::prelude::*;
use crate::device::{DeviceView, TrackedDeviceCreateInfo, TrackedDeviceType, XrTrackedDevice};
use crate::hand::{Hand, SubactionPaths, XrPath};
use crate::profiles::InteractionProfile;
use crate::xdev::Xdev;

verus! {

/// A new device is of the kind, and has the profile, the profile path and the runtime's
/// description, that it was made from; a path that was not given is null. Only a headset is
/// connected, and no device has been reported as connected or has a pose.
pub proof fn new_device_is_what_it_was_made_from(
    info: TrackedDeviceCreateInfo,
    device: XrTrackedDevice,
)
    requires
        call_ensures(XrTrackedDevice::new, (info,), device),
    ensures
        device@.device_type == info.device_type,
        device@.interaction_profile == info.interaction_profile,
        info.profile_path is Some ==> device@.profile_path == info.profile_path->0,
        info.profile_path is None ==> device@.profile_path.raw == 0,
        device@.connected <==> info.device_type == TrackedDeviceType::Hmd,
        !device@.previous_connected,
        device@.pose_cache is None,
        device@.xdev == info.xdev,
{
}

/// The default device is a headset about which nothing is known, not even that it is
/// connected.
pub proof fn default_device_is_a_disconnected_hmd(device: XrTrackedDevice, kind: TrackedDeviceType)
    requires
        call_ensures(<XrTrackedDevice as Default>::default, (), device),
        call_ensures(<TrackedDeviceType as Default>::default, (), kind),
    ensures
        kind == TrackedDeviceType::Hmd,
        device@.device_type == TrackedDeviceType::Hmd,
        device@.interaction_profile is None,
        device@.profile_path.raw == 0,
        !device@.connected,
        !device@.previous_connected,
        device@.pose_cache is None,
        device@.xdev is None,
{
}

/// A device tells its state as it is. A controller tells its hand, and no other device
/// has one.
pub proof fn devices_tell_their_state(
    device: XrTrackedDevice,
    kind: TrackedDeviceType,
    hand: Option<Hand>,
    connected: bool,
    profile: Option<&'static InteractionProfile>,
    path: XrPath,
    xdev: Option<&Xdev>,
)
    requires
        call_ensures(XrTrackedDevice::get_type, (&device,), kind),
        call_ensures(XrTrackedDevice::get_controller_hand, (&device,), hand),
        call_ensures(XrTrackedDevice::connected, (&device,), connected),
        call_ensures(XrTrackedDevice::get_interaction_profile, (&device,), profile),
        call_ensures(XrTrackedDevice::get_profile_path, (&device,), path),
        call_ensures(XrTrackedDevice::xdev, (&device,), xdev),
    ensures
        kind == device@.device_type,
        hand == Some(Hand::Left) <==> device@.device_type == (TrackedDeviceType::Controller {
            hand: Hand::Left,
        }),
        hand == Some(Hand::Right) <==> device@.device_type == (TrackedDeviceType::Controller {
            hand: Hand::Right,
        }),
        connected == device@.connected,
        profile == device@.interaction_profile,
        path == device@.profile_path,
        xdev is Some <==> device@.xdev is Some,
        xdev is Some ==> *xdev->0 == device@.xdev->0,
{
}

/// Connecting or disconnecting a device is told afterwards, and changes nothing else.
pub proof fn connection_is_told_as_set(device: &mut XrTrackedDevice, connected: bool, told: bool)
    requires
        call_ensures(XrTrackedDevice::set_connected, (device, connected), ()),
        call_ensures(XrTrackedDevice::connected, (&*final(device),), told),
    ensures
        told == connected,
        final(device)@ == (DeviceView { connected, ..old(device)@ }),
{
}

/// The interaction profile that was set last is the device's, and setting it changes
/// nothing else.
pub proof fn profile_is_told_as_set(
    device: &mut XrTrackedDevice,
    profile: &'static InteractionProfile,
    told: Option<&'static InteractionProfile>,
)
    requires
        call_ensures(XrTrackedDevice::set_interaction_profile, (device, profile), ()),
        call_ensures(XrTrackedDevice::get_interaction_profile, (&*final(device),), told),
    ensures
        told == Some(profile),
        final(device)@ == (DeviceView { interaction_profile: Some(profile), ..old(device)@ }),
{
}

/// The profile path that was set last is the device's, and setting it changes nothing
/// else.
pub proof fn profile_path_is_told_as_set(device: &mut XrTrackedDevice, path: XrPath, told: XrPath)
    requires
        call_ensures(XrTrackedDevice::set_profile_path, (device, path), ()),
        call_ensures(XrTrackedDevice::get_profile_path, (&*final(device),), told),
    ensures
        told == path,
        final(device)@ == (DeviceView { profile_path: path, ..old(device)@ }),
{
}

/// Clearing the cache forgets the pose and nothing else.
pub proof fn clearing_forgets_the_pose_only(device: &mut XrTrackedDevice)
    requires
        call_ensures(XrTrackedDevice::clear_pose_cache, (device,), ()),
    ensures
        final(device)@ == (DeviceView { pose_cache: None, ..old(device)@ }),
{
}

/// Taking note of the connection succeeds exactly if it is not what was last noted. Either
/// way it gives what was last noted; from then on the connection as it is counts as noted,
/// and nothing else changes.
pub proof fn noting_the_connection_gives_what_was_noted(
    device: &mut XrTrackedDevice,
    r: Result<bool, bool>,
)
    requires
        call_ensures(XrTrackedDevice::compare_exchange_connected, (device,), r),
    ensures
        r is Ok <==> old(device)@.connected != old(device)@.previous_connected,
        r matches Ok(noted) ==> noted == old(device)@.previous_connected,
        r matches Err(noted) ==> noted == old(device)@.previous_connected,
        final(device)@ == (DeviceView {
            previous_connected: old(device)@.connected,
            ..old(device)@
        }),
{
}

/// Two descriptions are of the same device exactly if they have the same id.
pub proof fn xdevs_are_the_same_by_id(xdev: Xdev, other: Xdev, r: bool)
    requires
        call_ensures(<Xdev as PartialEq>::eq, (&xdev, &other), r),
    ensures
        r <==> xdev.id == other.id,
{
}

/// The paths of the hands are what the runtime answers for `/user/hand/left` and
/// `/user/hand/right`. There are none if it refuses one of them; the error is then that
/// of the left hand, or that of the right hand once the left hand has been answered.
pub proof fn hand_paths_are_the_answers_of_the_runtime<
    F: Fn(&'static str) -> Result<XrPath, openxr::sys::Result>,
>(string_to_path: F, r: Result<SubactionPaths, openxr::sys::Result>)
    requires
        call_ensures(SubactionPaths::new::<F>, (&string_to_path,), r),
    ensures
        r matches Ok(paths) ==> {
            &&& exists|text: &'static str, reply: Result<XrPath, openxr::sys::Result>|
                {
                    &&& text@ == "/user/hand/left"@
                    &&& #[trigger] call_ensures(string_to_path, (text,), reply)
                    &&& reply matches Ok(left) && left == paths.left
                }
            &&& exists|text: &'static str, reply: Result<XrPath, openxr::sys::Result>|
                {
                    &&& text@ == "/user/hand/right"@
                    &&& #[trigger] call_ensures(string_to_path, (text,), reply)
                    &&& reply matches Ok(right) && right == paths.right
                }
        },
        r matches Err(e) ==> {
            ||| exists|text: &'static str, reply: Result<XrPath, openxr::sys::Result>|
                {
                    &&& text@ == "/user/hand/left"@
                    &&& #[trigger] call_ensures(string_to_path, (text,), reply)
                    &&& reply matches Err(refused) && refused == e
                }
            ||| {
                &&& exists|text: &'static str, reply: Result<XrPath, openxr::sys::Result>|
                    {
                        &&& text@ == "/user/hand/left"@
                        &&& #[trigger] call_ensures(string_to_path, (text,), reply)
                        &&& reply is Ok
                    }
                &&& exists|text: &'static str, reply: Result<XrPath, openxr::sys::Result>|
                    {
                        &&& text@ == "/user/hand/right"@
                        &&& #[trigger] call_ensures(string_to_path, (text,), reply)
                        &&& reply matches Err(refused) && refused == e
                    }
            }
        },
{
}

/// Two answers of the runtime give paths exactly if both are paths, each to its own hand;
/// else the error of the left hand comes before that of the right hand.
pub proof fn hand_paths_need_both_answers(
    left: Result<XrPath, openxr::sys::Result>,
    right: Result<XrPath, openxr::sys::Result>,
    r: Result<SubactionPaths, openxr::sys::Result>,
)
    requires
        call_ensures(SubactionPaths::from_replies, (left, right), r),
    ensures
        r is Ok <==> left is Ok && right is Ok,
        r matches Ok(paths) ==> left == Ok::<XrPath, openxr::sys::Result>(paths.left) && right
            == Ok::<XrPath, openxr::sys::Result>(paths.right),
        left matches Err(e) ==> r == Err::<SubactionPaths, openxr::sys::Result>(e),
        left is Ok ==> (right matches Err(e) ==> r == Err::<SubactionPaths, openxr::sys::Result>(
            e,
        )),
{
}

/// The text of a hand's path names the hand.
pub proof fn hand_path_names_the_hand(hand: Hand, r: &'static str)
    requires
        call_ensures(SubactionPaths::path_text, (hand,), r),
    ensures
        hand == Hand::Left ==> r@ == "/user/hand/left"@,
        hand == Hand::Right ==> r@ == "/user/hand/right"@,
{
}

} // verus!

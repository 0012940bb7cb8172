//! What holds of tracked devices across several calls.
use vstd::prelude::*;
use crate::device::{DeviceView, TrackedDeviceCreateInfo, TrackedDeviceType};
use crate::hand::Hand;
use crate::input::poses_asked;
use crate::list::{
    controller_index, is_first_controller, is_listed, is_no_tracker, new_trackers, qualifies,
    tracker_device, tracker_report, valid_devices, with_reply, with_trackers, without_trackers,
};
use crate::pose::{SessionData, SpaceQuery, SpaceReply, TrackedDevicePose};
use crate::profiles::InteractionProfile;
use crate::vr::{
    ETrackedDeviceProperty, ETrackingUniverseOrigin, MAX_TRACKED_DEVICE_COUNT,
    TRACKED_DEVICE_INDEX_INVALID,
};
use crate::xdev::Xdev;

pub mod lists;
pub mod poses;
pub mod properties;
pub mod questions;
pub mod states;
pub mod trackers;

verus! {

/// A change of connection is reported once: noting it a second time reports no
/// change, with the connection as it is.
pub proof fn connection_change_is_reported_once(device: DeviceView)
    ensures
        device.connection_noted().connection_change() == Err::<bool, bool>(device.connected),
        device.connection_noted().connection_noted() == device.connection_noted(),
{
}

/// Once the connection has been noted, changing it is reported as a change from
/// what it was, and changing it back before anyone looks is not reported.
pub proof fn connection_change_is_reported(device: DeviceView, connected: bool)
    ensures
        (DeviceView { connected, ..device.connection_noted() }).connection_change() == if connected
            != device.connected {
            Ok::<bool, bool>(device.connected)
        } else {
            Err::<bool, bool>(device.connected)
        },
{
}

/// Of new devices, a headset reports at once that it has been connected, and no
/// other device reports a change.
pub proof fn new_hmd_reports_its_connection(info: TrackedDeviceCreateInfo)
    ensures
        DeviceView::created(info).connection_change() == if info.device_type
            == TrackedDeviceType::Hmd {
            Ok::<bool, bool>(false)
        } else {
            Err::<bool, bool>(false)
        },
{
}

/// A pose that a device has answered with is its only answer from then on, to
/// whichever origin and whatever the runtime says, until the cache is cleared.
pub proof fn answered_pose_is_kept<F: FnOnce(SpaceQuery) -> SpaceReply>(
    device: DeviceView,
    pose: TrackedDevicePose,
    session: SessionData,
    origin: ETrackingUniverseOrigin,
    locate: F,
    later: Option<TrackedDevicePose>,
)
    ensures
        device.with_pose_cache(Some(pose)).answers(session, origin, locate, later) <==> later
            == Some(pose),
{
}

/// Once the cache is cleared, the pose is worked out anew, as if none had ever been
/// cached.
pub proof fn cleared_pose_is_worked_out_anew<F: FnOnce(SpaceQuery) -> SpaceReply>(
    device: DeviceView,
    session: SessionData,
    origin: ETrackingUniverseOrigin,
    locate: F,
    pose: Option<TrackedDevicePose>,
)
    ensures
        device.with_pose_cache(None).answers(session, origin, locate, pose) <==> device.located(
            session,
            origin,
            locate,
            pose,
        ),
{
    let cleared = device.with_pose_cache(None);
    assert(forall|reply: SpaceReply| cleared.pose_from(reply) == device.pose_from(reply));
}

/// Asking all devices for their poses again leaves each pose that was there as it
/// was, to whichever origin and whatever the runtime says.
pub proof fn asking_again_keeps_the_poses<F: Fn(SpaceQuery) -> SpaceReply>(
    session: SessionData,
    origin: ETrackingUniverseOrigin,
    locate: F,
    devices: Seq<DeviceView>,
    after: Seq<DeviceView>,
    n: int,
)
    requires
        poses_asked(session, origin, locate, devices, after, n),
    ensures
        forall|k: int|
            0 <= k < devices.len() && devices[k].pose_cache is Some ==> (#[trigger] after[k])
                == devices[k],
{
}

/// A pose that is worked out for a generic tracker is valid and that of a connected
/// device, whatever the runtime says of it.
pub proof fn tracker_pose_is_valid<F: FnOnce(SpaceQuery) -> SpaceReply>(
    device: DeviceView,
    session: SessionData,
    origin: ETrackingUniverseOrigin,
    locate: F,
    pose: TrackedDevicePose,
)
    requires
        device.device_type == TrackedDeviceType::GenericTracker,
        device.located(session, origin, locate, Some(pose)),
    ensures
        pose.pose_is_valid,
        pose.device_is_connected,
{
}

/// A generic tracker reports the same texts as a left controller with the same
/// interaction profile, but for its serial number.
pub proof fn tracker_reports_like_left_controller(
    tracker: DeviceView,
    controller: DeviceView,
    prop: ETrackedDeviceProperty,
)
    requires
        tracker.device_type == TrackedDeviceType::GenericTracker,
        controller.device_type == (TrackedDeviceType::Controller { hand: Hand::Left }),
        tracker.interaction_profile == controller.interaction_profile,
        prop != ETrackedDeviceProperty::SerialNumberString,
    ensures
        tracker.string_property(prop) == controller.string_property(prop),
{
}

/// The controller index of a hand is that of the first controller for it, and is
/// invalid exactly if there is no controller for it.
pub proof fn controller_index_is_first(devices: Seq<DeviceView>, hand: Hand)
    requires
        valid_devices(devices),
    ensures
        controller_index(devices, hand) == TRACKED_DEVICE_INDEX_INVALID <==> (forall|i: int|
            0 <= i < devices.len() ==> (#[trigger] devices[i]).hand() != Some(hand)),
        controller_index(devices, hand) != TRACKED_DEVICE_INDEX_INVALID ==> is_first_controller(
            devices,
            hand,
            controller_index(devices, hand),
        ),
{
    if exists|i: int| 0 <= i < devices.len() && (#[trigger] devices[i]).hand() == Some(hand) {
        let i = choose|i: int|
            0 <= i < devices.len() && (#[trigger] devices[i]).hand() == Some(hand);
        lemma_first_controller_exists(devices, hand, i);
    }
}

proof fn lemma_first_controller_exists(devices: Seq<DeviceView>, hand: Hand, i: int)
    requires
        0 <= i < devices.len(),
        devices[i].hand() == Some(hand),
    ensures
        exists|first: int| is_first_controller(devices, hand, first),
    decreases i,
{
    if !is_first_controller(devices, hand, i) {
        let j = choose|j: int| 0 <= j < i && (#[trigger] devices[j]).hand() == Some(hand);
        lemma_first_controller_exists(devices, hand, j);
    }
}

/// The first controller for a hand keeps its index when a device is added; only
/// where there was none can the added device become it.
pub proof fn controller_index_is_stable(
    devices: Seq<DeviceView>,
    device: DeviceView,
    hand: Hand,
)
    requires
        valid_devices(devices),
        valid_devices(devices.push(device)),
    ensures
        controller_index(devices.push(device), hand) == if controller_index(devices, hand)
            != TRACKED_DEVICE_INDEX_INVALID {
            controller_index(devices, hand)
        } else if device.hand() == Some(hand) {
            devices.len() as int
        } else {
            TRACKED_DEVICE_INDEX_INVALID as int
        },
{
    let more = devices.push(device);
    controller_index_is_first(devices, hand);
    controller_index_is_first(more, hand);
    let index = controller_index(devices, hand);
    if index != TRACKED_DEVICE_INDEX_INVALID {
        assert(is_first_controller(more, hand, index));
    } else if device.hand() == Some(hand) {
        assert(is_first_controller(more, hand, devices.len() as int));
    }
}

/// Creating generic trackers leaves a valid list whose headset is the same as
/// before, at the same index.
pub proof fn trackers_keep_the_list_valid(
    devices: Seq<DeviceView>,
    profile: &'static InteractionProfile,
    found: Result<Vec<Xdev>, openxr::sys::Result>,
)
    requires
        valid_devices(devices),
    ensures
        valid_devices(with_reply(without_trackers(devices), profile, found)),
        with_reply(without_trackers(devices), profile, found)[0] == devices[0],
{
    crate::list::lemma_without_trackers_valid(devices);
}

/// Creating generic trackers leaves all other devices as they were, in their order.
pub proof fn trackers_leave_other_devices(
    devices: Seq<DeviceView>,
    profile: &'static InteractionProfile,
    found: Result<Vec<Xdev>, openxr::sys::Result>,
)
    requires
        valid_devices(devices),
    ensures
        without_trackers(with_reply(without_trackers(devices), profile, found))
            == without_trackers(devices),
{
    let keep = is_no_tracker();
    let kept = without_trackers(devices);
    let after = with_reply(kept, profile, found);
    crate::list::lemma_without_trackers_valid(devices);
    lemma_filter_of_all(kept, keep);
    if found is Ok {
        let trackers = after.skip(kept.len() as int);
        assert(after =~= kept + trackers);
        Seq::filter_distributes_over_add(kept, trackers, keep);
        trackers.lemma_all_neg_filter_empty(keep);
    }
}

/// Creating generic trackers leaves each hand its controller: the first controller
/// for it is the same device as before, or there is still none. Its index is the
/// number of devices before it that are no generic trackers.
pub proof fn trackers_leave_the_controllers(
    devices: Seq<DeviceView>,
    profile: &'static InteractionProfile,
    found: Result<Vec<Xdev>, openxr::sys::Result>,
    hand: Hand,
)
    requires
        valid_devices(devices),
    ensures
        ({
            let before = controller_index(devices, hand);
            let after = with_reply(without_trackers(devices), profile, found);
            let index = controller_index(after, hand);
            if before == TRACKED_DEVICE_INDEX_INVALID {
                index == TRACKED_DEVICE_INDEX_INVALID
            } else {
                &&& index == without_trackers(devices.take(before)).len()
                &&& is_first_controller(after, hand, index)
                &&& after[index] == devices[before]
            }
        }),
{
    let before = controller_index(devices, hand);
    let kept = without_trackers(devices);
    let after = with_reply(kept, profile, found);
    trackers_keep_the_list_valid(devices, profile, found);
    controller_index_is_first(devices, hand);
    controller_index_is_first(after, hand);
    // What follows the kept devices is in no hand
    assert(forall|i: int| kept.len() <= i < after.len() ==> (#[trigger] after[i]).hand() is None);
    if before == TRACKED_DEVICE_INDEX_INVALID {
        assert forall|i: int| 0 <= i < kept.len() implies (#[trigger] kept[i]).hand() != Some(
            hand,
        ) by {
            assert(kept.contains(kept[i]));
            devices.lemma_filter_contains_rev(is_no_tracker(), kept[i]);
        }
    } else {
        lemma_first_controller_kept(devices, hand, before);
        let index = without_trackers(devices.take(before)).len() as int;
        assert(is_first_controller(after, hand, index));
    }
}

/// Removing the generic trackers keeps the first controller for a hand.
proof fn lemma_first_controller_kept(devices: Seq<DeviceView>, hand: Hand, i: int)
    requires
        is_first_controller(devices, hand, i),
    ensures
        ({
            let index = without_trackers(devices.take(i)).len() as int;
            &&& is_first_controller(without_trackers(devices), hand, index)
            &&& without_trackers(devices)[index] == devices[i]
        }),
{
    let kept = without_trackers(devices);
    let head = devices.take(i);
    let kept_head = without_trackers(head);
    assert(devices =~= head.push(devices[i]) + devices.skip(i + 1));
    Seq::filter_distributes_over_add(
        head.push(devices[i]),
        devices.skip(i + 1),
        is_no_tracker(),
    );
    head.lemma_filter_push(devices[i], is_no_tracker());
    assert forall|j: int| 0 <= j < kept_head.len() implies (#[trigger] kept[j]).hand() != Some(
        hand,
    ) by {
        assert(kept[j] == kept_head[j]);
        assert(kept_head.contains(kept_head[j]));
        head.lemma_filter_contains_rev(is_no_tracker(), kept_head[j]);
    }
}

/// Creating generic trackers again, with the same reply of the runtime, changes
/// nothing.
pub proof fn creating_trackers_again_changes_nothing(
    devices: Seq<DeviceView>,
    profile: &'static InteractionProfile,
    found: Result<Vec<Xdev>, openxr::sys::Result>,
)
    requires
        valid_devices(devices),
    ensures
        ({
            let once = with_reply(without_trackers(devices), profile, found);
            with_reply(without_trackers(once), profile, found) == once
        }),
{
    trackers_leave_other_devices(devices, profile, found);
}

/// If the runtime found no more devices than it was asked for, no tracker among
/// them is left out, and none is reported as left out.
pub proof fn no_tracker_is_left_out(
    devices: Seq<DeviceView>,
    profile: &'static InteractionProfile,
    found: Vec<Xdev>,
)
    requires
        valid_devices(devices),
        found@.len() <= MAX_TRACKED_DEVICE_COUNT - devices.len(),
    ensures
        with_reply(devices, profile, Ok(found)) == devices + new_trackers(
            devices,
            found@,
        ).map_values(|xdev: Xdev| tracker_device(profile, xdev)),
        tracker_report(devices, Ok(found)) matches Ok(report) && report.left_out == 0,
{
    found@.lemma_filter_len(qualifies(devices));
}

/// The number of devices that are added is the number of those that qualified less
/// the number of those that were left out.
pub proof fn report_counts_the_added_devices(
    devices: Seq<DeviceView>,
    profile: &'static InteractionProfile,
    found: Vec<Xdev>,
)
    requires
        valid_devices(devices),
    ensures
        tracker_report(devices, Ok(found)) matches Ok(report) && with_reply(
            devices,
            profile,
            Ok(found),
        ).len() == devices.len() + report.qualified - report.left_out,
{
    found@.lemma_filter_len(qualifies(devices));
    assert(found@.len() == found.len());
}

/// Every device that creating generic trackers adds is a connected generic tracker
/// with the given profile, made from a device that the runtime found, that can be
/// followed, calls itself a tracker and was not listed before.
pub proof fn added_devices_are_trackers(
    devices: Seq<DeviceView>,
    profile: &'static InteractionProfile,
    found: Seq<Xdev>,
    i: int,
)
    requires
        valid_devices(devices),
        devices.len() <= i < with_trackers(devices, profile, new_trackers(devices, found)).len(),
    ensures
        ({
            let added = with_trackers(devices, profile, new_trackers(devices, found))[i];
            &&& added.device_type == TrackedDeviceType::GenericTracker
            &&& added.connected
            &&& added.interaction_profile == Some(profile)
            &&& added.xdev is Some
            &&& found.contains(added.xdev->0)
            &&& added.xdev->0.spec_is_generic_tracker()
            &&& !is_listed(devices, added.xdev->0)
        }),
{
    let chosen = new_trackers(devices, found);
    let xdev = chosen[i - devices.len()];
    found.lemma_filter_pred(qualifies(devices), i - devices.len());
    assert(chosen.contains(xdev));
    found.lemma_filter_contains_rev(qualifies(devices), xdev);
    assert(with_trackers(devices, profile, chosen)[i] == tracker_device(profile, xdev));
}

/// Filtering keeps a sequence whose elements all pass.
proof fn lemma_filter_of_all<A>(s: Seq<A>, pred: spec_fn(A) -> bool)
    requires
        forall|i: int| 0 <= i < s.len() ==> pred(#[trigger] s[i]),
    ensures
        s.filter(pred) == s,
    decreases s.len(),
{
    reveal(Seq::filter);
    if s.len() > 0 {
        lemma_filter_of_all(s.drop_last(), pred);
    }
}

} // verus!

//! Where devices are, by what the runtime says of their spaces.
use vstd::prelude::*;
use crate::device::{DeviceView, TrackedDeviceType, XrTrackedDevice};
use crate::hand::Hand;
use crate::input::{slot_filled, Input};
use crate::pose::{DeviceSpace, SessionData, SpaceQuery, SpaceReply, TrackedDevicePose};
use crate::vr::ETrackingUniverseOrigin;

verus! {

/// A headset without a cached pose is where the runtime says that the view space is,
/// relative to the origin: its pose is that of the relation, in every field, and it has
/// none if the runtime could not relate the space.
pub proof fn hmd_is_where_the_view_is<F: FnOnce(SpaceQuery) -> SpaceReply>(
    device: DeviceView,
    session: SessionData,
    origin: ETrackingUniverseOrigin,
    locate: F,
    pose: Option<TrackedDevicePose>,
)
    requires
        device.device_type == TrackedDeviceType::Hmd,
        device.pose_cache is None,
    ensures
        device.answers(session, origin, locate, pose) <==> exists|reply: SpaceReply|
            {
                &&& #[trigger] call_ensures(
                    locate,
                    (SpaceQuery { space: DeviceSpace::View, origin },),
                    reply,
                )
                &&& reply matches SpaceReply::Related(related) ==> pose == Some(related)
                &&& !(reply is Related) ==> pose is None
            },
{
}

/// A controller without a cached pose is where the runtime says that the raw space of its
/// hand, for its interaction profile, is: its pose is that of the relation, in every
/// field. Without a raw space it has the empty pose, and none if the space could not be
/// related or the actions that it is made from do not exist.
pub proof fn controller_is_where_its_raw_space_is<F: FnOnce(SpaceQuery) -> SpaceReply>(
    device: DeviceView,
    hand: Hand,
    session: SessionData,
    origin: ETrackingUniverseOrigin,
    locate: F,
    pose: Option<TrackedDevicePose>,
)
    requires
        device.device_type == (TrackedDeviceType::Controller { hand }),
        device.pose_cache is None,
    ensures
        !session.legacy_actions ==> (device.answers(session, origin, locate, pose) <==> pose
            is None),
        session.legacy_actions ==> (device.answers(session, origin, locate, pose) <==> exists|
            reply: SpaceReply,
        |
            {
                &&& #[trigger] call_ensures(
                    locate,
                    (SpaceQuery {
                        space: DeviceSpace::ControllerRaw {
                            hand,
                            profile: device.interaction_profile,
                        },
                        origin,
                    },),
                    reply,
                )
                &&& reply matches SpaceReply::Related(related) ==> pose == Some(related)
                &&& reply matches SpaceReply::NoRawSpace(empty) ==> pose == Some(empty)
                &&& reply is Failed ==> pose is None
            }),
{
}

/// A generic tracker without a cached pose is where the runtime says that its own space
/// is: its pose is that of the relation, but always valid and that of a connected device.
/// It has none if it has no space or the runtime could not relate it.
pub proof fn tracker_is_where_its_space_is<F: FnOnce(SpaceQuery) -> SpaceReply>(
    device: DeviceView,
    session: SessionData,
    origin: ETrackingUniverseOrigin,
    locate: F,
    pose: Option<TrackedDevicePose>,
)
    requires
        device.device_type == TrackedDeviceType::GenericTracker,
        device.pose_cache is None,
    ensures
        device.xdev is None || device.xdev->0.space is None ==> (device.answers(
            session,
            origin,
            locate,
            pose,
        ) <==> pose is None),
        device.xdev is Some && device.xdev->0.space is Some ==> (device.answers(
            session,
            origin,
            locate,
            pose,
        ) <==> exists|reply: SpaceReply|
            {
                &&& #[trigger] call_ensures(
                    locate,
                    (SpaceQuery {
                        space: DeviceSpace::Xdev { handle: device.xdev->0.space->0 },
                        origin,
                    },),
                    reply,
                )
                &&& reply matches SpaceReply::Related(related) ==> {
                    &&& pose is Some
                    &&& pose->0.device_to_absolute_tracking == related.device_to_absolute_tracking
                    &&& pose->0.velocity == related.velocity
                    &&& pose->0.angular_velocity == related.angular_velocity
                    &&& pose->0.tracking_result == related.tracking_result
                    &&& pose->0.pose_is_valid
                    &&& pose->0.device_is_connected
                }
                &&& !(reply is Related) ==> pose is None
            }),
{
}

/// A device with a cached pose gives that pose, without regard to the origin or to what
/// the runtime says; else it answers for the given session and origin. Either way its
/// answer is then cached, and nothing else of it changes.
pub proof fn pose_is_answered_and_cached<F: FnOnce(SpaceQuery) -> SpaceReply>(
    device: &mut XrTrackedDevice,
    session: SessionData,
    origin: ETrackingUniverseOrigin,
    locate: F,
    pose: Option<TrackedDevicePose>,
)
    requires
        call_ensures(XrTrackedDevice::get_pose::<F>, (device, &session, origin, locate), pose),
    ensures
        old(device)@.pose_cache is Some ==> pose == old(device)@.pose_cache,
        old(device)@.pose_cache is None ==> old(device)@.answers(session, origin, locate, pose),
        final(device)@ == (DeviceView { pose_cache: pose, ..old(device)@ }),
{
}

/// Asked by index, a device gives the pose that it has cached; else it answers for the
/// origin that is asked for, or for the session's current origin where none is asked for.
/// Its answer is then cached, and nothing else changes. Where there is no device, there
/// is no pose.
pub proof fn pose_by_index_uses_the_origin_asked_for<F: FnOnce(SpaceQuery) -> SpaceReply>(
    input: &mut Input,
    i: u32,
    origin: Option<ETrackingUniverseOrigin>,
    locate: F,
    pose: Option<TrackedDevicePose>,
)
    requires
        call_ensures(Input::get_device_pose::<F>, (input, i, origin, locate), pose),
    ensures
        final(input).session == old(input).session,
        final(input).profile_map == old(input).profile_map,
        i >= old(input).devices@.len() ==> pose is None && final(input).devices@
            == old(input).devices@,
        i < old(input).devices@.len() ==> {
            let device = old(input).devices@[i as int];
            let session = old(input).session;
            &&& device.pose_cache is Some ==> pose == device.pose_cache
            &&& device.pose_cache is None && origin is None ==> device.answers(
                session,
                session.current_origin,
                locate,
                pose,
            )
            &&& device.pose_cache is None && origin is Some ==> device.answers(
                session,
                origin->0,
                locate,
                pose,
            )
            &&& final(input).devices@.len() == old(input).devices@.len()
            &&& final(input).devices@[i as int] == (DeviceView { pose_cache: pose, ..device })
            &&& forall|j: int|
                0 <= j < old(input).devices@.len() && j != i ==> (
                #[trigger] final(input).devices@[j]) == old(input).devices@[j]
        },
{
}

/// Asked by index, a headset without a cached pose is looked for in the view space,
/// relative to the origin that is asked for, or to the session's current origin where none
/// is asked for; the pose that the runtime relates is the result.
pub proof fn hmd_is_located_from_the_current_origin<F: FnOnce(SpaceQuery) -> SpaceReply>(
    input: &mut Input,
    i: u32,
    origin: Option<ETrackingUniverseOrigin>,
    locate: F,
    pose: Option<TrackedDevicePose>,
)
    requires
        i < old(input).devices@.len(),
        old(input).devices@[i as int].device_type == TrackedDeviceType::Hmd,
        old(input).devices@[i as int].pose_cache is None,
        call_ensures(Input::get_device_pose::<F>, (input, i, origin, locate), pose),
    ensures
        exists|query: SpaceQuery, reply: SpaceReply|
            {
                &&& #[trigger] call_ensures(locate, (query,), reply)
                &&& query.space == DeviceSpace::View
                &&& origin is None ==> query.origin == old(input).session.current_origin
                &&& origin is Some ==> query.origin == origin->0
                &&& reply matches SpaceReply::Related(related) ==> pose == Some(related)
                &&& !(reply is Related) ==> pose is None
            },
{
    let at = if origin is Some {
        origin->0
    } else {
        old(input).session.current_origin
    };
    pose_by_index_uses_the_origin_asked_for(input, i, origin, locate, pose);
    hmd_is_where_the_view_is(old(input).devices@[i as int], old(input).session, at, locate, pose);
}

/// Asked for by hand, the first controller for it is looked for, if it has no cached pose
/// and the session has set up the actions, in the raw space of that hand and of its
/// profile, relative to the origin that is asked for, or to the session's current origin
/// where none is asked for. The pose that the runtime relates is the result, velocities
/// and all.
pub proof fn controller_pose_is_the_related_pose<F: FnOnce(SpaceQuery) -> SpaceReply>(
    input: &mut Input,
    hand: Hand,
    i: int,
    origin: Option<ETrackingUniverseOrigin>,
    locate: F,
    pose: Option<TrackedDevicePose>,
)
    requires
        0 <= i < old(input).devices@.len() <= 64,
        old(input).devices@[i].device_type == (TrackedDeviceType::Controller { hand }),
        forall|j: int|
            0 <= j < i ==> (#[trigger] old(input).devices@[j]).device_type
                != (TrackedDeviceType::Controller { hand }),
        call_ensures(Input::get_controller_pose::<F>, (input, hand, origin, locate), pose),
    ensures
        old(input).devices@[i].pose_cache is Some ==> pose == old(input).devices@[i].pose_cache,
        old(input).devices@[i].pose_cache is None && !old(input).session.legacy_actions ==> pose
            is None,
        old(input).devices@[i].pose_cache is None && old(input).session.legacy_actions ==> exists|
            query: SpaceQuery,
            reply: SpaceReply,
        |
            {
                &&& #[trigger] call_ensures(locate, (query,), reply)
                &&& query.space == (DeviceSpace::ControllerRaw {
                    hand,
                    profile: old(input).devices@[i].interaction_profile,
                })
                &&& origin is None ==> query.origin == old(input).session.current_origin
                &&& origin is Some ==> query.origin == origin->0
                &&& reply matches SpaceReply::Related(related) ==> pose == Some(related)
                &&& reply matches SpaceReply::NoRawSpace(empty) ==> pose == Some(empty)
                &&& reply is Failed ==> pose is None
            },
        final(input).session == old(input).session,
        final(input).profile_map == old(input).profile_map,
        final(input).devices@.len() == old(input).devices@.len(),
        final(input).devices@[i] == (DeviceView { pose_cache: pose, ..old(input).devices@[i] }),
        forall|j: int|
            0 <= j < old(input).devices@.len() && j != i ==> (#[trigger] final(input).devices@[j])
                == old(input).devices@[j],
{
    let device = old(input).devices@[i];
    let at = if origin is Some {
        origin->0
    } else {
        old(input).session.current_origin
    };
    super::lists::lemma_first_controller_index(old(input).devices@, hand, i);
    if device.pose_cache is None {
        controller_is_where_its_raw_space_is(device, hand, old(input).session, at, locate, pose);
    }
}

/// A hand without a controller has no pose, and asking for it changes nothing.
pub proof fn without_controller_there_is_no_pose<F: FnOnce(SpaceQuery) -> SpaceReply>(
    input: &mut Input,
    hand: Hand,
    origin: Option<ETrackingUniverseOrigin>,
    locate: F,
    pose: Option<TrackedDevicePose>,
)
    requires
        forall|j: int|
            0 <= j < old(input).devices@.len() ==> (#[trigger] old(input).devices@[j]).device_type
                != (TrackedDeviceType::Controller { hand }),
        call_ensures(Input::get_controller_pose::<F>, (input, hand, origin, locate), pose),
    ensures
        pose is None,
        final(input).session == old(input).session,
        final(input).profile_map == old(input).profile_map,
        final(input).devices@ == old(input).devices@,
{
    super::lists::lemma_no_controller_index(old(input).devices@, hand);
}

/// Asking for all poses gives each slot the pose of the device with its index, for the
/// origin that is asked for, or for the session's current origin where none is asked for;
/// that pose is then cached. A device without a pose leaves `missing` in its slot, and a
/// slot without a device keeps what it held. Nothing else changes.
pub proof fn each_slot_gets_the_pose_of_its_device<F: Fn(SpaceQuery) -> SpaceReply>(
    input: &mut Input,
    poses: &mut [TrackedDevicePose],
    origin: Option<ETrackingUniverseOrigin>,
    missing: TrackedDevicePose,
    locate: &F,
    i: int,
)
    requires
        old(poses)@.len() <= 0x1_0000_0000,
        call_ensures(Input::get_poses::<F>, (input, poses, origin, missing, locate), ()),
    ensures
        final(input).session == old(input).session,
        final(input).profile_map == old(input).profile_map,
        final(poses)@.len() == old(poses)@.len(),
        final(input).devices@.len() == old(input).devices@.len(),
        old(input).devices@.len() <= i < old(poses)@.len() ==> final(poses)@[i] == old(poses)@[i],
        old(poses)@.len() <= i < old(input).devices@.len() ==> final(input).devices@[i]
            == old(input).devices@[i],
        0 <= i < old(poses)@.len() && i < old(input).devices@.len() ==> {
            let session = old(input).session;
            let device = old(input).devices@[i];
            let pose = final(input).devices@[i].pose_cache;
            &&& device.pose_cache is Some ==> pose == device.pose_cache
            &&& device.pose_cache is None && origin is None ==> device.answers(
                session,
                session.current_origin,
                *locate,
                pose,
            )
            &&& device.pose_cache is None && origin is Some ==> device.answers(
                session,
                origin->0,
                *locate,
                pose,
            )
            &&& final(input).devices@[i] == (DeviceView { pose_cache: pose, ..device })
            &&& pose is Some ==> final(poses)@[i] == pose->0
            &&& pose is None ==> final(poses)@[i] == missing
        },
{
}

/// Beyond 32 bits the slots start over with the first device: a slot holds what the device
/// at its index, in 32 bits, could have answered for the origin that is asked for, or for
/// the session's current origin where none is, or `missing` where that is no pose.
pub proof fn slots_beyond_32_bits_start_over<F: Fn(SpaceQuery) -> SpaceReply>(
    input: &mut Input,
    poses: &mut [TrackedDevicePose],
    origin: Option<ETrackingUniverseOrigin>,
    at: ETrackingUniverseOrigin,
    missing: TrackedDevicePose,
    locate: &F,
    i: int,
)
    requires
        0 <= i < old(poses)@.len(),
        origin is Some ==> at == origin->0,
        origin is None ==> at == old(input).session.current_origin,
        call_ensures(Input::get_poses::<F>, (input, poses, origin, missing, locate), ()),
    ensures
        (i as u32) >= old(input).devices@.len() ==> final(poses)@[i] == old(poses)@[i],
        (i as u32) < old(input).devices@.len() ==> exists|pose: Option<TrackedDevicePose>|
            {
                &&& #[trigger] old(input).devices@[(i as u32) as int].answers(
                    old(input).session,
                    at,
                    *locate,
                    pose,
                )
                &&& pose is Some ==> final(poses)@[i] == pose->0
                &&& pose is None ==> final(poses)@[i] == missing
            },
{
    assert((i as u32) < old(input).devices@.len() ==> slot_filled(
        old(input).session,
        at,
        *locate,
        old(input).devices@[(i as u32) as int],
        missing,
        final(poses)@[i],
    ));
}

/// What a reply of the runtime makes of a pose: a headset and a controller take the
/// related pose as it is, and a generic tracker takes it as valid and connected. Only a
/// controller has a pose without a raw space, the empty one. A failure gives none.
pub proof fn replies_are_taken_as_they_are(
    reply: SpaceReply,
    hmd: Option<TrackedDevicePose>,
    controller: Option<TrackedDevicePose>,
    tracker: Option<TrackedDevicePose>,
)
    requires
        call_ensures(SpaceReply::hmd_pose, (reply,), hmd),
        call_ensures(SpaceReply::controller_pose, (reply,), controller),
        call_ensures(SpaceReply::generic_tracker_pose, (reply,), tracker),
    ensures
        reply matches SpaceReply::Related(pose) ==> {
            &&& hmd == Some(pose)
            &&& controller == Some(pose)
            &&& tracker == Some(
                TrackedDevicePose { pose_is_valid: true, device_is_connected: true, ..pose },
            )
        },
        reply matches SpaceReply::NoRawSpace(empty) ==> {
            &&& hmd is None
            &&& controller == Some(empty)
            &&& tracker is None
        },
        reply is Failed ==> hmd is None && controller is None && tracker is None,
{
}

} // verus!

//! The questions about tracked devices that OpenVR asks.
use std::collections::HashMap;
use vstd::prelude::*;
use crate::device::{DeviceView, TrackedDeviceType};
use crate::hand::Hand;
use crate::list::{controller_index, is_first_controller, TrackedDeviceList};
use crate::pose::{SessionData, SpaceQuery, SpaceReply, TrackedDevicePose};
use crate::profiles::ProfileProperties;
use crate::vr::{
    ETrackedDeviceProperty, ETrackingUniverseOrigin, TrackedDeviceIndex,
    TRACKED_DEVICE_INDEX_INVALID,
};

verus! {

broadcast use vstd::std_specs::hash::group_hash_axioms;

/// The tracked devices of a session, with what is needed to answer for them.
#[derive(Debug)]
pub struct Input {
    pub devices: TrackedDeviceList,
    pub session: SessionData,
    /// The properties of each known kind of controller, by the raw path of its
    /// interaction profile.
    pub profile_map: HashMap<u64, ProfileProperties>,
}

/// The origin that poses are asked for relative to, where `origin` may leave it to
/// the session.
pub open spec fn chosen_origin(
    session: SessionData,
    origin: Option<ETrackingUniverseOrigin>,
) -> ETrackingUniverseOrigin {
    match origin {
        Some(origin) => origin,
        None => session.current_origin,
    }
}

impl Input {
    /// The list of devices is valid.
    pub open spec fn wf(&self) -> bool {
        self.devices.wf()
    }

    /// Everything but the devices is as in `other`.
    pub open spec fn same_setup(&self, other: Input) -> bool {
        self.session == other.session && self.profile_map == other.profile_map
    }

    /// The device at `index`, if there is one.
    pub open spec fn device(&self, index: TrackedDeviceIndex) -> Option<DeviceView> {
        if index < self.devices@.len() {
            Some(self.devices@[index as int])
        } else {
            None
        }
    }

    /// The properties of the first controller for `hand`, as far as its interaction
    /// profile is known.
    pub open spec fn profile_data(&self, hand: Hand) -> Option<ProfileProperties> {
        let index = controller_index(self.devices@, hand);
        if index == TRACKED_DEVICE_INDEX_INVALID {
            None
        } else {
            let path = self.devices@[index].profile_path;
            if self.profile_map@.contains_key(path.raw) {
                Some(self.profile_map@[path.raw])
            } else {
                None
            }
        }
    }

    /// The text that the device at `index` reports for `property`.
    pub fn get_device_string_property(
        &self,
        index: TrackedDeviceIndex,
        property: ETrackedDeviceProperty,
    ) -> (r: Option<&[u8]>)
        ensures
            crate::profiles::text_of(r) == match self.device(index) {
                Some(device) => device.string_property(property),
                None => None,
            },
            r matches Some(text) ==> self.devices@[index as int].is_c_text(property, text@),
    {
        match self.devices.get_device(index) {
            Some(device) => device.get_string_property(property),
            None => None,
        }
    }

    /// Whether there is a device at `index` and it is connected.
    pub fn is_device_connected(&self, index: TrackedDeviceIndex) -> (r: bool)
        ensures
            r == (self.device(index) matches Some(device) && device.connected),
    {
        match self.devices.get_device(index) {
            Some(device) => device.connected(),
            None => false,
        }
    }

    /// What kind of device the one at `index` is.
    pub fn device_index_to_device_type(&self, index: TrackedDeviceIndex) -> (r: Option<
        TrackedDeviceType,
    >)
        ensures
            r == match self.device(index) {
                Some(device) => Some(device.device_type),
                None => None,
            },
    {
        match self.devices.get_device(index) {
            Some(device) => Some(device.get_type()),
            None => None,
        }
    }

    /// The hand that the device at `index` is held in, if it is a controller.
    pub fn device_index_to_hand(&self, index: TrackedDeviceIndex) -> (r: Option<Hand>)
        ensures
            r == match self.device(index) {
                Some(device) => device.hand(),
                None => None,
            },
    {
        match self.devices.get_device(index) {
            Some(device) => device.get_controller_hand(),
            None => None,
        }
    }

    /// The index of the first controller for `hand`.
    pub fn get_controller_device_index(&self, hand: Hand) -> (r: Option<TrackedDeviceIndex>)
        requires
            self.wf(),
        ensures
            r matches Some(index) ==> {
                &&& index == controller_index(self.devices@, hand)
                &&& is_first_controller(self.devices@, hand, index as int)
            },
            r is None <==> controller_index(self.devices@, hand) == TRACKED_DEVICE_INDEX_INVALID,
    {
        let index = self.devices.get_controller_index(hand);
        if index == TRACKED_DEVICE_INDEX_INVALID {
            return None;
        }
        Some(index)
    }

    /// The properties of the first controller for `hand`, as far as its interaction
    /// profile is known.
    pub fn get_profile_data(&self, hand: Hand) -> (r: Option<&ProfileProperties>)
        requires
            self.wf(),
        ensures
            r is Some <==> self.profile_data(hand) is Some,
            r matches Some(data) ==> *data == self.profile_data(hand)->0,
    {
        match self.devices.get_controller(hand) {
            Some(controller) => self.profile_map.get(&controller.get_profile_path().raw),
            None => None,
        }
    }

    /// The number that the controller for `hand` reports for `property`, if that is
    /// the type of one of its axes.
    pub fn get_controller_int_tracked_property(
        &self,
        hand: Hand,
        property: ETrackedDeviceProperty,
    ) -> (r: Option<i32>)
        requires
            self.wf(),
        ensures
            r == match self.profile_data(hand) {
                Some(data) => data.spec_int_property(property),
                None => None,
            },
    {
        match self.get_profile_data(hand) {
            Some(data) => data.int_property(property),
            None => None,
        }
    }

    /// The number that the controller for `hand` reports for `property`, if that is
    /// the mask of its buttons.
    pub fn get_controller_uint_tracked_property(
        &self,
        hand: Hand,
        property: ETrackedDeviceProperty,
    ) -> (r: Option<u64>)
        requires
            self.wf(),
        ensures
            r == match self.profile_data(hand) {
                Some(data) => data.spec_uint_property(property),
                None => None,
            },
    {
        match self.get_profile_data(hand) {
            Some(data) => data.uint_property(property),
            None => None,
        }
    }

    /// The pose of the device at `index`, relative to `origin` or else to the
    /// session's current origin. `locate` is asked at most once.
    pub fn get_device_pose<F: FnOnce(SpaceQuery) -> SpaceReply>(
        &mut self,
        index: TrackedDeviceIndex,
        origin: Option<ETrackingUniverseOrigin>,
        locate: F,
    ) -> (pose: Option<TrackedDevicePose>)
        requires
            old(self).wf(),
            old(self).device(index) matches Some(device) ==> (device.query(
                old(self).session,
                chosen_origin(old(self).session, origin),
            ) matches Some(query) ==> call_requires(locate, (query,))),
        ensures
            final(self).wf(),
            final(self).same_setup(*old(self)),
            old(self).device(index) is None ==> {
                &&& pose is None
                &&& final(self).devices@ == old(self).devices@
            },
            old(self).device(index) matches Some(device) ==> {
                &&& device.answers(
                    old(self).session,
                    chosen_origin(old(self).session, origin),
                    locate,
                    pose,
                )
                &&& final(self).devices@ == old(self).devices@.update(
                    index as int,
                    device.with_pose_cache(pose),
                )
            },
    {
        let session = self.session;
        match self.devices.get_device_mut(index) {
            Some(device) => device.get_pose(
                &session,
                origin.unwrap_or(session.current_origin),
                locate,
            ),
            None => None,
        }
    }

    /// The pose of the first controller for `hand`, relative to `origin` or else to
    /// the session's current origin. `locate` is asked at most once.
    pub fn get_controller_pose<F: FnOnce(SpaceQuery) -> SpaceReply>(
        &mut self,
        hand: Hand,
        origin: Option<ETrackingUniverseOrigin>,
        locate: F,
    ) -> (pose: Option<TrackedDevicePose>)
        requires
            old(self).wf(),
            old(self).device(
                controller_index(old(self).devices@, hand) as u32,
            ) matches Some(device) ==> (device.query(
                old(self).session,
                chosen_origin(old(self).session, origin),
            ) matches Some(query) ==> call_requires(locate, (query,))),
        ensures
            final(self).wf(),
            final(self).same_setup(*old(self)),
            ({
                let index = controller_index(old(self).devices@, hand);
                if index == TRACKED_DEVICE_INDEX_INVALID {
                    &&& pose is None
                    &&& final(self).devices@ == old(self).devices@
                } else {
                    let device = old(self).devices@[index];
                    &&& device.answers(
                        old(self).session,
                        chosen_origin(old(self).session, origin),
                        locate,
                        pose,
                    )
                    &&& final(self).devices@ == old(self).devices@.update(
                        index,
                        device.with_pose_cache(pose),
                    )
                }
            }),
    {
        let index = self.devices.get_controller_index(hand);
        self.get_device_pose(index, origin, locate)
    }

    /// Fills in the pose of each device, relative to `origin` or else to the session's
    /// current origin. Slots beyond the last device are left alone; a device without
    /// a pose gets `missing`.
    ///
    /// OpenVR counts devices in 32 bits: slot `i` is that of device `i as u32`.
    pub fn get_poses<F: Fn(SpaceQuery) -> SpaceReply>(
        &mut self,
        poses: &mut [TrackedDevicePose],
        origin: Option<ETrackingUniverseOrigin>,
        missing: TrackedDevicePose,
        locate: &F,
    )
        requires
            old(self).wf(),
            can_ask(
                old(self).session,
                chosen_origin(old(self).session, origin),
                *locate,
                old(self).devices@,
                old(poses)@.len() as int,
            ),
        ensures
            final(self).wf(),
            final(self).same_setup(*old(self)),
            poses_asked(
                old(self).session,
                chosen_origin(old(self).session, origin),
                *locate,
                old(self).devices@,
                final(self).devices@,
                old(poses)@.len() as int,
            ),
            final(poses)@.len() == old(poses)@.len(),
            // Slots without a device keep what they held
            forall|i: int|
                0 <= i < old(poses)@.len() && (i as u32) >= old(self).devices@.len() ==> (
                #[trigger] final(poses)@[i]) == old(poses)@[i],
            // The others get a pose of their device
            forall|i: int|
                0 <= i < old(poses)@.len() && (i as u32) < old(self).devices@.len() ==> slot_filled(
                    old(self).session,
                    chosen_origin(old(self).session, origin),
                    *locate,
                    old(self).devices@[(i as u32) as int],
                    missing,
                    #[trigger] final(poses)@[i],
                ),
            // As long as no two slots are of one device, that is the pose that is then cached
            old(poses)@.len() <= u32::MAX + 1 ==> forall|i: int|
                0 <= i < old(poses)@.len() && i < old(self).devices@.len() ==> (
                #[trigger] final(poses)@[i]) == pose_or(
                    final(self).devices@[i].pose_cache,
                    missing,
                ),
    {
        let ghost devices = self.devices@;
        let ghost slots = poses@;
        let ghost at = chosen_origin(self.session, origin);
        let mut i: usize = 0;
        while i < poses.len()
            invariant
                self.wf(),
                self.same_setup(*old(self)),
                at == chosen_origin(old(self).session, origin),
                devices == old(self).devices@,
                devices.len() <= u32::MAX,
                slots == old(poses)@,
                can_ask(old(self).session, at, *locate, devices, slots.len() as int),
                i <= poses@.len(),
                poses@.len() == slots.len(),
                poses_asked(old(self).session, at, *locate, devices, self.devices@, i as int),
                forall|k: int| i <= k < slots.len() ==> (#[trigger] poses@[k]) == slots[k],
                forall|k: int|
                    0 <= k < i && (k as u32) >= devices.len() ==> (#[trigger] poses@[k])
                        == slots[k],
                forall|k: int|
                    0 <= k < i && (k as u32) < devices.len() ==> slot_filled(
                        old(self).session,
                        at,
                        *locate,
                        devices[(k as u32) as int],
                        missing,
                        #[trigger] poses@[k],
                    ),
                i <= u32::MAX + 1 ==> forall|k: int|
                    0 <= k < i && k < devices.len() ==> (#[trigger] poses@[k]) == pose_or(
                        self.devices@[k].pose_cache,
                        missing,
                    ),
            decreases poses@.len() - i,
        {
            let index = i as u32;
            let ghost before = self.devices@;
            if self.devices.get_device(index).is_some() {
                // Having been asked does not give a device a new question
                assert(self.device(index)->0.query(self.session, at) matches Some(query)
                    ==> devices[index as int].query(self.session, at) == Some(query));
                let pose = self.get_device_pose(index, origin, locate);
                proof {
                    let k = index as int;
                    if k < i {
                        lemma_answers_again(
                            devices[k],
                            old(self).session,
                            at,
                            *locate,
                            before[k].pose_cache,
                            pose,
                        );
                    }
                    assert(devices[k].answers(old(self).session, at, *locate, pose));
                }
                poses[i] = match pose {
                    Some(pose) => pose,
                    None => missing,
                };
            }
            i += 1;
        }
    }
}

/// The pose, or `missing` where there is none.
pub open spec fn pose_or(
    pose: Option<TrackedDevicePose>,
    missing: TrackedDevicePose,
) -> TrackedDevicePose {
    match pose {
        Some(pose) => pose,
        None => missing,
    }
}

/// `locate` takes every question that the first `n` of `devices` have.
pub open spec fn can_ask<F: Fn(SpaceQuery) -> SpaceReply>(
    session: SessionData,
    origin: ETrackingUniverseOrigin,
    locate: F,
    devices: Seq<DeviceView>,
    n: int,
) -> bool {
    forall|k: int|
        0 <= k < n && k < devices.len() ==> ((#[trigger] devices[k]).query(
            session,
            origin,
        ) matches Some(query) ==> call_requires(locate, (query,)))
}

/// `slot` holds a pose of `device`, or `missing` if the device had none.
pub open spec fn slot_filled<F: Fn(SpaceQuery) -> SpaceReply>(
    session: SessionData,
    origin: ETrackingUniverseOrigin,
    locate: F,
    device: DeviceView,
    missing: TrackedDevicePose,
    slot: TrackedDevicePose,
) -> bool {
    exists|pose: Option<TrackedDevicePose>|
        #[trigger] device.answers(session, origin, locate, pose) && slot == pose_or(pose, missing)
}

/// The first `n` of `devices` have been asked for their poses, which left them as
/// `after`: each has its pose cached, and nothing else has changed.
pub open spec fn poses_asked<F: Fn(SpaceQuery) -> SpaceReply>(
    session: SessionData,
    origin: ETrackingUniverseOrigin,
    locate: F,
    devices: Seq<DeviceView>,
    after: Seq<DeviceView>,
    n: int,
) -> bool {
    &&& after.len() == devices.len()
    &&& forall|k: int| n <= k < devices.len() ==> (#[trigger] after[k]) == devices[k]
    &&& forall|k: int|
        0 <= k < n && k < devices.len() ==> {
            &&& devices[k].answers(session, origin, locate, (#[trigger] after[k]).pose_cache)
            &&& after[k] == devices[k].with_pose_cache(after[k].pose_cache)
        }
}

/// What a device answers after it has been asked once, it could have answered the
/// first time.
pub proof fn lemma_answers_again<F: Fn(SpaceQuery) -> SpaceReply>(
    device: DeviceView,
    session: SessionData,
    origin: ETrackingUniverseOrigin,
    locate: F,
    first: Option<TrackedDevicePose>,
    second: Option<TrackedDevicePose>,
)
    requires
        device.answers(session, origin, locate, first),
        device.with_pose_cache(first).answers(session, origin, locate, second),
    ensures
        device.answers(session, origin, locate, second),
        first is Some ==> second == first,
{
}

} // verus!

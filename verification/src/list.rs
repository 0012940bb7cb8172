//! The list of tracked devices.
use vstd::prelude::*;
use crate::device::{DeviceView, TrackedDeviceCreateInfo, TrackedDeviceType, XrTrackedDevice};
use crate::hand::Hand;
use crate::profiles::InteractionProfile;
use crate::vr::{
    EVRInputError, TrackedDeviceIndex, MAX_TRACKED_DEVICE_COUNT, TRACKED_DEVICE_INDEX_INVALID,
};
use crate::xdev::Xdev;

verus! {

/// The tracked devices, by index. The first is always a headset.
#[derive(Debug)]
pub struct TrackedDeviceList {
    devices: Vec<XrTrackedDevice>,
}

impl View for TrackedDeviceList {
    type V = Seq<DeviceView>;

    closed spec fn view(&self) -> Seq<DeviceView> {
        self.devices@.map_values(|device: XrTrackedDevice| device@)
    }
}

/// There is at least one device and no more than OpenVR can track, and the first
/// one is a headset.
pub open spec fn valid_devices(devices: Seq<DeviceView>) -> bool {
    &&& 1 <= devices.len() <= MAX_TRACKED_DEVICE_COUNT
    &&& devices[0].device_type == TrackedDeviceType::Hmd
}

/// The headset that every list starts with.
pub open spec fn initial_hmd() -> DeviceView {
    DeviceView::created(
        TrackedDeviceCreateInfo {
            device_type: TrackedDeviceType::Hmd,
            profile_path: None,
            interaction_profile: None,
            xdev: None,
        },
    )
}

/// The first controller for `hand` is at index `i`.
pub open spec fn is_first_controller(devices: Seq<DeviceView>, hand: Hand, i: int) -> bool {
    &&& 0 <= i < devices.len()
    &&& devices[i].hand() == Some(hand)
    &&& forall|j: int| 0 <= j < i ==> (#[trigger] devices[j]).hand() != Some(hand)
}

/// The index of the first controller for `hand`, or the invalid index if there is
/// none.
pub open spec fn controller_index(devices: Seq<DeviceView>, hand: Hand) -> int {
    if exists|i: int| is_first_controller(devices, hand, i) {
        choose|i: int| is_first_controller(devices, hand, i)
    } else {
        TRACKED_DEVICE_INDEX_INVALID as int
    }
}

/// The device is not a generic tracker.
pub open spec fn is_no_tracker() -> spec_fn(DeviceView) -> bool {
    |device: DeviceView| device.device_type != TrackedDeviceType::GenericTracker
}

/// The devices that are not generic trackers, in order.
pub open spec fn without_trackers(devices: Seq<DeviceView>) -> Seq<DeviceView> {
    devices.filter(is_no_tracker())
}

/// One of `devices` is the device that `xdev` describes.
pub open spec fn is_listed(devices: Seq<DeviceView>, xdev: Xdev) -> bool {
    exists|i: int|
        0 <= i < devices.len() && (#[trigger] devices[i]).xdev is Some && devices[i].xdev->0.id
            == xdev.id
}

/// The device qualifies as a generic tracker next to `devices`: it is not listed
/// yet, can be followed and calls itself a tracker.
pub open spec fn qualifies(devices: Seq<DeviceView>) -> spec_fn(Xdev) -> bool {
    |xdev: Xdev| !is_listed(devices, xdev) && xdev.spec_is_generic_tracker()
}

/// Those of `found` that qualify as generic trackers next to `devices`, in order.
pub open spec fn new_trackers(devices: Seq<DeviceView>, found: Seq<Xdev>) -> Seq<Xdev> {
    found.filter(qualifies(devices))
}

/// The generic tracker that `xdev` describes: connected from the start.
pub open spec fn tracker_device(
    profile: &'static InteractionProfile,
    xdev: Xdev,
) -> DeviceView {
    DeviceView {
        connected: true,
        ..DeviceView::created(
            TrackedDeviceCreateInfo {
                device_type: TrackedDeviceType::GenericTracker,
                profile_path: None,
                interaction_profile: Some(profile),
                xdev: Some(xdev),
            },
        )
    }
}

/// `devices`, followed by a generic tracker for each of `xdevs` for which there is
/// room.
pub open spec fn with_trackers(
    devices: Seq<DeviceView>,
    profile: &'static InteractionProfile,
    xdevs: Seq<Xdev>,
) -> Seq<DeviceView> {
    let room = MAX_TRACKED_DEVICE_COUNT - devices.len();
    let fitting = if xdevs.len() <= room {
        xdevs
    } else {
        xdevs.take(room)
    };
    devices + fitting.map_values(|xdev: Xdev| tracker_device(profile, xdev))
}

/// `devices` after the runtime was asked for trackers and gave this reply: more of
/// them if it found some, the same if it failed.
pub open spec fn with_reply(
    devices: Seq<DeviceView>,
    profile: &'static InteractionProfile,
    found: Result<Vec<Xdev>, openxr::sys::Result>,
) -> Seq<DeviceView> {
    match found {
        Ok(found) => with_trackers(devices, profile, new_trackers(devices, found@)),
        Err(_) => devices,
    }
}

/// What became of the devices that the runtime found.
#[derive(Debug, Clone, Copy, PartialEq, Eq, Structural)]
pub struct NewTrackers {
    /// How many of them qualified as generic trackers.
    pub qualified: usize,
    /// How many of these were left out because the list was full.
    pub left_out: usize,
}

/// What became of the devices that the runtime found next to `devices`, or the error
/// with which it failed to find any.
pub open spec fn tracker_report(
    devices: Seq<DeviceView>,
    found: Result<Vec<Xdev>, openxr::sys::Result>,
) -> Result<NewTrackers, openxr::sys::Result> {
    match found {
        Ok(found) => {
            let qualified = new_trackers(devices, found@).len() as int;
            let room = MAX_TRACKED_DEVICE_COUNT - devices.len();
            let left_out = if qualified <= room {
                0
            } else {
                qualified - room
            };
            Ok(NewTrackers { qualified: qualified as usize, left_out: left_out as usize })
        },
        Err(e) => Err(e),
    }
}

impl Default for TrackedDeviceList {
    fn default() -> (r: Self)
        ensures
            r.wf(),
            r@ == seq![initial_hmd()],
    {
        Self::new()
    }
}

impl TrackedDeviceList {
    /// The list is one that this module's functions can have made.
    pub open spec fn wf(&self) -> bool {
        valid_devices(self@)
    }

    /// A list with a headset only.
    pub fn new() -> (r: Self)
        ensures
            r.wf(),
            r@ == seq![initial_hmd()],
    {
        let hmd = XrTrackedDevice::new(
            TrackedDeviceCreateInfo {
                device_type: TrackedDeviceType::Hmd,
                profile_path: None,
                interaction_profile: None,
                xdev: None,
            },
        );
        TrackedDeviceList { devices: vec![hmd] }
    }

    /// The device at `device_index`.
    pub fn get_device(&self, device_index: TrackedDeviceIndex) -> (r: Option<&XrTrackedDevice>)
        ensures
            r is Some <==> device_index < self@.len(),
            r matches Some(device) ==> device@ == self@[device_index as int],
    {
        let index = device_index as usize;
        if index < self.devices.len() {
            Some(&self.devices[index])
        } else {
            None
        }
    }

    /// The device at `device_index`, to be changed.
    ///
    /// The headset at index 0 has to stay a headset: whoever assigns a whole device
    /// there, and not one that is a headset too, makes the list invalid, and nothing
    /// tests for that later.
    pub fn get_device_mut(&mut self, device_index: TrackedDeviceIndex) -> (r: Option<
        &mut XrTrackedDevice,
    >)
        ensures
            r is Some <==> device_index < old(self)@.len(),
            r matches Some(device) ==> {
                &&& device@ == old(self)@[device_index as int]
                &&& final(self)@ == old(self)@.update(device_index as int, final(device)@)
            },
            r is None ==> final(self)@ == old(self)@,
    {
        let index = device_index as usize;
        if index < self.devices.len() {
            Some(&mut self.devices[index])
        } else {
            None
        }
    }

    /// Adds a device at the end of the list and returns its index, unless the list
    /// is full.
    pub fn push_device(&mut self, device: XrTrackedDevice) -> (r: Result<
        TrackedDeviceIndex,
        EVRInputError,
    >)
        requires
            old(self).wf(),
        ensures
            final(self).wf(),
            old(self)@.len() == MAX_TRACKED_DEVICE_COUNT ==> {
                &&& r == Err::<TrackedDeviceIndex, EVRInputError>(EVRInputError::MaxCapacityReached)
                &&& final(self)@ == old(self)@
            },
            old(self)@.len() < MAX_TRACKED_DEVICE_COUNT ==> {
                &&& r == Ok::<TrackedDeviceIndex, EVRInputError>(old(self)@.len() as u32)
                &&& final(self)@ == old(self)@.push(device@)
            },
    {
        let index = self.devices.len() as TrackedDeviceIndex;
        if index >= MAX_TRACKED_DEVICE_COUNT {
            return Err(EVRInputError::MaxCapacityReached);
        }
        self.devices.push(device);
        Ok(index)
    }

    /// The headset.
    pub fn get_hmd(&self) -> (r: &XrTrackedDevice)
        requires
            self.wf(),
        ensures
            r@ == self@[0],
            r@.device_type == TrackedDeviceType::Hmd,
    {
        &self.devices[0]
    }

    /// The first controller for `hand`.
    pub fn get_controller(&self, hand: Hand) -> (r: Option<&XrTrackedDevice>)
        requires
            self.wf(),
        ensures
            r is Some <==> controller_index(self@, hand) != TRACKED_DEVICE_INDEX_INVALID,
            r matches Some(device) ==> {
                &&& is_first_controller(self@, hand, controller_index(self@, hand))
                &&& device@ == self@[controller_index(self@, hand)]
            },
    {
        self.get_device(self.get_controller_index(hand))
    }

    /// The index of the first controller for `hand`, or the invalid index if there
    /// is none.
    pub fn get_controller_index(&self, hand: Hand) -> (r: TrackedDeviceIndex)
        requires
            self.wf(),
        ensures
            r == controller_index(self@, hand),
            r != TRACKED_DEVICE_INDEX_INVALID ==> is_first_controller(self@, hand, r as int),
            r == TRACKED_DEVICE_INDEX_INVALID <==> (forall|j: int|
                0 <= j < self@.len() ==> (#[trigger] self@[j]).hand() != Some(hand)),
    {
        let mut i: usize = 0;
        while i < self.devices.len()
            invariant
                self.wf(),
                i <= self.devices.len(),
                forall|j: int| 0 <= j < i ==> (#[trigger] self@[j]).hand() != Some(hand),
            decreases self.devices.len() - i,
        {
            if let Some(held_in) = self.devices[i].get_controller_hand() {
                if held_in == hand {
                    assert(is_first_controller(self@, hand, i as int));
                    return i as TrackedDeviceIndex;
                }
            }
            i += 1;
        }
        TRACKED_DEVICE_INDEX_INVALID
    }

    /// The devices in order of their index.
    pub fn iter(&self) -> (r: core::slice::Iter<'_, XrTrackedDevice>)
        ensures
            ({
                let devices = vstd::std_specs::iter::IteratorSpec::remaining(&r);
                &&& devices.len() == self@.len()
                &&& forall|i: int| 0 <= i < devices.len() ==> (#[trigger] devices[i])@ == self@[i]
            }),
    {
        self.devices.iter()
    }

    /// Removes the generic trackers.
    pub fn remove_generic_trackers(&mut self)
        requires
            old(self).wf(),
        ensures
            final(self).wf(),
            final(self)@ == without_trackers(old(self)@),
    {
        let ghost before = self@;
        let ghost mut seen: int = 0;
        let mut i: usize = 0;
        assert(without_trackers(before.take(0)) =~= seq![]);
        while i < self.devices.len()
            invariant
                0 <= seen <= before.len(),
                i == without_trackers(before.take(seen)).len(),
                self@ == without_trackers(before.take(seen)) + before.skip(seen),
            decreases before.len() - seen,
        {
            let ghost kept = without_trackers(before.take(seen));
            let ghost now = self@;
            assert(self@[i as int] == before[seen]);
            proof {
                before.take(seen).lemma_filter_push(before[seen], is_no_tracker());
                assert(before.take(seen).push(before[seen]) =~= before.take(seen + 1));
            }
            if self.devices[i].get_type() == TrackedDeviceType::GenericTracker {
                self.devices.remove(i);
                assert(now.remove(i as int) =~= kept + before.skip(seen + 1));
            } else {
                i += 1;
            }
            proof {
                seen = seen + 1;
            }
        }
        proof {
            assert(seen == before.len());
            assert(before.take(seen) =~= before);
            assert(before.skip(seen) =~= seq![]);
            lemma_without_trackers_valid(before);
        }
    }

    /// How many generic trackers fit into the list next to the devices that it holds.
    pub fn max_generic_trackers(&self) -> (r: usize)
        requires
            self.wf(),
        ensures
            r == MAX_TRACKED_DEVICE_COUNT - self@.len(),
    {
        MAX_TRACKED_DEVICE_COUNT as usize - self.devices.len()
    }

    /// Whether one of the devices is the one that `xdev` describes.
    fn lists(&self, xdev: &Xdev) -> (r: bool)
        ensures
            r == is_listed(self@, *xdev),
    {
        let mut i: usize = 0;
        while i < self.devices.len()
            invariant
                i <= self.devices.len(),
                forall|j: int|
                    0 <= j < i ==> !((#[trigger] self@[j]).xdev is Some && self@[j].xdev->0.id
                        == xdev.id),
            decreases self.devices.len() - i,
        {
            assert(self.devices[i as int]@ == self@[i as int]);
            if let Some(listed) = self.devices[i].xdev() {
                if *listed == *xdev {
                    return true;
                }
            }
            i += 1;
        }
        false
    }

    /// Adds a generic tracker for each of the devices that the runtime found, if it
    /// is a tracker that can be followed, is not listed yet and fits in.
    ///
    /// The result tells how many of them qualified and how many did not fit in. If the
    /// runtime failed to find devices, its error is the result.
    pub fn add_generic_trackers(
        &mut self,
        found: Result<Vec<Xdev>, openxr::sys::Result>,
        profile: &'static InteractionProfile,
    ) -> (r: Result<NewTrackers, openxr::sys::Result>)
        requires
            old(self).wf(),
        ensures
            final(self).wf(),
            final(self)@ == with_reply(old(self)@, profile, found),
            r == tracker_report(old(self)@, found),
    {
        let found = match found {
            Ok(found) => found,
            Err(e) => return Err(e),
        };
        let ghost all = found@;
        let ghost devices = self@;
        let mut xdevs: Vec<Xdev> = Vec::new();
        for xdev in it: found
            invariant
                self@ == devices,
                it.seq() == all,
                xdevs@ == new_trackers(devices, all.take(it.index())),
        {
            proof {
                all.take(it.index()).lemma_filter_push(xdev, qualifies(devices));
                assert(all.take(it.index()).push(xdev) =~= all.take(it.index() + 1));
            }
            if !self.lists(&xdev) && xdev.is_generic_tracker() {
                xdevs.push(xdev);
            }
        }
        assert(all.take(all.len() as int) =~= all);
        let ghost chosen = xdevs@;
        let qualified = xdevs.len();
        let mut left_out: usize = 0;
        for xdev in it: xdevs
            invariant
                self.wf(),
                valid_devices(devices),
                it.seq() == chosen,
                chosen.len() == qualified,
                left_out == if it.index() <= MAX_TRACKED_DEVICE_COUNT - devices.len() {
                    0
                } else {
                    it.index() - (MAX_TRACKED_DEVICE_COUNT - devices.len())
                },
                self@ == with_trackers(devices, profile, chosen.take(it.index())),
        {
            let mut tracker = XrTrackedDevice::new(
                TrackedDeviceCreateInfo {
                    device_type: TrackedDeviceType::GenericTracker,
                    profile_path: None,
                    interaction_profile: Some(profile),
                    xdev: Some(xdev),
                },
            );
            tracker.set_connected(true);
            if self.push_device(tracker).is_err() {
                left_out += 1;
            }
        }
        Ok(NewTrackers { qualified, left_out })
    }

    /// Replaces the generic trackers by those that the runtime has now.
    ///
    /// `enumerate_xdevs` asks the runtime for at most the given number of devices, and
    /// is called once; without it, the list stays as it is. The result tells how many
    /// devices qualified and how many of them did not fit in. An error of the runtime
    /// leaves the list without generic trackers and is the result.
    pub fn create_generic_trackers<F: FnOnce(usize) -> Result<Vec<Xdev>, openxr::sys::Result>>(
        &mut self,
        enumerate_xdevs: Option<F>,
        profile: &'static InteractionProfile,
    ) -> (r: Result<NewTrackers, openxr::sys::Result>)
        requires
            old(self).wf(),
            enumerate_xdevs matches Some(f) ==> call_requires(
                f,
                ((MAX_TRACKED_DEVICE_COUNT - without_trackers(old(self)@).len()) as usize,),
            ),
        ensures
            final(self).wf(),
            enumerate_xdevs is None ==> {
                &&& r == Ok::<NewTrackers, openxr::sys::Result>(
                    NewTrackers { qualified: 0, left_out: 0 },
                )
                &&& final(self)@ == old(self)@
            },
            enumerate_xdevs matches Some(f) ==> {
                let kept = without_trackers(old(self)@);
                exists|found: Result<Vec<Xdev>, openxr::sys::Result>|
                    {
                        &&& #[trigger] call_ensures(
                            f,
                            ((MAX_TRACKED_DEVICE_COUNT - kept.len()) as usize,),
                            found,
                        )
                        &&& final(self)@ == with_reply(kept, profile, found)
                        &&& r == tracker_report(kept, found)
                    }
            },
    {
        let enumerate_xdevs = match enumerate_xdevs {
            Some(f) => f,
            None => return Ok(NewTrackers { qualified: 0, left_out: 0 }),
        };
        self.remove_generic_trackers();
        let max = self.max_generic_trackers();
        let found = enumerate_xdevs(max);
        self.add_generic_trackers(found, profile)
    }
}

/// Removing the generic trackers leaves a valid list valid.
pub proof fn lemma_without_trackers_valid(devices: Seq<DeviceView>)
    requires
        valid_devices(devices),
    ensures
        valid_devices(without_trackers(devices)),
        without_trackers(devices)[0] == devices[0],
    decreases devices.len(),
{
    reveal(Seq::filter);
    if devices.len() > 1 {
        lemma_without_trackers_valid(devices.drop_last());
    }
    devices.lemma_filter_len(is_no_tracker());
}

} // verus!

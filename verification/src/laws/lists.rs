//! Where devices are found.
use vstd::prelude::*;
use crate::device::{DeviceView, TrackedDeviceType, XrTrackedDevice};
use crate::hand::Hand;
use crate::input::Input;
use crate::list::{controller_index, is_first_controller, TrackedDeviceList};
use crate::profiles::ProfileProperties;
use crate::vr::EVRInputError;

verus! {

/// The controller index of a hand is that of the first controller for it.
pub(super) proof fn lemma_first_controller_index(devices: Seq<DeviceView>, hand: Hand, i: int)
    requires
        0 <= i < devices.len(),
        devices[i].device_type == (TrackedDeviceType::Controller { hand }),
        forall|j: int|
            0 <= j < i ==> (#[trigger] devices[j]).device_type != (TrackedDeviceType::Controller {
                hand,
            }),
    ensures
        controller_index(devices, hand) == i,
{
    assert(is_first_controller(devices, hand, i));
}

/// The controller index of a hand without a controller is the invalid one.
pub(super) proof fn lemma_no_controller_index(devices: Seq<DeviceView>, hand: Hand)
    requires
        forall|j: int|
            0 <= j < devices.len() ==> (#[trigger] devices[j]).device_type != (
            TrackedDeviceType::Controller { hand }),
    ensures
        controller_index(devices, hand) == u32::MAX,
{
}

/// A new list holds one device: a connected headset that has not been reported yet,
/// without a profile, a pose or a description by the runtime.
pub proof fn new_list_holds_a_headset(new: TrackedDeviceList, default: TrackedDeviceList)
    requires
        call_ensures(TrackedDeviceList::new, (), new),
        call_ensures(<TrackedDeviceList as Default>::default, (), default),
    ensures
        new@.len() == 1,
        new@[0].device_type == TrackedDeviceType::Hmd,
        new@[0].connected,
        !new@[0].previous_connected,
        new@[0].interaction_profile is None,
        new@[0].profile_path.raw == 0,
        new@[0].pose_cache is None,
        new@[0].xdev is None,
        default@ == new@,
{
}

/// A device is added at the end, under the index that it is then found at, and the
/// others stay where they were; a list of 64 devices takes no more and stays the same.
pub proof fn added_device_is_found_at_its_index(
    list: &mut TrackedDeviceList,
    device: XrTrackedDevice,
    r: Result<u32, EVRInputError>,
    i: u32,
    at: Option<&XrTrackedDevice>,
)
    requires
        1 <= old(list)@.len() <= 64,
        call_ensures(TrackedDeviceList::push_device, (list, device), r),
        call_ensures(TrackedDeviceList::get_device, (&*final(list), i), at),
    ensures
        old(list)@.len() == 64 ==> r is Err && final(list)@ == old(list)@,
        old(list)@.len() < 64 ==> {
            &&& r matches Ok(index) && index == old(list)@.len()
            &&& final(list)@.len() == old(list)@.len() + 1
            &&& i == old(list)@.len() ==> (at matches Some(found) && found@ == device@)
        },
        i < old(list)@.len() ==> (at matches Some(found) && found@ == old(list)@[i as int]),
        i > old(list)@.len() ==> at is None,
{
}

/// What becomes of a device that is reached to be changed becomes of the device at its
/// index, and of no other.
pub proof fn changed_device_is_the_one_at_its_index(
    list: &mut TrackedDeviceList,
    i: u32,
    r: Option<&mut XrTrackedDevice>,
)
    requires
        call_ensures(TrackedDeviceList::get_device_mut, (list, i), r),
    ensures
        r is Some <==> i < old(list)@.len(),
        r is None ==> final(list)@ == old(list)@,
        r matches Some(device) ==> {
            &&& device@ == old(list)@[i as int]
            &&& final(list)@.len() == old(list)@.len()
            &&& final(list)@[i as int] == final(device)@
            &&& forall|j: int|
                0 <= j < old(list)@.len() && j != i ==> (#[trigger] final(list)@[j]) == old(list)@[j]
        },
{
}

/// The headset is the first device.
pub proof fn headset_comes_first(list: TrackedDeviceList, r: &XrTrackedDevice)
    requires
        call_ensures(TrackedDeviceList::get_hmd, (&list,), r),
    ensures
        r@ == list@[0],
        r@.device_type == TrackedDeviceType::Hmd,
{
}

/// Going through the list gives each device once, in the order of the indexes.
pub proof fn devices_are_gone_through_by_index(
    list: TrackedDeviceList,
    r: core::slice::Iter<'_, XrTrackedDevice>,
)
    requires
        call_ensures(TrackedDeviceList::iter, (&list,), r),
    ensures
        vstd::std_specs::iter::IteratorSpec::remaining(&r).len() == list@.len(),
        forall|i: int|
            0 <= i < list@.len() ==> (#[trigger] vstd::std_specs::iter::IteratorSpec::remaining(
                &r,
            )[i])@ == list@[i],
{
}

/// However the controller of a hand is asked for, it is the first device that is a
/// controller for that hand, and the profile that is used for it is the one under its
/// profile path.
pub proof fn controller_is_the_first_of_its_hand(
    input: Input,
    hand: Hand,
    i: int,
    index: u32,
    device: Option<&XrTrackedDevice>,
    device_index: Option<u32>,
    profile: Option<&ProfileProperties>,
)
    requires
        0 <= i < input.devices@.len() <= 64,
        input.devices@[i].device_type == (TrackedDeviceType::Controller { hand }),
        forall|j: int|
            0 <= j < i ==> (#[trigger] input.devices@[j]).device_type
                != (TrackedDeviceType::Controller { hand }),
        call_ensures(TrackedDeviceList::get_controller_index, (&input.devices, hand), index),
        call_ensures(TrackedDeviceList::get_controller, (&input.devices, hand), device),
        call_ensures(Input::get_controller_device_index, (&input, hand), device_index),
        call_ensures(Input::get_profile_data, (&input, hand), profile),
    ensures
        index == i,
        device matches Some(controller) && controller@ == input.devices@[i],
        device_index matches Some(index) && index == i,
        ({
            let path = input.devices@[i].profile_path.raw;
            &&& profile is Some <==> input.profile_map@.contains_key(path)
            &&& profile is Some ==> *profile->0 == input.profile_map@[path]
        }),
{
    lemma_first_controller_index(input.devices@, hand, i);
}

/// Where no device is a controller for the hand, the index is OpenVR's invalid one, the
/// largest of 32 bits, and there is no controller and no profile.
pub proof fn without_controller_there_is_no_index(
    input: Input,
    hand: Hand,
    index: u32,
    device: Option<&XrTrackedDevice>,
    device_index: Option<u32>,
    profile: Option<&ProfileProperties>,
)
    requires
        forall|j: int|
            0 <= j < input.devices@.len() ==> (#[trigger] input.devices@[j]).device_type
                != (TrackedDeviceType::Controller { hand }),
        call_ensures(TrackedDeviceList::get_controller_index, (&input.devices, hand), index),
        call_ensures(TrackedDeviceList::get_controller, (&input.devices, hand), device),
        call_ensures(Input::get_controller_device_index, (&input, hand), device_index),
        call_ensures(Input::get_profile_data, (&input, hand), profile),
    ensures
        index == 0xFFFF_FFFFu32,
        device is None,
        device_index is None,
        profile is None,
{
    lemma_no_controller_index(input.devices@, hand);
}

/// Asked by index, a device answers for itself: whether it is connected, its kind, and
/// its hand if it is a controller. Where there is no device, nothing is connected and
/// the rest is not known.
pub proof fn devices_are_described_by_index(
    input: Input,
    i: u32,
    connected: bool,
    kind: Option<TrackedDeviceType>,
    hand: Option<Hand>,
)
    requires
        call_ensures(Input::is_device_connected, (&input, i), connected),
        call_ensures(Input::device_index_to_device_type, (&input, i), kind),
        call_ensures(Input::device_index_to_hand, (&input, i), hand),
    ensures
        i >= input.devices@.len() ==> !connected && kind is None && hand is None,
        i < input.devices@.len() ==> {
            let device = input.devices@[i as int];
            &&& connected == device.connected
            &&& kind == Some(device.device_type)
            &&& hand == Some(Hand::Left) <==> device.device_type == (TrackedDeviceType::Controller {
                hand: Hand::Left,
            })
            &&& hand == Some(Hand::Right) <==> device.device_type == (
            TrackedDeviceType::Controller { hand: Hand::Right })
        },
{
}

} // verus!

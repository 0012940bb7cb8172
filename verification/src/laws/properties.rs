//! What devices and controllers report of themselves, by the fields of their
//! interaction profiles.
use vstd::prelude::*;
use crate::device::{TrackedDeviceType, XrTrackedDevice};
use crate::hand::Hand;
use crate::input::Input;
use crate::profiles::{MainAxisType, Property};
use crate::vr::{ETrackedDeviceProperty, EVRControllerAxisType};
use crate::xdev::XdevProperties;

verus! {

/// A headset gives its serial number, manufacturer and controller type as
/// `<unknown>`, and no other text, whatever its profile is.
pub proof fn hmd_texts_are_unknown(
    device: XrTrackedDevice,
    prop: ETrackedDeviceProperty,
    r: Option<&[u8]>,
)
    requires
        device@.device_type == TrackedDeviceType::Hmd,
        call_ensures(XrTrackedDevice::get_string_property, (&device, prop), r),
    ensures
        r is Some <==> {
            ||| prop == ETrackedDeviceProperty::SerialNumberString
            ||| prop == ETrackedDeviceProperty::ManufacturerNameString
            ||| prop == ETrackedDeviceProperty::ControllerTypeString
        },
        r matches Some(text) ==> text@ =~= seq![
            0x3Cu8, 0x75u8, 0x6Eu8, 0x6Bu8, 0x6Eu8, 0x6Fu8, 0x77u8, 0x6Eu8, 0x3Eu8,
        ],
{
    reveal_strlit("<unknown>");
    vstd::utf8::is_ascii_chars_encode_utf8("<unknown>"@);
}

/// A controller reports the texts of its own hand, and those that are the same for
/// both hands, whatever else its state is. It reports no other text, and none without
/// a profile.
pub proof fn controller_texts_are_of_its_hand(
    device: XrTrackedDevice,
    hand: Hand,
    prop: ETrackedDeviceProperty,
    r: Option<&[u8]>,
)
    requires
        device@.device_type == (TrackedDeviceType::Controller { hand }),
        call_ensures(XrTrackedDevice::get_string_property, (&device, prop), r),
    ensures
        device@.interaction_profile is None ==> r is None,
        device@.interaction_profile matches Some(profile) ==> {
            let texts = profile.properties;
            &&& r is Some <==> {
                ||| prop == ETrackedDeviceProperty::ModelNumberString
                ||| prop == ETrackedDeviceProperty::RenderModelNameString
                ||| prop == ETrackedDeviceProperty::RegisteredDeviceTypeString
                ||| prop == ETrackedDeviceProperty::SerialNumberString
                ||| prop == ETrackedDeviceProperty::ControllerTypeString
                ||| prop == ETrackedDeviceProperty::TrackingSystemNameString
                ||| prop == ETrackedDeviceProperty::ManufacturerNameString
            }
            &&& hand == Hand::Left ==> {
                &&& prop == ETrackedDeviceProperty::ModelNumberString ==> r->0@ == texts.model.left@
                &&& prop == ETrackedDeviceProperty::RenderModelNameString ==> r->0@
                    == texts.render_model_name.left@
                &&& prop == ETrackedDeviceProperty::RegisteredDeviceTypeString ==> r->0@
                    == texts.registered_device_type.left@
                &&& prop == ETrackedDeviceProperty::SerialNumberString ==> r->0@
                    == texts.serial_number.left@
            }
            &&& hand == Hand::Right ==> {
                &&& prop == ETrackedDeviceProperty::ModelNumberString ==> r->0@
                    == texts.model.right@
                &&& prop == ETrackedDeviceProperty::RenderModelNameString ==> r->0@
                    == texts.render_model_name.right@
                &&& prop == ETrackedDeviceProperty::RegisteredDeviceTypeString ==> r->0@
                    == texts.registered_device_type.right@
                &&& prop == ETrackedDeviceProperty::SerialNumberString ==> r->0@
                    == texts.serial_number.right@
            }
            &&& prop == ETrackedDeviceProperty::ControllerTypeString ==> r->0@
                == texts.openvr_controller_type@
            &&& prop == ETrackedDeviceProperty::TrackingSystemNameString ==> r->0@
                == texts.tracking_system_name@
            &&& prop == ETrackedDeviceProperty::ManufacturerNameString ==> r->0@
                == texts.manufacturer_name@
        },
{
}

/// Without a profile a generic tracker reports no text. With one, it answers any
/// question but that for its serial number just as a left controller with that profile
/// does.
pub proof fn tracker_texts_are_those_of_a_left_controller(
    tracker: XrTrackedDevice,
    controller: XrTrackedDevice,
    prop: ETrackedDeviceProperty,
    r: Option<&[u8]>,
    of_controller: Option<&[u8]>,
)
    requires
        tracker@.device_type == TrackedDeviceType::GenericTracker,
        controller@.device_type == (TrackedDeviceType::Controller { hand: Hand::Left }),
        tracker@.interaction_profile == controller@.interaction_profile,
        call_ensures(XrTrackedDevice::get_string_property, (&tracker, prop), r),
        call_ensures(XrTrackedDevice::get_string_property, (&controller, prop), of_controller),
    ensures
        tracker@.interaction_profile is None ==> r is None,
        prop != ETrackedDeviceProperty::SerialNumberString ==> {
            &&& r is Some <==> of_controller is Some
            &&& r is Some ==> r->0@ == of_controller->0@
        },
{
}

/// A generic tracker with a profile gives the serial number that the runtime gave it:
/// the bytes of its buffer before the first NUL. If the runtime does not track it, it
/// gives none.
pub proof fn tracker_serial_is_its_own(tracker: XrTrackedDevice, r: Option<&[u8]>)
    requires
        tracker@.device_type == TrackedDeviceType::GenericTracker,
        tracker@.interaction_profile is Some,
        call_ensures(
            XrTrackedDevice::get_string_property,
            (&tracker, ETrackedDeviceProperty::SerialNumberString),
            r,
        ),
    ensures
        r is Some <==> tracker@.xdev is Some,
        r matches Some(text) ==> {
            let buffer = tracker@.xdev->0.properties.spec_serial_buffer();
            &&& text@.len() < buffer.len()
            &&& buffer[text@.len() as int] == 0
            &&& forall|j: int|
                0 <= j < text@.len() ==> (#[trigger] text@[j]) == buffer[j] && text@[j] != 0
        },
{
}

/// The serial number of a device that the runtime tracks is what its buffer holds
/// before the first NUL, and its name is the name that it was given.
pub proof fn xdev_properties_are_given_back(
    name: String,
    serial: Vec<u8>,
    properties: XdevProperties,
    given_name: &str,
    given_serial: &[u8],
)
    requires
        call_ensures(XdevProperties::new, (name, serial), properties),
        call_ensures(XdevProperties::name, (&properties,), given_name),
        call_ensures(XdevProperties::serial, (&properties,), given_serial),
    ensures
        properties.spec_name() == name@,
        properties.spec_serial_buffer() == serial@,
        given_name@ == name@,
        given_serial@.len() < serial@.len(),
        serial@[given_serial@.len() as int] == 0,
        forall|j: int|
            0 <= j < given_serial@.len() ==> (#[trigger] given_serial@[j]) == serial@[j]
                && given_serial@[j] != 0,
{
}

/// Asked by index, a device gives the same text as the device itself; where there is no
/// device, there is no text.
pub proof fn texts_by_index_are_those_of_the_device(
    input: Input,
    index: u32,
    device: XrTrackedDevice,
    prop: ETrackedDeviceProperty,
    by_index: Option<&[u8]>,
    r: Option<&[u8]>,
)
    requires
        index < input.devices@.len() ==> device@ == input.devices@[index as int],
        call_ensures(Input::get_device_string_property, (&input, index, prop), by_index),
        call_ensures(XrTrackedDevice::get_string_property, (&device, prop), r),
    ensures
        index >= input.devices@.len() ==> by_index is None,
        index < input.devices@.len() ==> {
            &&& by_index is Some <==> r is Some
            &&& by_index is Some ==> by_index->0@ == r->0@
        },
{
}

/// The text that a device reports depends on its kind, its profile and the runtime's
/// description of it alone: not on its connection, its pose or its profile path.
pub proof fn texts_do_not_depend_on_the_connection(
    device: XrTrackedDevice,
    other: XrTrackedDevice,
    prop: ETrackedDeviceProperty,
    r: Option<&[u8]>,
    of_other: Option<&[u8]>,
)
    requires
        device@.device_type == other@.device_type,
        device@.interaction_profile == other@.interaction_profile,
        device@.xdev == other@.xdev,
        call_ensures(XrTrackedDevice::get_string_property, (&device, prop), r),
        call_ensures(XrTrackedDevice::get_string_property, (&other, prop), of_other),
    ensures
        r is Some <==> of_other is Some,
        r is Some ==> r->0@ == of_other->0@,
{
}

/// A property that may differ between the hands gives each hand its own value.
pub proof fn property_is_of_the_hand<T>(property: Property<T>, hand: Hand, r: &T)
    requires
        call_ensures(Property::<T>::get, (&property, hand), r),
    ensures
        hand == Hand::Left ==> *r == property.left,
        hand == Hand::Right ==> *r == property.right,
{
}

/// The types of a controller's axes: the first axis is a joystick or a trackpad, as the
/// profile under the controller's profile path says, the next two are triggers, and the
/// last two are none. The controller is the first one for the hand. Any other property
/// has no number, and neither has a controller whose profile path is not known.
pub proof fn axis_types_are_those_of_the_profile(
    input: Input,
    hand: Hand,
    i: int,
    prop: ETrackedDeviceProperty,
    r: Option<i32>,
)
    requires
        0 <= i < input.devices@.len() <= 64,
        input.devices@[i].device_type == (TrackedDeviceType::Controller { hand }),
        forall|j: int|
            0 <= j < i ==> (#[trigger] input.devices@[j]).device_type
                != (TrackedDeviceType::Controller { hand }),
        call_ensures(Input::get_controller_int_tracked_property, (&input, hand, prop), r),
    ensures
        ({
            let path = input.devices@[i].profile_path.raw;
            let axis = input.profile_map@[path].main_axis;
            if input.profile_map@.contains_key(path) {
                &&& prop == ETrackedDeviceProperty::Axis0TypeInt32 && axis
                    == MainAxisType::Thumbstick ==> r == Some(2i32)
                &&& prop == ETrackedDeviceProperty::Axis0TypeInt32 && axis == MainAxisType::Trackpad
                    ==> r == Some(1i32)
                &&& prop == ETrackedDeviceProperty::Axis1TypeInt32 ==> r == Some(3i32)
                &&& prop == ETrackedDeviceProperty::Axis2TypeInt32 ==> r == Some(3i32)
                &&& prop == ETrackedDeviceProperty::Axis3TypeInt32 ==> r == Some(0i32)
                &&& prop == ETrackedDeviceProperty::Axis4TypeInt32 ==> r == Some(0i32)
                &&& r is Some ==> {
                    ||| prop == ETrackedDeviceProperty::Axis0TypeInt32
                    ||| prop == ETrackedDeviceProperty::Axis1TypeInt32
                    ||| prop == ETrackedDeviceProperty::Axis2TypeInt32
                    ||| prop == ETrackedDeviceProperty::Axis3TypeInt32
                    ||| prop == ETrackedDeviceProperty::Axis4TypeInt32
                }
            } else {
                r is None
            }
        }),
{
    super::lists::lemma_first_controller_index(input.devices@, hand, i);
}

/// The buttons of a controller are the whole mask of the profile under its profile path,
/// bit for bit. The controller is the first one for the hand. Any other property has no
/// mask, and neither has a controller whose profile path is not known.
pub proof fn button_mask_is_that_of_the_profile(
    input: Input,
    hand: Hand,
    i: int,
    prop: ETrackedDeviceProperty,
    r: Option<u64>,
)
    requires
        0 <= i < input.devices@.len() <= 64,
        input.devices@[i].device_type == (TrackedDeviceType::Controller { hand }),
        forall|j: int|
            0 <= j < i ==> (#[trigger] input.devices@[j]).device_type
                != (TrackedDeviceType::Controller { hand }),
        call_ensures(Input::get_controller_uint_tracked_property, (&input, hand, prop), r),
    ensures
        ({
            let path = input.devices@[i].profile_path.raw;
            if prop == ETrackedDeviceProperty::SupportedButtonsUint64
                && input.profile_map@.contains_key(path) {
                r == Some(input.profile_map@[path].legacy_buttons_mask)
            } else {
                r is None
            }
        }),
{
    super::lists::lemma_first_controller_index(input.devices@, hand, i);
}

/// A hand without a controller has no numbers to report.
pub proof fn without_controller_there_are_no_numbers(
    input: Input,
    hand: Hand,
    prop: ETrackedDeviceProperty,
    axis: Option<i32>,
    mask: Option<u64>,
)
    requires
        forall|j: int|
            0 <= j < input.devices@.len() ==> (#[trigger] input.devices@[j]).device_type
                != (TrackedDeviceType::Controller { hand }),
        call_ensures(Input::get_controller_int_tracked_property, (&input, hand, prop), axis),
        call_ensures(Input::get_controller_uint_tracked_property, (&input, hand, prop), mask),
    ensures
        axis is None,
        mask is None,
{
    super::lists::lemma_no_controller_index(input.devices@, hand);
}

/// OpenVR numbers the axis types from 0: none, trackpad, joystick, trigger.
pub proof fn axis_types_have_their_numbers(axis: EVRControllerAxisType, r: i32)
    requires
        call_ensures(EVRControllerAxisType::value, (axis,), r),
    ensures
        axis == EVRControllerAxisType::NoAxis <==> r == 0,
        axis == EVRControllerAxisType::TrackPad <==> r == 1,
        axis == EVRControllerAxisType::Joystick <==> r == 2,
        axis == EVRControllerAxisType::Trigger <==> r == 3,
{
}

} // verus!

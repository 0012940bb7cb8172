//! What is known about a kind of controller: its OpenVR properties.
use vstd::prelude::*;
use crate::hand::Hand;
use crate::vr::{ETrackedDeviceProperty, EVRControllerAxisType};

verus! {

/// What a controller reports as its first axis.
#[derive(Debug, Clone, Copy, PartialEq, Eq, Structural)]
pub enum MainAxisType {
    Thumbstick,
    Trackpad,
}

/// A value that may differ between the two hands.
#[derive(Debug, PartialEq, Eq)]
pub struct Property<T> {
    pub left: T,
    pub right: T,
}

impl<T> Property<T> {
    /// The value for `hand`.
    pub open spec fn spec_get(self, hand: Hand) -> T {
        match hand {
            Hand::Left => self.left,
            Hand::Right => self.right,
        }
    }

    /// The value for `hand`.
    pub fn get(&self, hand: Hand) -> (r: &T)
        ensures
            *r == self.spec_get(hand),
    {
        match hand {
            Hand::Left => &self.left,
            Hand::Right => &self.right,
        }
    }
}

/// The OpenVR properties of a kind of controller. Texts are C strings, without
/// their terminator.
#[derive(Debug, PartialEq, Eq)]
pub struct ProfileProperties {
    pub model: Property<&'static [u8]>,
    pub openvr_controller_type: &'static [u8],
    pub render_model_name: Property<&'static [u8]>,
    pub registered_device_type: Property<&'static [u8]>,
    pub serial_number: Property<&'static [u8]>,
    pub tracking_system_name: &'static [u8],
    pub manufacturer_name: &'static [u8],
    pub main_axis: MainAxisType,
    pub legacy_buttons_mask: u64,
}

impl ProfileProperties {
    /// The text that a controller of this kind in `hand` reports for `prop`, if
    /// `prop` is one of the text properties that a profile has.
    pub open spec fn spec_string_property(
        self,
        hand: Hand,
        prop: ETrackedDeviceProperty,
    ) -> Option<Seq<u8>> {
        match prop {
            ETrackedDeviceProperty::ControllerTypeString => Some(self.openvr_controller_type@),
            ETrackedDeviceProperty::ModelNumberString => Some(self.model.spec_get(hand)@),
            ETrackedDeviceProperty::RenderModelNameString => Some(
                self.render_model_name.spec_get(hand)@,
            ),
            ETrackedDeviceProperty::RegisteredDeviceTypeString => Some(
                self.registered_device_type.spec_get(hand)@,
            ),
            ETrackedDeviceProperty::TrackingSystemNameString => Some(self.tracking_system_name@),
            ETrackedDeviceProperty::SerialNumberString => Some(self.serial_number.spec_get(hand)@),
            ETrackedDeviceProperty::ManufacturerNameString => Some(self.manufacturer_name@),
            _ => None,
        }
    }

    /// The texts can stand in C strings.
    pub open spec fn texts_have_no_nul(self) -> bool {
        forall|hand: Hand, prop: ETrackedDeviceProperty|
            (#[trigger] self.spec_string_property(hand, prop)) matches Some(text) ==> has_no_nul(
                text,
            )
    }

    /// The text that a controller of this kind in `hand` reports for `prop`, if
    /// `prop` is one of the text properties that a profile has.
    pub fn string_property(
        &self,
        hand: Hand,
        prop: ETrackedDeviceProperty,
    ) -> (r: Option<&'static [u8]>)
        ensures
            text_of(r) == self.spec_string_property(hand, prop),
    {
        match prop {
            // Audica likes to apply controller specific tweaks via this property
            ETrackedDeviceProperty::ControllerTypeString => Some(self.openvr_controller_type),
            // I Expect You To Die 3 identifies controllers with this property; some
            // controllers have different model names for each hand
            ETrackedDeviceProperty::ModelNumberString => Some(*self.model.get(hand)),
            // Resonite won't recognize controllers without this
            ETrackedDeviceProperty::RenderModelNameString => Some(
                *self.render_model_name.get(hand),
            ),
            ETrackedDeviceProperty::RegisteredDeviceTypeString => Some(
                *self.registered_device_type.get(hand),
            ),
            ETrackedDeviceProperty::TrackingSystemNameString => Some(self.tracking_system_name),
            // Required for controllers to be acknowledged in I Expect You To Die 3
            ETrackedDeviceProperty::SerialNumberString => Some(*self.serial_number.get(hand)),
            ETrackedDeviceProperty::ManufacturerNameString => Some(self.manufacturer_name),
            _ => None,
        }
    }

    /// The number that a controller of this kind reports for `property`: the type
    /// of one of its axes.
    pub open spec fn spec_int_property(self, property: ETrackedDeviceProperty) -> Option<i32> {
        match property {
            ETrackedDeviceProperty::Axis0TypeInt32 => match self.main_axis {
                MainAxisType::Thumbstick => Some(EVRControllerAxisType::Joystick.spec_value()),
                MainAxisType::Trackpad => Some(EVRControllerAxisType::TrackPad.spec_value()),
            },
            ETrackedDeviceProperty::Axis1TypeInt32 => Some(
                EVRControllerAxisType::Trigger.spec_value(),
            ),
            ETrackedDeviceProperty::Axis2TypeInt32 => Some(
                EVRControllerAxisType::Trigger.spec_value(),
            ),
            ETrackedDeviceProperty::Axis3TypeInt32 => Some(
                EVRControllerAxisType::NoAxis.spec_value(),
            ),
            ETrackedDeviceProperty::Axis4TypeInt32 => Some(
                EVRControllerAxisType::NoAxis.spec_value(),
            ),
            _ => None,
        }
    }

    /// The number that a controller of this kind reports for `property`: the type
    /// of one of its axes.
    pub fn int_property(&self, property: ETrackedDeviceProperty) -> (r: Option<i32>)
        ensures
            r == self.spec_int_property(property),
    {
        match property {
            ETrackedDeviceProperty::Axis0TypeInt32 => match self.main_axis {
                MainAxisType::Thumbstick => Some(EVRControllerAxisType::Joystick.value()),
                MainAxisType::Trackpad => Some(EVRControllerAxisType::TrackPad.value()),
            },
            ETrackedDeviceProperty::Axis1TypeInt32 => Some(EVRControllerAxisType::Trigger.value()),
            // This is actually the grip, and gets recognized as such
            ETrackedDeviceProperty::Axis2TypeInt32 => Some(EVRControllerAxisType::Trigger.value()),
            ETrackedDeviceProperty::Axis3TypeInt32
            | ETrackedDeviceProperty::Axis4TypeInt32 => Some(EVRControllerAxisType::NoAxis.value()),
            _ => None,
        }
    }

    /// The number that a controller of this kind reports for `property`: the mask of
    /// its buttons.
    pub open spec fn spec_uint_property(self, property: ETrackedDeviceProperty) -> Option<u64> {
        match property {
            ETrackedDeviceProperty::SupportedButtonsUint64 => Some(self.legacy_buttons_mask),
            _ => None,
        }
    }

    /// The number that a controller of this kind reports for `property`: the mask of
    /// its buttons.
    pub fn uint_property(&self, property: ETrackedDeviceProperty) -> (r: Option<u64>)
        ensures
            r == self.spec_uint_property(property),
    {
        match property {
            ETrackedDeviceProperty::SupportedButtonsUint64 => Some(self.legacy_buttons_mask),
            _ => None,
        }
    }
}

/// `text` can stand in a C string: it holds no NUL.
pub open spec fn has_no_nul(text: Seq<u8>) -> bool {
    forall|j: int| 0 <= j < text.len() ==> text[j] != 0
}

/// The bytes of a text, if there is one.
pub open spec fn text_of(text: Option<&[u8]>) -> Option<Seq<u8>> {
    match text {
        Some(bytes) => Some(bytes@),
        None => None,
    }
}

/// A kind of controller that OpenXR knows.
#[derive(Debug, PartialEq, Eq)]
pub struct InteractionProfile {
    /// The OpenXR path of the profile, as text.
    pub profile_path: &'static str,
    pub properties: ProfileProperties,
}

} // verus!

//! The words of the OpenVR interface that device handling uses.
use vstd::prelude::*;

verus! {

/// How many devices OpenVR can track at once.
pub const MAX_TRACKED_DEVICE_COUNT: u32 = 64;

/// The device index that stands for no device.
pub const TRACKED_DEVICE_INDEX_INVALID: u32 = 0xFFFF_FFFF;

/// A device's place in the list of tracked devices.
pub type TrackedDeviceIndex = u32;

/// The origin that poses are reported relative to.
#[derive(Debug, Clone, Copy, PartialEq, Eq, Structural)]
pub enum ETrackingUniverseOrigin {
    Seated,
    Standing,
    RawAndUncalibrated,
}

/// The device properties that are answered here; every other property is
/// `Other`, with its OpenVR number.
#[derive(Debug, Clone, Copy, PartialEq, Eq, Structural)]
pub enum ETrackedDeviceProperty {
    TrackingSystemNameString,
    ModelNumberString,
    SerialNumberString,
    RenderModelNameString,
    ManufacturerNameString,
    RegisteredDeviceTypeString,
    ControllerTypeString,
    SupportedButtonsUint64,
    Axis0TypeInt32,
    Axis1TypeInt32,
    Axis2TypeInt32,
    Axis3TypeInt32,
    Axis4TypeInt32,
    Other(i32),
}

/// Why a device could not be added.
#[derive(Debug, Clone, Copy, PartialEq, Eq, Structural)]
pub enum EVRInputError {
    MaxCapacityReached,
}

/// What kind of input a controller axis is.
#[derive(Debug, Clone, Copy, PartialEq, Eq, Structural)]
pub enum EVRControllerAxisType {
    NoAxis,
    TrackPad,
    Joystick,
    Trigger,
}

impl EVRControllerAxisType {
    /// The number that OpenVR gives to the axis type.
    pub open spec fn spec_value(self) -> i32 {
        match self {
            EVRControllerAxisType::NoAxis => 0,
            EVRControllerAxisType::TrackPad => 1,
            EVRControllerAxisType::Joystick => 2,
            EVRControllerAxisType::Trigger => 3,
        }
    }

    /// The number that OpenVR gives to the axis type.
    pub fn value(self) -> (r: i32)
        ensures
            r == self.spec_value(),
    {
        match self {
            EVRControllerAxisType::NoAxis => 0,
            EVRControllerAxisType::TrackPad => 1,
            EVRControllerAxisType::Joystick => 2,
            EVRControllerAxisType::Trigger => 3,
        }
    }
}

} // verus!

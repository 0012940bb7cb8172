//! Poses, and the questions whose answers they are made from.
use vstd::prelude::*;
use crate::hand::Hand;
use crate::profiles::InteractionProfile;
use crate::vr::ETrackingUniverseOrigin;

verus! {

/// A device's pose. Real numbers are held by their IEEE 754 bits.
#[derive(Debug, Clone, Copy, PartialEq, Eq)]
pub struct TrackedDevicePose {
    /// The device-to-tracking matrix, row by row.
    pub device_to_absolute_tracking: [u32; 12],
    pub velocity: [u32; 3],
    pub angular_velocity: [u32; 3],
    /// OpenVR's number for the tracking result.
    pub tracking_result: i32,
    pub pose_is_valid: bool,
    pub device_is_connected: bool,
}

/// A space that a device's pose comes from.
#[derive(Debug, Clone, Copy)]
pub enum DeviceSpace {
    /// The space of the user's view.
    View,
    /// The raw space of the controller in `hand`, as `profile` defines it.
    ControllerRaw { hand: Hand, profile: Option<&'static InteractionProfile> },
    /// The space of a device that the runtime tracks, by its handle.
    Xdev { handle: u64 },
}

/// The question where a space is, relative to an origin.
#[derive(Debug, Clone, Copy)]
pub struct SpaceQuery {
    pub space: DeviceSpace,
    pub origin: ETrackingUniverseOrigin,
}

/// What the runtime makes of a [`SpaceQuery`].
#[derive(Debug, Clone, Copy)]
pub enum SpaceReply {
    /// The space was related to the origin; this is the pose there.
    Related(TrackedDevicePose),
    /// Relating the space to the origin failed.
    Failed,
    /// The controller has no raw space; this is the pose of an empty relation.
    NoRawSpace(TrackedDevicePose),
}

/// What the current session has set up, as far as poses depend on it.
#[derive(Debug, Clone, Copy)]
pub struct SessionData {
    /// The origin that is used where none is asked for.
    pub current_origin: ETrackingUniverseOrigin,
    /// The actions that controller spaces are made from exist.
    pub legacy_actions: bool,
}

impl SpaceReply {
    /// The pose of a headset whose space was answered for like this.
    pub open spec fn spec_hmd_pose(self) -> Option<TrackedDevicePose> {
        match self {
            SpaceReply::Related(pose) => Some(pose),
            _ => None,
        }
    }

    /// The pose of a controller whose space was answered for like this.
    pub open spec fn spec_controller_pose(self) -> Option<TrackedDevicePose> {
        match self {
            SpaceReply::Related(pose) => Some(pose),
            SpaceReply::NoRawSpace(empty) => Some(empty),
            SpaceReply::Failed => None,
        }
    }

    /// The pose of a generic tracker whose space was answered for like this: it
    /// is always valid, and always that of a connected device.
    pub open spec fn spec_generic_tracker_pose(self) -> Option<TrackedDevicePose> {
        match self {
            SpaceReply::Related(pose) => Some(
                TrackedDevicePose { pose_is_valid: true, device_is_connected: true, ..pose },
            ),
            _ => None,
        }
    }

    /// The pose of a headset whose space was answered for like this.
    pub fn hmd_pose(self) -> (r: Option<TrackedDevicePose>)
        ensures
            r == self.spec_hmd_pose(),
    {
        match self {
            SpaceReply::Related(pose) => Some(pose),
            _ => None,
        }
    }

    /// The pose of a controller whose space was answered for like this.
    pub fn controller_pose(self) -> (r: Option<TrackedDevicePose>)
        ensures
            r == self.spec_controller_pose(),
    {
        match self {
            SpaceReply::Related(pose) => Some(pose),
            SpaceReply::NoRawSpace(empty) => Some(empty),
            SpaceReply::Failed => None,
        }
    }

    /// The pose of a generic tracker whose space was answered for like this.
    pub fn generic_tracker_pose(self) -> (r: Option<TrackedDevicePose>)
        ensures
            r == self.spec_generic_tracker_pose(),
    {
        match self {
            SpaceReply::Related(pose) => {
                // Trackers will freeze in VRChat like this, which is more desirable
                // when the pose is invalid.
                Some(TrackedDevicePose { pose_is_valid: true, device_is_connected: true, ..pose })
            },
            _ => None,
        }
    }
}

} // verus!

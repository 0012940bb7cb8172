//! One tracked device.
use vstd::prelude::*;
use crate::hand::{Hand, XrPath, NULL_RAW_PATH};
use crate::pose::{DeviceSpace, SessionData, SpaceQuery, SpaceReply, TrackedDevicePose};
use crate::profiles::{has_no_nul, InteractionProfile};
use crate::vr::{ETrackedDeviceProperty, ETrackingUniverseOrigin};
use crate::xdev::Xdev;

verus! {

/// What kind of device a tracked device is.
#[derive(Debug, Clone, Copy, PartialEq, Eq, Structural)]
pub enum TrackedDeviceType {
    Hmd,
    Controller { hand: Hand },
    GenericTracker,
}

impl Default for TrackedDeviceType {
    fn default() -> (r: Self)
        ensures
            r == TrackedDeviceType::Hmd,
    {
        TrackedDeviceType::Hmd
    }
}

/// A tracked device.
#[derive(Debug)]
pub struct XrTrackedDevice {
    device_type: TrackedDeviceType,
    interaction_profile: Option<&'static InteractionProfile>,
    profile_path: XrPath,
    connected: bool,
    previous_connected: bool,
    pose_cache: Option<TrackedDevicePose>,
    xdev: Option<Xdev>,
}

/// What a new tracked device is made from.
#[derive(Debug)]
pub struct TrackedDeviceCreateInfo {
    pub device_type: TrackedDeviceType,
    pub profile_path: Option<XrPath>,
    pub interaction_profile: Option<&'static InteractionProfile>,
    pub xdev: Option<Xdev>,
}

/// The state of a tracked device.
pub struct DeviceView {
    pub device_type: TrackedDeviceType,
    pub interaction_profile: Option<&'static InteractionProfile>,
    pub profile_path: XrPath,
    /// The device is connected.
    pub connected: bool,
    /// The device was connected when a change was last reported.
    pub previous_connected: bool,
    /// The pose that was last worked out, until it is cleared.
    pub pose_cache: Option<TrackedDevicePose>,
    pub xdev: Option<Xdev>,
}

impl View for XrTrackedDevice {
    type V = DeviceView;

    closed spec fn view(&self) -> DeviceView {
        DeviceView {
            device_type: self.device_type,
            interaction_profile: self.interaction_profile,
            profile_path: self.profile_path,
            connected: self.connected,
            previous_connected: self.previous_connected,
            pose_cache: self.pose_cache,
            xdev: self.xdev,
        }
    }
}

/// The text that stands for a headset's names.
pub open spec fn unknown_text() -> Seq<u8> {
    vstd::utf8::encode_utf8("<unknown>"@)
}

proof fn lemma_unknown_text_has_no_nul()
    ensures
        has_no_nul(unknown_text()),
{
    reveal_strlit("<unknown>");
    vstd::utf8::is_ascii_chars_encode_utf8("<unknown>"@);
}

impl DeviceView {
    /// A device fresh from `info`: only a headset starts out connected.
    pub open spec fn created(info: TrackedDeviceCreateInfo) -> DeviceView {
        DeviceView {
            device_type: info.device_type,
            interaction_profile: info.interaction_profile,
            profile_path: match info.profile_path {
                Some(path) => path,
                None => XrPath { raw: NULL_RAW_PATH },
            },
            connected: info.device_type == TrackedDeviceType::Hmd,
            previous_connected: false,
            pose_cache: None,
            xdev: info.xdev,
        }
    }

    /// The hand that the device is held in, if it is a controller.
    pub open spec fn hand(self) -> Option<Hand> {
        match self.device_type {
            TrackedDeviceType::Controller { hand } => Some(hand),
            _ => None,
        }
    }

    /// The device's serial number, if the runtime tracks it.
    pub open spec fn xdev_serial(self) -> Option<Seq<u8>> {
        match self.xdev {
            Some(xdev) => Some(crate::xdev::c_string(xdev.properties.spec_serial_buffer())),
            None => None,
        }
    }

    /// The device's serial number, if the runtime tracks it, takes up the first `n`
    /// bytes of its buffer: a NUL follows them, and there is none among them.
    pub open spec fn xdev_serial_ends_at(self, n: int) -> bool {
        self.xdev matches Some(xdev) && crate::xdev::first_nul_at(
            xdev.properties.spec_serial_buffer(),
            n,
        )
    }

    /// The texts of the device's interaction profile, if it has one, can stand in C
    /// strings.
    pub open spec fn profile_texts_have_no_nul(self) -> bool {
        self.interaction_profile matches Some(profile) ==> profile.properties.texts_have_no_nul()
    }

    /// The text that the device reports for `prop`.
    ///
    /// A headset's serial number, manufacturer and controller type are unknown. A
    /// controller reports what its profile says for its hand. A generic tracker
    /// reports what its profile says for the left hand, but for its serial
    /// number, which is its own.
    pub open spec fn string_property(self, prop: ETrackedDeviceProperty) -> Option<Seq<u8>> {
        match self.device_type {
            TrackedDeviceType::Hmd => if prop == ETrackedDeviceProperty::SerialNumberString || prop
                == ETrackedDeviceProperty::ManufacturerNameString || prop
                == ETrackedDeviceProperty::ControllerTypeString {
                Some(unknown_text())
            } else {
                None
            },
            TrackedDeviceType::Controller { hand } => match self.interaction_profile {
                Some(profile) => profile.properties.spec_string_property(hand, prop),
                None => None,
            },
            TrackedDeviceType::GenericTracker => match self.interaction_profile {
                Some(profile) => if prop == ETrackedDeviceProperty::SerialNumberString {
                    self.xdev_serial()
                } else {
                    profile.properties.spec_string_property(Hand::Left, prop)
                },
                None => None,
            },
        }
    }

    /// `text`, which the device reports for `prop`, is what a C string holds: a generic
    /// tracker's serial number ends where the first NUL of its buffer stands, and no
    /// text holds a NUL, unless it comes from a profile whose texts do.
    pub open spec fn is_c_text(self, prop: ETrackedDeviceProperty, text: Seq<u8>) -> bool {
        let own_serial = self.device_type == TrackedDeviceType::GenericTracker && prop
            == ETrackedDeviceProperty::SerialNumberString;
        &&& own_serial ==> self.xdev_serial_ends_at(text.len() as int)
        &&& own_serial || self.device_type == TrackedDeviceType::Hmd
            || self.profile_texts_have_no_nul() ==> has_no_nul(text)
    }

    /// The space that the device's pose comes from, if it has one.
    pub open spec fn space(self, session: SessionData) -> Option<DeviceSpace> {
        match self.device_type {
            TrackedDeviceType::Hmd => Some(DeviceSpace::View),
            TrackedDeviceType::Controller { hand } => if session.legacy_actions {
                Some(DeviceSpace::ControllerRaw { hand, profile: self.interaction_profile })
            } else {
                None
            },
            TrackedDeviceType::GenericTracker => match self.xdev {
                Some(xdev) => match xdev.space {
                    Some(handle) => Some(DeviceSpace::Xdev { handle }),
                    None => None,
                },
                None => None,
            },
        }
    }

    /// What the runtime has to be asked for the device's pose: nothing if a pose is
    /// cached or the device has no space.
    pub open spec fn query(
        self,
        session: SessionData,
        origin: ETrackingUniverseOrigin,
    ) -> Option<SpaceQuery> {
        match (self.pose_cache, self.space(session)) {
            (None, Some(space)) => Some(SpaceQuery { space, origin }),
            _ => None,
        }
    }

    /// The pose that `reply` gives the device.
    pub open spec fn pose_from(self, reply: SpaceReply) -> Option<TrackedDevicePose> {
        match self.device_type {
            TrackedDeviceType::Hmd => reply.spec_hmd_pose(),
            TrackedDeviceType::Controller { .. } => reply.spec_controller_pose(),
            TrackedDeviceType::GenericTracker => reply.spec_generic_tracker_pose(),
        }
    }

    /// `pose` is what the device's space gives when `locate` is asked for it: no
    /// pose if the device has no space, else the pose from an answer of `locate`.
    pub open spec fn located<F: FnOnce(SpaceQuery) -> SpaceReply>(
        self,
        session: SessionData,
        origin: ETrackingUniverseOrigin,
        locate: F,
        pose: Option<TrackedDevicePose>,
    ) -> bool {
        match self.space(session) {
            None => pose is None,
            Some(space) => exists|reply: SpaceReply|
                #[trigger] call_ensures(locate, (SpaceQuery { space, origin },), reply) && pose
                    == self.pose_from(reply),
        }
    }

    /// `pose` is the device's pose: the cached one if there is one, else what the
    /// device's space gives.
    pub open spec fn answers<F: FnOnce(SpaceQuery) -> SpaceReply>(
        self,
        session: SessionData,
        origin: ETrackingUniverseOrigin,
        locate: F,
        pose: Option<TrackedDevicePose>,
    ) -> bool {
        match self.pose_cache {
            Some(cached) => pose == Some(cached),
            None => self.located(session, origin, locate, pose),
        }
    }

    /// The device with `pose` in its cache.
    pub open spec fn with_pose_cache(self, pose: Option<TrackedDevicePose>) -> DeviceView {
        DeviceView { pose_cache: pose, ..self }
    }
}

impl Default for XrTrackedDevice {
    /// A headset that is not connected.
    fn default() -> (r: Self)
        ensures
            r@ == (DeviceView {
                device_type: TrackedDeviceType::Hmd,
                interaction_profile: None,
                profile_path: XrPath { raw: NULL_RAW_PATH },
                connected: false,
                previous_connected: false,
                pose_cache: None,
                xdev: None,
            }),
    {
        XrTrackedDevice {
            device_type: TrackedDeviceType::default(),
            interaction_profile: None,
            profile_path: XrPath { raw: NULL_RAW_PATH },
            connected: false,
            previous_connected: false,
            pose_cache: None,
            xdev: None,
        }
    }
}

impl XrTrackedDevice {
    /// A new device. Only a headset starts out connected.
    pub fn new(info: TrackedDeviceCreateInfo) -> (r: Self)
        ensures
            r@ == DeviceView::created(info),
    {
        let profile_path = match info.profile_path {
            Some(path) => path,
            None => XrPath { raw: NULL_RAW_PATH },
        };
        XrTrackedDevice {
            device_type: info.device_type,
            interaction_profile: info.interaction_profile,
            profile_path,
            connected: info.device_type == TrackedDeviceType::Hmd,
            previous_connected: false,
            pose_cache: None,
            xdev: info.xdev,
        }
    }

    /// The device's pose, relative to `origin`.
    ///
    /// The pose is worked out once, with the help of `locate`, and then kept until
    /// [`clear_pose_cache`](Self::clear_pose_cache). `locate` is asked at most once, and
    /// nothing but what [`DeviceView::query`] says.
    pub fn get_pose<F: FnOnce(SpaceQuery) -> SpaceReply>(
        &mut self,
        session: &SessionData,
        origin: ETrackingUniverseOrigin,
        locate: F,
    ) -> (pose: Option<TrackedDevicePose>)
        requires
            old(self)@.query(*session, origin) matches Some(query) ==> call_requires(
                locate,
                (query,),
            ),
        ensures
            old(self)@.answers(*session, origin, locate, pose),
            final(self)@ == old(self)@.with_pose_cache(pose),
    {
        if let Some(pose) = self.pose_cache {
            return Some(pose);
        }
        let pose = match self.device_type {
            TrackedDeviceType::Hmd => self.get_hmd_pose(origin, locate),
            TrackedDeviceType::Controller { .. } => self.get_controller_pose(
                session,
                origin,
                locate,
            ),
            TrackedDeviceType::GenericTracker => self.get_generic_tracker_pose(origin, locate),
        };
        self.pose_cache = pose;
        pose
    }

    fn get_hmd_pose<F: FnOnce(SpaceQuery) -> SpaceReply>(
        &self,
        origin: ETrackingUniverseOrigin,
        locate: F,
    ) -> (pose: Option<TrackedDevicePose>)
        requires
            call_requires(locate, (SpaceQuery { space: DeviceSpace::View, origin },)),
        ensures
            exists|reply: SpaceReply|
                #[trigger] call_ensures(
                    locate,
                    (SpaceQuery { space: DeviceSpace::View, origin },),
                    reply,
                ) && pose == reply.spec_hmd_pose(),
    {
        let reply = locate(SpaceQuery { space: DeviceSpace::View, origin });
        reply.hmd_pose()
    }

    fn get_controller_pose<F: FnOnce(SpaceQuery) -> SpaceReply>(
        &self,
        session: &SessionData,
        origin: ETrackingUniverseOrigin,
        locate: F,
    ) -> (pose: Option<TrackedDevicePose>)
        requires
            session.legacy_actions && self@.hand() is Some ==> call_requires(
                locate,
                (SpaceQuery {
                    space: DeviceSpace::ControllerRaw {
                        hand: self@.hand()->0,
                        profile: self@.interaction_profile,
                    },
                    origin,
                },),
            ),
        ensures
            !session.legacy_actions || self@.hand() is None ==> pose is None,
            session.legacy_actions && self@.hand() is Some ==> exists|reply: SpaceReply|
                #[trigger] call_ensures(
                    locate,
                    (SpaceQuery {
                        space: DeviceSpace::ControllerRaw {
                            hand: self@.hand()->0,
                            profile: self@.interaction_profile,
                        },
                        origin,
                    },),
                    reply,
                ) && pose == reply.spec_controller_pose(),
    {
        if !session.legacy_actions {
            return None;
        }
        let hand = match self.get_controller_hand() {
            Some(hand) => hand,
            None => return None,
        };
        let space = DeviceSpace::ControllerRaw { hand, profile: self.get_interaction_profile() };
        let reply = locate(SpaceQuery { space, origin });
        reply.controller_pose()
    }

    fn get_generic_tracker_pose<F: FnOnce(SpaceQuery) -> SpaceReply>(
        &self,
        origin: ETrackingUniverseOrigin,
        locate: F,
    ) -> (pose: Option<TrackedDevicePose>)
        requires
            self@.xdev is Some && self@.xdev->0.space is Some ==> call_requires(
                locate,
                (SpaceQuery {
                    space: DeviceSpace::Xdev { handle: self@.xdev->0.space->0 },
                    origin,
                },),
            ),
        ensures
            self@.xdev is None || self@.xdev->0.space is None ==> pose is None,
            self@.xdev is Some && self@.xdev->0.space is Some ==> exists|reply: SpaceReply|
                #[trigger] call_ensures(
                    locate,
                    (SpaceQuery {
                        space: DeviceSpace::Xdev { handle: self@.xdev->0.space->0 },
                        origin,
                    },),
                    reply,
                ) && pose == reply.spec_generic_tracker_pose(),
    {
        let handle = match &self.xdev {
            Some(xdev) => match xdev.space {
                Some(handle) => handle,
                None => return None,
            },
            None => return None,
        };
        let reply = locate(SpaceQuery { space: DeviceSpace::Xdev { handle }, origin });
        reply.generic_tracker_pose()
    }

    /// The text that the device reports for `prop`, as a C string without its
    /// terminator.
    pub fn get_string_property(&self, prop: ETrackedDeviceProperty) -> (r: Option<&[u8]>)
        ensures
            crate::profiles::text_of(r) == self@.string_property(prop),
            r matches Some(text) ==> self@.is_c_text(prop, text@),
    {
        proof {
            lemma_unknown_text_has_no_nul();
        }
        match self.device_type {
            TrackedDeviceType::Hmd => match prop {
                // The Unity OpenVR sample appears to have a hard requirement on these
                // properties returning something to even get the game to recognize the
                // HMD's location. However, the value itself doesn't appear to be that
                // important.
                ETrackedDeviceProperty::SerialNumberString
                | ETrackedDeviceProperty::ManufacturerNameString
                | ETrackedDeviceProperty::ControllerTypeString => Some("<unknown>".as_bytes()),
                _ => None,
            },
            TrackedDeviceType::Controller { hand } => match self.interaction_profile {
                Some(profile) => profile.properties.string_property(hand, prop),
                None => None,
            },
            TrackedDeviceType::GenericTracker => match self.interaction_profile {
                Some(profile) => match prop {
                    ETrackedDeviceProperty::SerialNumberString => match &self.xdev {
                        Some(xdev) => Some(xdev.properties.serial()),
                        None => None,
                    },
                    _ => profile.properties.string_property(Hand::Left, prop),
                },
                None => None,
            },
        }
    }

    /// Whether the device is connected.
    pub fn connected(&self) -> (r: bool)
        ensures
            r == self@.connected,
    {
        self.connected
    }

    /// Marks the device as connected or not.
    pub fn set_connected(&mut self, connected: bool)
        ensures
            final(self)@ == (DeviceView { connected, ..old(self)@ }),
    {
        self.connected = connected;
    }

    /// Gives the device an interaction profile.
    pub fn set_interaction_profile(&mut self, profile: &'static InteractionProfile)
        ensures
            final(self)@ == (DeviceView { interaction_profile: Some(profile), ..old(self)@ }),
    {
        self.interaction_profile = Some(profile);
    }

    /// The device's interaction profile, if it has one.
    pub fn get_interaction_profile(&self) -> (r: Option<&'static InteractionProfile>)
        ensures
            r == self@.interaction_profile,
    {
        self.interaction_profile
    }

    /// The path of the device's interaction profile; null if none was set.
    pub fn get_profile_path(&self) -> (r: XrPath)
        ensures
            r == self@.profile_path,
    {
        self.profile_path
    }

    /// Sets the path of the device's interaction profile.
    pub fn set_profile_path(&mut self, path: XrPath)
        ensures
            final(self)@ == (DeviceView { profile_path: path, ..old(self)@ }),
    {
        self.profile_path = path;
    }

    /// Forgets the pose that was last worked out.
    pub fn clear_pose_cache(&mut self)
        ensures
            final(self)@ == old(self)@.with_pose_cache(None),
    {
        self.pose_cache = None;
    }

    /// Takes note of whether the device is connected.
    ///
    /// If that has changed since it was last noted, the result is `Ok`, else `Err`;
    /// either way with what had been noted before.
    pub fn compare_exchange_connected(&mut self) -> (r: Result<bool, bool>)
        ensures
            r == old(self)@.connection_change(),
            final(self)@ == old(self)@.connection_noted(),
    {
        let current = self.connected();
        let previous = self.previous_connected;
        if previous == !current {
            self.previous_connected = current;
            Ok(previous)
        } else {
            Err(previous)
        }
    }

    /// What kind of device this is.
    pub fn get_type(&self) -> (r: TrackedDeviceType)
        ensures
            r == self@.device_type,
    {
        self.device_type
    }

    /// The hand that the device is held in, if it is a controller.
    pub fn get_controller_hand(&self) -> (r: Option<Hand>)
        ensures
            r == self@.hand(),
    {
        match self.get_type() {
            TrackedDeviceType::Controller { hand } => Some(hand),
            _ => None,
        }
    }

    /// The runtime's description of the device, if the runtime tracks it.
    pub fn xdev(&self) -> (r: Option<&Xdev>)
        ensures
            r is Some <==> self@.xdev is Some,
            r matches Some(xdev) ==> *xdev == self@.xdev->0,
    {
        match &self.xdev {
            Some(xdev) => Some(xdev),
            None => None,
        }
    }
}

impl DeviceView {
    /// Whether the connection differs from what was last noted, with what was
    /// last noted.
    pub open spec fn connection_change(self) -> Result<bool, bool> {
        if self.previous_connected != self.connected {
            Ok(self.previous_connected)
        } else {
            Err(self.previous_connected)
        }
    }

    /// The device with its connection noted.
    pub open spec fn connection_noted(self) -> DeviceView {
        DeviceView { previous_connected: self.connected, ..self }
    }
}

} // verus!

//! Bookkeeping of the tracked devices that an OpenVR application sees when its
//! input comes from an OpenXR runtime.
//!
//! A [`TrackedDeviceList`](list::TrackedDeviceList) holds the headset, the
//! controllers and the generic trackers; [`Input`](input::Input) answers the
//! questions that OpenVR asks about them by index or by hand. Whatever only the
//! runtime can tell (where a space is, which devices exist) reaches this crate
//! as the reply of a function that the caller supplies.
use vstd::prelude::*;

pub mod device;
pub mod hand;
pub mod input;
pub mod laws;
pub mod list;
pub mod pose;
pub mod profiles;
pub mod vr;
pub mod xdev;

verus! {

/// The status code with which an OpenXR call fails. It is carried through
/// unread.
#[verifier::external_type_specification]
#[verifier::external_body]
pub struct ExXrResult(openxr::sys::Result);

} // verus!

//! Hands, and the OpenXR paths that name them.
use vstd::prelude::*;

verus! {

/// Which hand a controller is held in.
#[derive(Debug, Clone, Copy, PartialEq, Eq, Structural)]
pub enum Hand {
    Left,
    Right,
}

/// An OpenXR path, by the number that the runtime keeps it under.
#[derive(Debug, Clone, Copy, PartialEq, Eq, Structural)]
pub struct XrPath {
    pub raw: u64,
}

/// The path that names nothing.
pub const NULL_RAW_PATH: u64 = 0;

/// The paths that restrict an action to one hand.
#[derive(Debug, Clone, Copy, PartialEq, Eq, Structural)]
pub struct SubactionPaths {
    pub left: XrPath,
    pub right: XrPath,
}

impl SubactionPaths {
    /// The text of the path that restricts an action to `hand`.
    pub open spec fn spec_path_text(hand: Hand) -> Seq<char> {
        match hand {
            Hand::Left => "/user/hand/left"@,
            Hand::Right => "/user/hand/right"@,
        }
    }

    /// The text of the path that restricts an action to `hand`.
    pub fn path_text(hand: Hand) -> (r: &'static str)
        ensures
            r@ == Self::spec_path_text(hand),
    {
        match hand {
            Hand::Left => "/user/hand/left",
            Hand::Right => "/user/hand/right",
        }
    }

    /// `reply` is what `string_to_path` answered when it was asked for the path
    /// of `hand`.
    pub open spec fn asked<F: Fn(&'static str) -> Result<XrPath, openxr::sys::Result>>(
        string_to_path: F,
        hand: Hand,
        reply: Result<XrPath, openxr::sys::Result>,
    ) -> bool {
        exists|text: &'static str|
            text@ == Self::spec_path_text(hand) && #[trigger] call_ensures(
                string_to_path,
                (text,),
                reply,
            )
    }

    /// Asks the runtime, through `string_to_path`, for the path of each hand.
    ///
    /// The left hand is asked for first, and the right hand only if that was
    /// answered. The first refusal is the result.
    pub fn new<F: Fn(&'static str) -> Result<XrPath, openxr::sys::Result>>(
        string_to_path: &F,
    ) -> (r: Result<Self, openxr::sys::Result>)
        requires
            forall|text: &'static str|
                text@ == Self::spec_path_text(Hand::Left) ==> #[trigger] call_requires(
                    *string_to_path,
                    (text,),
                ),
            // The right hand may be asked for only once the left hand has been answered
            forall|text: &'static str, left: Result<XrPath, openxr::sys::Result>|
                text@ == Self::spec_path_text(Hand::Right) && left is Ok && #[trigger] Self::asked(
                    *string_to_path,
                    Hand::Left,
                    left,
                ) ==> #[trigger] call_requires(*string_to_path, (text,)),
        ensures
            exists|
                left: Result<XrPath, openxr::sys::Result>,
                right: Result<XrPath, openxr::sys::Result>,
            |
                {
                    &&& Self::asked(*string_to_path, Hand::Left, left)
                    &&& left is Ok ==> Self::asked(*string_to_path, Hand::Right, right)
                    &&& r == #[trigger] Self::spec_from_replies(left, right)
                },
    {
        let left = string_to_path(Self::path_text(Hand::Left));
        if let Err(e) = left {
            assert(Err::<Self, openxr::sys::Result>(e) == Self::spec_from_replies(left, left));
            return Err(e);
        }
        assert(Self::asked(*string_to_path, Hand::Left, left));
        let right = string_to_path(Self::path_text(Hand::Right));
        Self::from_replies(left, right)
    }

    /// The paths that two replies of the runtime amount to.
    pub open spec fn spec_from_replies(
        left: Result<XrPath, openxr::sys::Result>,
        right: Result<XrPath, openxr::sys::Result>,
    ) -> Result<Self, openxr::sys::Result> {
        match (left, right) {
            (Ok(left), Ok(right)) => Ok(SubactionPaths { left, right }),
            (Err(e), _) => Err(e),
            (_, Err(e)) => Err(e),
        }
    }

    /// The paths that two replies of the runtime amount to.
    pub fn from_replies(
        left: Result<XrPath, openxr::sys::Result>,
        right: Result<XrPath, openxr::sys::Result>,
    ) -> (r: Result<Self, openxr::sys::Result>)
        ensures
            r == Self::spec_from_replies(left, right),
    {
        match left {
            Err(e) => Err(e),
            Ok(left) => match right {
                Err(e) => Err(e),
                Ok(right) => Ok(SubactionPaths { left, right }),
            },
        }
    }
}

} // verus!

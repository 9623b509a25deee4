//! Gesture records: what one line of a gesture log means.

use vstd::prelude::*;

verus! {

/// What a gesture line reports.  A swipe update carries the displacement
/// since the last report, in thousandths of a unit; the end of a swipe or of
/// a hold says whether the gesture was cancelled.
#[derive(Clone, Copy, Debug, PartialEq, Eq, Structural)]
pub enum GestureAction {
    SwipeBegin,
    SwipeUpdate { dx: i32, dy: i32 },
    SwipeEnd { cancelled: bool },
    HoldBegin,
    HoldEnd { cancelled: bool },
    /// Any other gesture, such as a pinch.
    Other,
}

/// The parsed meaning of one gesture line.
#[derive(Clone, Copy, Debug, PartialEq, Eq, Structural)]
pub struct GestureRecord {
    pub action: GestureAction,
    /// The number of fingers on the touchpad.
    pub finger_count: u32,
}

impl GestureAction {
    /// Whether the action belongs to a hold gesture.
    pub open spec fn is_hold(self) -> bool {
        self is HoldBegin || self is HoldEnd
    }

    /// Whether the action belongs to a hold gesture.
    pub fn belongs_to_hold(&self) -> (r: bool)
        ensures
            r == self.is_hold(),
    {
        match self {
            GestureAction::HoldBegin => true,
            GestureAction::HoldEnd { .. } => true,
            _ => false,
        }
    }
}

} // verus!

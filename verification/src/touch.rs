//! Touch input as the application sees it.

use vstd::prelude::*;
use crate::handle::Fixed;

verus! {

/// A finger on a touch screen, told apart from others by a number.
#[derive(Debug, Clone, Copy, PartialEq, Eq, Hash, Structural)]
pub struct Finger(pub u64);

/// A touch event.
#[derive(Debug, Clone, Copy, PartialEq, Eq)]
pub enum Event {
    /// A finger came down.
    FingerPressed {
        /// Which finger.
        id: Finger,
        /// Where it is.
        position: (Fixed, Fixed),
    },
    /// A finger moved.
    FingerMoved {
        /// Which finger.
        id: Finger,
        /// Where it is.
        position: (Fixed, Fixed),
    },
    /// A finger went up.
    FingerLifted {
        /// Which finger.
        id: Finger,
        /// Where it was.
        position: (Fixed, Fixed),
    },
    /// The screen lost track of a finger.
    FingerLost {
        /// Which finger.
        id: Finger,
        /// Where it was last.
        position: (Fixed, Fixed),
    },
}

} // verus!

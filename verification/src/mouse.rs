//! Mouse input as the application sees it.

use vstd::prelude::*;
use crate::handle::Fixed;

verus! {

/// A button of a mouse.
#[derive(Debug, Clone, Copy, PartialEq, Eq, Hash, Structural)]
pub enum Button {
    /// The left button.
    Left,
    /// The right button.
    Right,
    /// The middle button, often the wheel.
    Middle,
    /// The button that goes back.
    Back,
    /// The button that goes forward.
    Forward,
    /// Another button, by its raw code.
    Other(u16),
}

/// How far a wheel or a touchpad scrolled.
#[derive(Debug, Clone, Copy, PartialEq, Eq, Structural)]
pub enum ScrollDelta {
    /// A scroll in steps of a wheel.
    Lines {
        /// Steps to the side.
        x: i64,
        /// Steps up or down.
        y: i64,
    },
    /// A scroll by a distance, in 24.8 fixed point.
    Pixels {
        /// Distance to the side.
        x: i64,
        /// Distance up or down.
        y: i64,
    },
}

/// A mouse event.
#[derive(Debug, Clone, Copy, PartialEq, Eq)]
pub enum Event {
    /// The cursor came onto a surface.
    CursorEntered,
    /// The cursor left a surface.
    CursorLeft,
    /// The cursor moved.
    CursorMoved {
        /// Where the cursor is now, in the coordinates of the compositor.
        position: (Fixed, Fixed),
    },
    /// A button went down.
    ButtonPressed(Button),
    /// A button went up.
    ButtonReleased(Button),
    /// The wheel turned, or a touchpad scrolled.
    WheelScrolled {
        /// How far.
        delta: ScrollDelta,
    },
}

/// What the cursor should look like.
#[derive(Debug, Clone, Copy, PartialEq, Eq, Hash, Structural)]
pub enum Interaction {
    /// Nothing special.
    Idle,
    /// Over something that can be pressed.
    Pointer,
    /// Over something that can be grabbed.
    Grab,
    /// Over text.
    Text,
    /// Picking a point.
    Crosshair,
    /// The application is busy.
    Working,
    /// Holding something.
    Grabbing,
    /// Resizing sideways.
    ResizingHorizontally,
    /// Resizing up or down.
    ResizingVertically,
    /// The action is not possible here.
    NotAllowed,
}

impl Interaction {
    /// The look of a cursor that is over nothing special.
    pub open spec fn idle() -> Interaction {
        Interaction::Idle
    }
}

impl Default for Interaction {
    fn default() -> (i: Interaction)
        ensures
            i == Interaction::idle(),
    {
        Interaction::Idle
    }
}

} // verus!

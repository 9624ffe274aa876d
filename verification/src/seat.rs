//! Input as the compositor reports it: keys, pointers, and the modifier
//! state of a keyboard.

use vstd::prelude::*;
use crate::handle::Fixed;
use crate::handle::SurfaceHandle;

verus! {

/// Raw code of the left mouse button.
pub const BTN_LEFT: u32 = 0x110;

/// Raw code of the right mouse button.
pub const BTN_RIGHT: u32 = 0x111;

/// Raw code of the middle mouse button.
pub const BTN_MIDDLE: u32 = 0x112;

/// Which modifiers a keyboard reports as active, pressed or locked.
#[derive(Debug, Clone, Copy, PartialEq, Eq, Hash, Structural)]
pub struct Modifiers {
    /// The control key.
    pub ctrl: bool,
    /// The alt key.
    pub alt: bool,
    /// The shift key.
    pub shift: bool,
    /// Caps lock.
    pub caps_lock: bool,
    /// The logo key, also known as super or windows key.
    pub logo: bool,
    /// Num lock.
    pub num_lock: bool,
}

impl Modifiers {
    /// The state in which no modifier is active.
    pub open spec fn none() -> Modifiers {
        Modifiers {
            ctrl: false,
            alt: false,
            shift: false,
            caps_lock: false,
            logo: false,
            num_lock: false,
        }
    }
}

impl Default for Modifiers {
    fn default() -> (m: Modifiers)
        ensures
            m == Modifiers::none(),
    {
        Modifiers {
            ctrl: false,
            alt: false,
            shift: false,
            caps_lock: false,
            logo: false,
            num_lock: false,
        }
    }
}

/// The modifier state of one keyboard, as last reported.
///
/// There is one writer: the translation of a modifiers event. Key events
/// read the state and leave it as it is.
#[derive(Debug, Clone, Copy, PartialEq, Eq)]
pub struct ModifierState {
    mask: Modifiers,
}

impl View for ModifierState {
    type V = Modifiers;

    closed spec fn view(&self) -> Modifiers {
        self.mask
    }
}

impl ModifierState {
    /// A tracker in whose state no modifier is active.
    pub fn new() -> (state: ModifierState)
        ensures
            state@ == Modifiers::none(),
    {
        ModifierState { mask: Modifiers::default() }
    }

    /// The tracked state.
    pub fn current(&self) -> (mask: Modifiers)
        ensures
            mask == self@,
    {
        self.mask
    }

    /// Replaces the tracked state and returns the one it had.
    pub fn update(&mut self, new_mask: Modifiers) -> (previous: Modifiers)
        ensures
            previous == old(self)@,
            final(self)@ == new_mask,
    {
        let previous = self.mask;
        self.mask = new_mask;
        previous
    }
}

/// A key going down, repeating, or going up.
#[derive(Debug, Clone, PartialEq, Eq)]
pub struct KeyEvent {
    /// When it happened, in milliseconds of the compositor's clock.
    pub time: u32,
    /// The hardware code of the key.
    pub raw_code: u32,
    /// The symbol that the layout gives the key.
    pub keysym: u32,
    /// The text that the key produces, if any; never given on release.
    pub utf8: Option<String>,
}

/// A scroll along one axis.
#[derive(Debug, Clone, Copy, PartialEq, Eq, Structural)]
pub struct AxisScroll {
    /// The distance scrolled.
    pub absolute: Fixed,
    /// The number of wheel steps; zero where the device has no steps.
    pub discrete: i32,
    /// Whether the scroll came to a stop.
    pub stop: bool,
}

/// What kind of device a scroll comes from.
#[derive(Debug, Clone, Copy, PartialEq, Eq, Hash, Structural)]
pub enum AxisSource {
    /// A wheel that turns in steps.
    Wheel,
    /// A finger on a touchpad.
    Finger,
    /// A device that scrolls without steps.
    Continuous,
    /// A wheel tilted to the side.
    WheelTilt,
}

/// What a pointer did.
#[derive(Debug, Clone, Copy, PartialEq, Eq, Structural)]
pub enum PointerEventKind {
    /// It came onto the surface.
    Enter {
        /// The serial of the event.
        serial: u32,
    },
    /// It left the surface.
    Leave {
        /// The serial of the event.
        serial: u32,
    },
    /// It moved.
    Motion {
        /// When it happened.
        time: u32,
    },
    /// A button went down.
    Press {
        /// When it happened.
        time: u32,
        /// The raw code of the button.
        button: u32,
        /// The serial of the event.
        serial: u32,
    },
    /// A button went up.
    Release {
        /// When it happened.
        time: u32,
        /// The raw code of the button.
        button: u32,
        /// The serial of the event.
        serial: u32,
    },
    /// It scrolled.
    Axis {
        /// When it happened.
        time: u32,
        /// The scroll to the side.
        horizontal: AxisScroll,
        /// The scroll up or down.
        vertical: AxisScroll,
        /// The kind of device, where the compositor tells and it is a known one.
        source: Option<AxisSource>,
    },
}

/// One event of a pointer.
#[derive(Debug, Clone, Copy, PartialEq, Eq)]
pub struct PointerEvent {
    /// The surface under the pointer.
    pub surface: SurfaceHandle,
    /// Where the pointer is on that surface.
    pub position: (Fixed, Fixed),
    /// What it did.
    pub kind: PointerEventKind,
}

/// A kind of input device that a seat can have.
#[derive(Debug, Clone, Copy, PartialEq, Eq, Hash, Structural)]
pub enum Capability {
    /// A keyboard.
    Keyboard,
    /// A pointer.
    Pointer,
    /// A touch screen.
    Touch,
}

} // verus!

//! The events that the application receives.

use vstd::prelude::*;

pub mod wayland;

use crate::handle::SurfaceId;

verus! {

/// An event that only one platform gives rise to.
#[derive(Debug, Clone, PartialEq, Eq)]
pub enum PlatformSpecific {
    /// An event of a Wayland compositor.
    Wayland(wayland::Event),
}

/// An event in the form that is the same on every platform.
#[derive(Debug, Clone, PartialEq, Eq)]
pub enum Event {
    /// A keyboard event.
    Keyboard(crate::keyboard::Event),
    /// A mouse event.
    Mouse(crate::mouse::Event),
    /// An event of the window with the given id.
    Window(SurfaceId, crate::window::Event),
    /// A touch event.
    Touch(crate::touch::Event),
    /// An event that only one platform gives rise to.
    PlatformSpecific(PlatformSpecific),
}

/// What became of an event that was handed to a widget.
#[derive(Debug, Clone, Copy, PartialEq, Eq, Hash, Structural)]
pub enum Status {
    /// The widget did not use the event.
    Ignored,
    /// The widget used the event; nothing else should react to it.
    Captured,
}

} // verus!

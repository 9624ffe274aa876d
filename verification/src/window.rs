//! What happens to a window, as the application sees it.

use vstd::prelude::*;

verus! {

/// A window event.
#[derive(Debug, Clone, Copy, PartialEq, Eq, Structural)]
pub enum Event {
    /// The window got a new size.
    Resized {
        /// The new width.
        width: u32,
        /// The new height.
        height: u32,
    },
    /// The user asked for the window to be closed.
    CloseRequested,
    /// The window got the keyboard focus.
    Focused,
    /// The window lost the keyboard focus.
    Unfocused,
}

} // verus!

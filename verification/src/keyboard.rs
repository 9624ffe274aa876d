//! Keyboard input as the application sees it.

use vstd::prelude::*;

pub mod key;
pub mod modifiers;
pub mod physical;

use crate::keyboard::key::Key;
use crate::keyboard::key::Location;
use crate::keyboard::modifiers::Modifiers;
use crate::keyboard::physical::PhysicalKey;

verus! {

/// A keyboard event.
#[derive(Debug, Clone, PartialEq, Eq)]
pub enum Event {
    /// A key was pressed, or is being held and repeats.
    KeyPressed {
        /// The logical key.
        key: Key,
        /// Where the key sits.
        location: Location,
        /// The modifiers held when the key went down.
        modifiers: Modifiers,
        /// The text that the press produced, if any.
        text: Option<String>,
        /// The physical key.
        physical_key: PhysicalKey,
    },
    /// A key was released.
    KeyReleased {
        /// The logical key.
        key: Key,
        /// Where the key sits.
        location: Location,
        /// The modifiers held when the key went up.
        modifiers: Modifiers,
        /// The physical key.
        physical_key: PhysicalKey,
    },
    /// The set of held modifiers changed.
    ModifiersChanged(Modifiers),
}

} // verus!

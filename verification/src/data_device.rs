//! Values that travel with drag-and-drop.

use vstd::prelude::*;
use crate::handle::SurfaceId;

verus! {

/// Bit of the copy action.
pub const COPY: u32 = 1;

/// Bit of the move action.
pub const MOVE: u32 = 2;

/// Bit of the ask action: the target decides when the drop happens.
pub const ASK: u32 = 4;

/// A set of drag-and-drop actions, one bit for each; no bit means no action.
#[derive(Debug, Clone, Copy, PartialEq, Eq, Hash, Structural)]
pub struct DndAction {
    /// The bits of the actions.
    pub bits: u32,
}

impl DndAction {
    /// Whether every action of `other` is in this set.
    pub open spec fn spec_contains(&self, other: DndAction) -> bool {
        self.bits & other.bits == other.bits
    }

    /// The set without any action.
    pub fn none() -> (a: DndAction)
        ensures
            a.bits == 0,
    {
        DndAction { bits: 0 }
    }

    /// Tells whether every action of `other` is in this set.
    #[verifier::when_used_as_spec(spec_contains)]
    pub fn contains(&self, other: DndAction) -> (b: bool)
        ensures
            b == self.spec_contains(other),
    {
        (self.bits & other.bits) == other.bits
    }
}

/// What is shown under the pointer during a drag.
#[derive(Debug, Clone, Copy, PartialEq, Eq, Structural)]
pub enum DndIcon {
    /// A surface that the application draws itself.
    Custom(SurfaceId),
    /// A surface that shows a widget.
    Widget(SurfaceId),
}

} // verus!

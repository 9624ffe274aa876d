//! Plain handles for the compositor objects that events refer to.
//!
//! The compositor hands out an object id for every protocol object. The
//! verified core never talks to the compositor, so an object is known here by
//! that id alone.

use vstd::prelude::*;

verus! {

/// The id of a protocol object; surfaces are found in the registries by it.
pub type ObjectId = u64;

/// A coordinate or distance in 24.8 fixed point: 256 units make one pixel.
pub type Fixed = i32;

/// A compositor surface.
#[derive(Debug, Clone, Copy, PartialEq, Eq, Hash, Structural)]
pub struct SurfaceHandle(pub ObjectId);

/// A seat: a group of input devices that belong to one user.
#[derive(Debug, Clone, Copy, PartialEq, Eq, Hash, Structural)]
pub struct SeatHandle(pub ObjectId);

/// A pointer device of a seat.
#[derive(Debug, Clone, Copy, PartialEq, Eq, Hash, Structural)]
pub struct PointerHandle(pub ObjectId);

/// A keyboard of a seat.
#[derive(Debug, Clone, Copy, PartialEq, Eq, Hash, Structural)]
pub struct KeyboardHandle(pub ObjectId);

/// An output: a monitor or another display area.
#[derive(Debug, Clone, Copy, PartialEq, Eq, Hash, Structural)]
pub struct OutputHandle(pub ObjectId);

/// The viewport of a surface, through which a fractional scale is applied.
#[derive(Debug, Clone, Copy, PartialEq, Eq, Hash, Structural)]
pub struct ViewportHandle(pub ObjectId);

/// The id under which the application knows a surface.
///
/// It is handed out once per surface and stays the same for as long as the
/// surface lives.
#[derive(Debug, Clone, Copy, PartialEq, Eq, Hash, Structural)]
pub struct SurfaceId(pub u64);

impl SurfaceHandle {
    /// The object id of the surface.
    pub open spec fn spec_id(&self) -> ObjectId {
        self.0
    }

    /// The object id of the surface.
    #[verifier::when_used_as_spec(spec_id)]
    pub fn id(&self) -> (id: ObjectId)
        ensures
            id == self.spec_id(),
    {
        self.0
    }
}

} // verus!

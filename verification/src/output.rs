//! What the compositor tells about an output.

use vstd::prelude::*;

verus! {

/// A video mode of an output.
#[derive(Debug, Clone, Copy, PartialEq, Eq)]
pub struct Mode {
    /// Width and height in hardware pixels.
    pub dimensions: (i32, i32),
    /// Vertical refresh rate in thousandths of a hertz.
    pub refresh_rate: i32,
    /// Whether the output shows this mode now.
    pub current: bool,
    /// Whether the output prefers this mode.
    pub preferred: bool,
}

/// The description of an output.
#[derive(Debug, PartialEq, Eq)]
pub struct OutputInfo {
    /// The id of the output among the compositor's globals.
    pub id: u32,
    /// The model of the display.
    pub model: String,
    /// The maker of the display.
    pub make: String,
    /// Where the output sits in the compositor's space.
    pub location: (i32, i32),
    /// Width and height in millimetres.
    pub physical_size: (i32, i32),
    /// The integer scale that the compositor applies.
    pub scale_factor: i32,
    /// The modes that the output offers.
    pub modes: Vec<Mode>,
    /// Where the output sits in logical coordinates, if known.
    pub logical_position: Option<(i32, i32)>,
    /// Its size in logical coordinates, if known.
    pub logical_size: Option<(i32, i32)>,
    /// The name of the output, if known.
    pub name: Option<String>,
    /// A description for people, if known.
    pub description: Option<String>,
}

impl Clone for OutputInfo {
    fn clone(&self) -> (copy: OutputInfo)
        ensures
            copy.id == self.id,
            copy.model == self.model,
            copy.make == self.make,
            copy.location == self.location,
            copy.physical_size == self.physical_size,
            copy.scale_factor == self.scale_factor,
            copy.modes@ == self.modes@,
            copy.logical_position == self.logical_position,
            copy.logical_size == self.logical_size,
            copy.name == self.name,
            copy.description == self.description,
    {
        OutputInfo {
            id: self.id,
            model: self.model.clone(),
            make: self.make.clone(),
            location: self.location,
            physical_size: self.physical_size,
            scale_factor: self.scale_factor,
            modes: self.modes.clone(),
            logical_position: self.logical_position,
            logical_size: self.logical_size,
            name: match &self.name {
                Some(name) => Some(name.clone()),
                None => None,
            },
            description: match &self.description {
                Some(description) => Some(description.clone()),
                None => None,
            },
        }
    }
}

} // verus!

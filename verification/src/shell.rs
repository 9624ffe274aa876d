//! What the compositor asks of a surface when it configures it.

use vstd::prelude::*;

verus! {

/// Bit of a maximized window.
pub const MAXIMIZED: u16 = 0x0001;

/// Bit of a fullscreen window.
pub const FULLSCREEN: u16 = 0x0002;

/// Bit of a window that the user is resizing.
pub const RESIZING: u16 = 0x0004;

/// Bit of a window that has the focus.
pub const ACTIVATED: u16 = 0x0008;

/// Bit of a window tiled at its left edge.
pub const TILED_LEFT: u16 = 0x0010;

/// Bit of a window tiled at its right edge.
pub const TILED_RIGHT: u16 = 0x0020;

/// Bit of a window tiled at its top edge.
pub const TILED_TOP: u16 = 0x0040;

/// Bit of a window tiled at its bottom edge.
pub const TILED_BOTTOM: u16 = 0x0080;

/// Bit of a window whose content is not shown.
pub const SUSPENDED: u16 = 0x0100;

/// The state of a window, one bit for each property.
#[derive(Debug, Clone, Copy, PartialEq, Eq, Hash, Structural)]
pub struct WindowState {
    /// The bits of the properties that hold.
    pub bits: u16,
}

impl WindowState {
    /// Whether every property of `other` holds in this state.
    pub open spec fn spec_contains(&self, other: WindowState) -> bool {
        self.bits & other.bits == other.bits
    }

    /// The state in which no property holds.
    pub fn empty() -> (s: WindowState)
        ensures
            s.bits == 0,
    {
        WindowState { bits: 0 }
    }

    /// Tells whether every property of `other` holds in this state.
    #[verifier::when_used_as_spec(spec_contains)]
    pub fn contains(&self, other: WindowState) -> (b: bool)
        ensures
            b == self.spec_contains(other),
    {
        (self.bits & other.bits) == other.bits
    }
}

/// Bit of the window menu.
pub const WINDOW_MENU: u16 = 0x0001;

/// Bit of maximizing.
pub const MAXIMIZE: u16 = 0x0002;

/// Bit of going fullscreen.
pub const CAN_FULLSCREEN: u16 = 0x0004;

/// Bit of minimizing.
pub const MINIMIZE: u16 = 0x0008;

/// What the window manager can do for a window, one bit for each ability.
#[derive(Debug, Clone, Copy, PartialEq, Eq, Hash, Structural)]
pub struct WindowManagerCapabilities {
    /// The bits of the abilities.
    pub bits: u16,
}

impl WindowManagerCapabilities {
    /// Whether every ability of `other` is among these.
    pub open spec fn spec_contains(&self, other: WindowManagerCapabilities) -> bool {
        self.bits & other.bits == other.bits
    }

    /// Tells whether every ability of `other` is among these.
    #[verifier::when_used_as_spec(spec_contains)]
    pub fn contains(&self, other: WindowManagerCapabilities) -> (b: bool)
        ensures
            b == self.spec_contains(other),
    {
        (self.bits & other.bits) == other.bits
    }
}

/// Who draws the decorations of a window.
#[derive(Debug, Clone, Copy, PartialEq, Eq, Structural)]
pub enum DecorationMode {
    /// The application draws them.
    Client,
    /// The compositor draws them.
    Server,
}

/// A request of the compositor to resize a window or to change its state.
#[derive(Debug, Clone, Copy, PartialEq, Eq)]
pub struct WindowConfigure {
    /// The width and height that the compositor suggests; each is positive
    /// where it is given.
    pub new_size: (Option<u32>, Option<u32>),
    /// The largest size that would still fit, if the compositor tells.
    pub suggested_bounds: Option<(u32, u32)>,
    /// Who draws the decorations.
    pub decoration_mode: DecorationMode,
    /// The state of the window.
    pub state: WindowState,
    /// What the window manager can do.
    pub capabilities: WindowManagerCapabilities,
}

impl WindowConfigure {
    /// Whether the user is resizing the window.
    pub open spec fn spec_is_resizing(&self) -> bool {
        self.state.bits & RESIZING == RESIZING
    }

    /// Whether both a width and a height are suggested.
    pub open spec fn spec_has_size(&self) -> bool {
        self.new_size.0 is Some && self.new_size.1 is Some
    }

    /// Tells whether the user is resizing the window.
    #[verifier::when_used_as_spec(spec_is_resizing)]
    pub fn is_resizing(&self) -> (b: bool)
        ensures
            b == self.spec_is_resizing(),
    {
        self.state.contains(WindowState { bits: RESIZING })
    }

    /// Tells whether both a width and a height are suggested.
    #[verifier::when_used_as_spec(spec_has_size)]
    pub fn has_size(&self) -> (b: bool)
        ensures
            b == self.spec_has_size(),
    {
        self.new_size.0.is_some() && self.new_size.1.is_some()
    }
}

/// Why a popup is configured.
#[derive(Debug, Clone, Copy, PartialEq, Eq, Structural)]
pub enum ConfigureKind {
    /// The popup was just created.
    Initial,
    /// The compositor moved the popup by itself.
    Reactive,
    /// The application asked for the popup to be placed anew.
    Reposition {
        /// The token of the request.
        token: u32,
    },
}

/// A request of the compositor to place a popup.
#[derive(Debug, Clone, Copy, PartialEq, Eq)]
pub struct PopupConfigure {
    /// The position relative to the parent.
    pub position: (i32, i32),
    /// The width.
    pub width: i32,
    /// The height.
    pub height: i32,
    /// The serial of the request.
    pub serial: u32,
    /// Why the popup is configured.
    pub kind: ConfigureKind,
}

/// A request of the compositor to resize a layer surface.
#[derive(Debug, Clone, Copy, PartialEq, Eq)]
pub struct LayerSurfaceConfigure {
    /// The width and height that the compositor suggests; zero leaves the
    /// choice to the application.
    pub new_size: (u32, u32),
}

/// A request of the compositor to resize a lock surface.
#[derive(Debug, Clone, Copy, PartialEq, Eq)]
pub struct SessionLockSurfaceConfigure {
    /// The width and height that the surface must take.
    pub new_size: (u32, u32),
}

} // verus!

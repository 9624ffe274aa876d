//! Window settings for Linux, with the placement of layer surfaces.

use vstd::prelude::*;

verus! {

/// The depth at which a layer surface is drawn; later variants are drawn
/// over earlier ones.
#[derive(Debug, Clone, Copy, PartialEq, Eq, PartialOrd, Ord, Hash, Structural)]
pub enum Layer {
    /// Behind everything.
    Background,
    /// Below windows.
    Bottom,
    /// Above windows.
    Top,
    /// Above everything.
    Overlay,
}

/// Bit of the top edge.
pub const TOP: u32 = 1;

/// Bit of the bottom edge.
pub const BOTTOM: u32 = 2;

/// Bit of the left edge.
pub const LEFT: u32 = 4;

/// Bit of the right edge.
pub const RIGHT: u32 = 8;

/// All bits that stand for an edge.
pub const EDGES: u32 = 15;

/// The edges of the output that a layer surface is anchored to, one bit
/// for each. Two edges that meet anchor the surface to their corner.
#[derive(Debug, Clone, Copy, PartialEq, Eq, Hash, Structural)]
pub struct Anchor {
    /// The bits of the edges.
    pub bits: u32,
}

impl Anchor {
    /// Whether every edge of `other` is among these.
    pub open spec fn spec_contains(&self, other: Anchor) -> bool {
        self.bits & other.bits == other.bits
    }

    /// No edge.
    pub fn empty() -> (anchor: Anchor)
        ensures
            anchor.bits == 0,
    {
        Anchor { bits: 0 }
    }

    /// All four edges.
    pub fn all() -> (anchor: Anchor)
        ensures
            anchor.bits == EDGES,
    {
        Anchor { bits: EDGES }
    }

    /// The edges among the given bits, if every bit stands for an edge.
    pub fn from_bits(bits: u32) -> (anchor: Option<Anchor>)
        ensures
            anchor == (if bits & !EDGES == 0 {
                Some(Anchor { bits })
            } else {
                None
            }),
    {
        if bits & !EDGES == 0 {
            Some(Anchor { bits })
        } else {
            None
        }
    }

    /// The edges among the given bits; other bits are dropped.
    pub fn from_bits_truncate(bits: u32) -> (anchor: Anchor)
        ensures
            anchor.bits == bits & EDGES,
    {
        Anchor { bits: bits & EDGES }
    }

    /// The edges of either.
    pub fn union(self, other: Anchor) -> (anchor: Anchor)
        ensures
            anchor.bits == self.bits | other.bits,
            anchor.spec_contains(self),
            anchor.spec_contains(other),
    {
        let bits = self.bits | other.bits;
        proof {
            let a = self.bits;
            let b = other.bits;
            assert((a | b) & a == a && (a | b) & b == b) by (bit_vector);
        }
        Anchor { bits }
    }

    /// Tells whether no edge is set.
    pub fn is_empty(&self) -> (b: bool)
        ensures
            b == (self.bits == 0),
    {
        self.bits == 0
    }

    /// Tells whether every edge of `other` is among these.
    #[verifier::when_used_as_spec(spec_contains)]
    pub fn contains(&self, other: Anchor) -> (b: bool)
        ensures
            b == self.spec_contains(other),
    {
        (self.bits & other.bits) == other.bits
    }
}

impl Default for Anchor {
    fn default() -> (anchor: Anchor)
        ensures
            anchor.bits == 0,
    {
        Anchor { bits: 0 }
    }
}

/// How a layer surface takes part in keyboard focus.
#[derive(Debug, Clone, Copy, PartialEq, Eq, PartialOrd, Ord, Hash, Structural)]
pub enum KeyboardInteractivity {
    /// It never has the focus.
    Never,
    /// It has the focus alone, as a lock screen or a password prompt needs.
    Exclusive,
    /// It gets and loses the focus as the user goes.
    OnDemand,
}

impl Default for KeyboardInteractivity {
    fn default() -> (interactivity: KeyboardInteractivity)
        ensures
            interactivity == KeyboardInteractivity::OnDemand,
    {
        KeyboardInteractivity::OnDemand
    }
}

/// Where and how a layer surface is placed. What is not given is left to
/// the compositor's defaults.
#[derive(Debug, PartialEq, Eq)]
pub struct LayerShellSettings {
    /// The depth.
    pub layer: Option<Layer>,
    /// The edges to anchor to.
    pub anchor: Option<Anchor>,
    /// The output, by its number.
    pub output: Option<u32>,
    /// How much room the surface keeps free of other surfaces.
    pub exclusive_zone: Option<i32>,
    /// The margins: top, right, bottom, left.
    pub margin: Option<(i32, i32, i32, i32)>,
    /// The region that takes input: x, y, width, height.
    pub input_region: Option<(i32, i32, i32, i32)>,
    /// How the surface takes part in keyboard focus.
    pub keyboard_interactivity: Option<KeyboardInteractivity>,
    /// The namespace of the surface.
    pub namespace: Option<String>,
}

impl LayerShellSettings {
    /// Whether nothing is given.
    pub open spec fn unset(&self) -> bool {
        &&& self.layer is None
        &&& self.anchor is None
        &&& self.output is None
        &&& self.exclusive_zone is None
        &&& self.margin is None
        &&& self.input_region is None
        &&& self.keyboard_interactivity is None
        &&& self.namespace is None
    }
}

impl Default for LayerShellSettings {
    fn default() -> (settings: LayerShellSettings)
        ensures
            settings.unset(),
    {
        LayerShellSettings {
            layer: None,
            anchor: None,
            output: None,
            exclusive_zone: None,
            margin: None,
            input_region: None,
            keyboard_interactivity: None,
            namespace: None,
        }
    }
}

impl Clone for LayerShellSettings {
    fn clone(&self) -> (copy: LayerShellSettings)
        ensures
            copy.layer == self.layer,
            copy.anchor == self.anchor,
            copy.output == self.output,
            copy.exclusive_zone == self.exclusive_zone,
            copy.margin == self.margin,
            copy.input_region == self.input_region,
            copy.keyboard_interactivity == self.keyboard_interactivity,
            copy.namespace == self.namespace,
    {
        LayerShellSettings {
            layer: self.layer,
            anchor: self.anchor,
            output: self.output,
            exclusive_zone: self.exclusive_zone,
            margin: self.margin,
            input_region: self.input_region,
            keyboard_interactivity: self.keyboard_interactivity,
            namespace: match &self.namespace {
                Some(namespace) => Some(namespace.clone()),
                None => None,
            },
        }
    }
}

/// The window settings that only Linux knows.
#[derive(Debug, Clone, PartialEq, Eq)]
pub struct PlatformSpecific {
    /// The application id of the window; best the name of the desktop file
    /// of the application, without its ending.
    pub application_id: String,
    /// Whether an X11 window is mapped past the window manager.
    pub override_redirect: bool,
    /// The placement, where the window is a layer surface.
    pub layer_shell: LayerShellSettings,
}

impl Default for PlatformSpecific {
    fn default() -> (settings: PlatformSpecific)
        ensures
            settings.application_id@ == Seq::<char>::empty(),
            !settings.override_redirect,
            settings.layer_shell.unset(),
    {
        PlatformSpecific {
            application_id: String::new(),
            override_redirect: false,
            layer_shell: LayerShellSettings::default(),
        }
    }
}

} // verus!

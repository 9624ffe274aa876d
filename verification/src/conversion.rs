//! How raw input values of the compositor turn into the values that the
//! application sees.

use vstd::prelude::*;
use crate::keyboard::modifiers::ALL;
use crate::keyboard::modifiers::ALT;
use crate::keyboard::modifiers::CTRL;
use crate::keyboard::modifiers::LOGO;
use crate::keyboard::modifiers::SHIFT;
use crate::mouse::Button;
use crate::mouse::ScrollDelta;
use crate::seat::AxisScroll;
use crate::seat::AxisSource;
use crate::seat::BTN_LEFT;
use crate::seat::BTN_MIDDLE;
use crate::seat::BTN_RIGHT;

verus! {

/// The button that a raw button code stands for.
///
/// The three main buttons have codes of their own. Any other code names its
/// button by itself, as long as it fits in sixteen bits; a larger code stands
/// for no button.
pub open spec fn native_button(button: u32) -> Option<Button> {
    if button == BTN_LEFT {
        Some(Button::Left)
    } else if button == BTN_RIGHT {
        Some(Button::Right)
    } else if button == BTN_MIDDLE {
        Some(Button::Middle)
    } else if button <= u16::MAX {
        Some(Button::Other(button as u16))
    } else {
        None
    }
}

/// Whether the device scrolls in steps.
pub open spec fn scrolls_in_steps(source: AxisSource) -> bool {
    source == AxisSource::Wheel || source == AxisSource::WheelTilt
}

/// The scroll that the application sees for a scroll of the compositor.
///
/// A device that scrolls in steps gives lines, every other known device a
/// distance; both with the sign turned round. With no known device there is
/// no scroll.
pub open spec fn native_scroll(
    source: Option<AxisSource>,
    horizontal: AxisScroll,
    vertical: AxisScroll,
) -> Option<ScrollDelta> {
    match source {
        None => None,
        Some(source) => if scrolls_in_steps(source) {
            Some(
                (ScrollDelta::Lines {
                    x: (-(horizontal.discrete as int)) as i64,
                    y: (-(vertical.discrete as int)) as i64,
                }),
            )
        } else {
            Some(
                (ScrollDelta::Pixels {
                    x: (-(horizontal.absolute as int)) as i64,
                    y: (-(vertical.absolute as int)) as i64,
                }),
            )
        },
    }
}

/// The bit if the modifier is active, and no bit if it is not.
pub open spec fn flag(active: bool, bit: u32) -> u32 {
    if active {
        bit
    } else {
        0
    }
}

/// The modifier set that the application sees for a modifier state of the
/// compositor: alt, control, logo and shift are taken over, the locks are not.
pub open spec fn native_modifiers(mods: crate::seat::Modifiers) -> crate::keyboard::modifiers::Modifiers {
    crate::keyboard::modifiers::Modifiers {
        bits: flag(mods.alt, ALT) | flag(mods.ctrl, CTRL) | flag(mods.logo, LOGO) | flag(
            mods.shift,
            SHIFT,
        ),
    }
}

/// Translates a raw button code.
pub fn pointer_button_to_native(button: u32) -> (native: Option<Button>)
    ensures
        native == native_button(button),
{
    if button == BTN_LEFT {
        Some(Button::Left)
    } else if button == BTN_RIGHT {
        Some(Button::Right)
    } else if button == BTN_MIDDLE {
        Some(Button::Middle)
    } else if button <= 0xffff {
        Some(Button::Other(button as u16))
    } else {
        None
    }
}

/// Translates a scroll.
pub fn pointer_axis_to_native(
    source: Option<AxisSource>,
    horizontal: AxisScroll,
    vertical: AxisScroll,
) -> (native: Option<ScrollDelta>)
    ensures
        native == native_scroll(source, horizontal, vertical),
{
    match source {
        None => None,
        Some(AxisSource::Wheel) | Some(AxisSource::WheelTilt) => Some(
            ScrollDelta::Lines {
                x: -(horizontal.discrete as i64),
                y: -(vertical.discrete as i64),
            },
        ),
        Some(_) => Some(
            ScrollDelta::Pixels {
                x: -(horizontal.absolute as i64),
                y: -(vertical.absolute as i64),
            },
        ),
    }
}

/// Translates a modifier state.
pub fn modifiers_to_native(mods: crate::seat::Modifiers) -> (native:
    crate::keyboard::modifiers::Modifiers)
    ensures
        native == native_modifiers(mods),
{
    let alt: u32 = if mods.alt {
        ALT
    } else {
        0
    };
    let ctrl: u32 = if mods.ctrl {
        CTRL
    } else {
        0
    };
    let logo: u32 = if mods.logo {
        LOGO
    } else {
        0
    };
    let shift: u32 = if mods.shift {
        SHIFT
    } else {
        0
    };
    crate::keyboard::modifiers::Modifiers { bits: alt | ctrl | logo | shift }
}

/// The translated set holds a modifier exactly if the compositor reports it,
/// and holds no bit besides the four modifiers.
pub proof fn lemma_native_modifiers_agree(mods: crate::seat::Modifiers)
    ensures
        native_modifiers(mods).spec_shift() == mods.shift,
        native_modifiers(mods).spec_control() == mods.ctrl,
        native_modifiers(mods).spec_alt() == mods.alt,
        native_modifiers(mods).spec_logo() == mods.logo,
        native_modifiers(mods).bits & !ALL == 0,
{
    let a = flag(mods.alt, ALT);
    let c = flag(mods.ctrl, CTRL);
    let l = flag(mods.logo, LOGO);
    let s = flag(mods.shift, SHIFT);
    assert({
        &&& ((a | c | l | s) & 0x4 != 0) == (s != 0)
        &&& ((a | c | l | s) & 0x20 != 0) == (c != 0)
        &&& ((a | c | l | s) & 0x100 != 0) == (a != 0)
        &&& ((a | c | l | s) & 0x800 != 0) == (l != 0)
        &&& (a | c | l | s) & !0x924u32 == 0
    }) by (bit_vector)
        requires
            a == 0 || a == 0x100,
            c == 0 || c == 0x20,
            l == 0 || l == 0x800,
            s == 0 || s == 0x4,
    ;
}

/// Two modifier states are translated to the same set exactly if they agree
/// on alt, control, logo and shift.
pub proof fn lemma_native_modifiers_tell_apart(a: crate::seat::Modifiers, b: crate::seat::Modifiers)
    ensures
        native_modifiers(a) == native_modifiers(b) <==> (a.alt == b.alt && a.ctrl == b.ctrl
            && a.logo == b.logo && a.shift == b.shift),
{
    lemma_native_modifiers_agree(a);
    lemma_native_modifiers_agree(b);
}

} // verus!

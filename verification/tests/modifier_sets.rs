use sctk_bridge::conversion::modifiers_to_native;
use sctk_bridge::keyboard::modifiers::Modifiers;
use sctk_bridge::keyboard::modifiers::ALL;
use sctk_bridge::keyboard::modifiers::ALT;
use sctk_bridge::keyboard::modifiers::CTRL;
use sctk_bridge::keyboard::modifiers::LOGO;
use sctk_bridge::keyboard::modifiers::SHIFT;

fn state(ctrl: bool, alt: bool, shift: bool, logo: bool, locks: bool) -> sctk_bridge::seat::Modifiers {
    sctk_bridge::seat::Modifiers { ctrl, alt, shift, caps_lock: locks, logo, num_lock: locks }
}

#[test]
fn every_modifier_state_gives_its_bits() {
    for n in 0u32..32 {
        let (ctrl, alt, shift, logo, locks) =
            (n & 1 != 0, n & 2 != 0, n & 4 != 0, n & 8 != 0, n & 16 != 0);
        let native = modifiers_to_native(state(ctrl, alt, shift, logo, locks));
        assert_eq!(native.control(), ctrl);
        assert_eq!(native.alt(), alt);
        assert_eq!(native.shift(), shift);
        assert_eq!(native.logo(), logo);
        assert_eq!(native.bits & !ALL, 0);
        let mut expected = 0;
        if ctrl {
            expected |= 0x20;
        }
        if alt {
            expected |= 0x100;
        }
        if shift {
            expected |= 0x4;
        }
        if logo {
            expected |= 0x800;
        }
        assert_eq!(native.bits, expected);
    }
}

#[test]
fn modifier_bits_have_their_values() {
    assert_eq!(SHIFT, 0b100);
    assert_eq!(CTRL, 0b100 << 3);
    assert_eq!(ALT, 0b100 << 6);
    assert_eq!(LOGO, 0b100 << 9);
    assert_eq!(ALL, SHIFT | CTRL | ALT | LOGO);
}

#[test]
fn locks_are_not_taken_over() {
    assert_eq!(modifiers_to_native(state(false, false, false, false, true)), Modifiers::empty());
    assert!(modifiers_to_native(state(false, false, false, false, true)).is_empty());
}

#[test]
fn modifier_sets_work_as_sets() {
    let shift = Modifiers { bits: SHIFT };
    let ctrl = Modifiers { bits: CTRL };
    let both = shift.union(ctrl);
    assert_eq!(both.bits, SHIFT | CTRL);
    assert!(both.contains(shift));
    assert!(both.contains(ctrl));
    assert!(!shift.contains(both));
    assert!(both.contains(Modifiers::empty()));
    assert!(both.shift() && both.control() && !both.alt() && !both.logo());
    assert_eq!(Modifiers::from_bits_truncate(0xffff_ffff).bits, ALL);
    assert_eq!(Modifiers::from_bits_truncate(SHIFT | 1).bits, SHIFT);
    assert!(Modifiers::empty().is_empty());
    assert!(!shift.is_empty());
}

use std::collections::HashMap;

use sctk_bridge::engine::normalize;
use sctk_bridge::event::Event;
use sctk_bridge::handle::KeyboardHandle;
use sctk_bridge::handle::SeatHandle;
use sctk_bridge::keyboard::key::Key;
use sctk_bridge::keyboard::key::Location;
use sctk_bridge::keyboard::key::Named;
use sctk_bridge::keyboard::modifiers;
use sctk_bridge::keyboard::physical::PhysicalKey;
use sctk_bridge::sctk_event::physical_key;
use sctk_bridge::sctk_event::KeyboardEventVariant;
use sctk_bridge::sctk_event::SctkEvent;
use sctk_bridge::seat::KeyEvent;
use sctk_bridge::seat::ModifierState;
use sctk_bridge::seat::Modifiers;
use sctk_bridge::surface::SurfaceRegistry;

fn keyboard(variant: KeyboardEventVariant) -> SctkEvent {
    SctkEvent::KeyboardEvent { variant, kbd_id: KeyboardHandle(2), seat_id: SeatHandle(1) }
}

fn key(raw_code: u32, keysym: u32, utf8: Option<&str>) -> KeyEvent {
    KeyEvent { time: 10, raw_code, keysym, utf8: utf8.map(|text| text.to_string()) }
}

fn shift() -> Modifiers {
    Modifiers { shift: true, ..Modifiers::default() }
}

fn native(bits: u32) -> modifiers::Modifiers {
    modifiers::Modifiers { bits }
}

#[test]
fn press_after_modifiers_carries_the_new_modifiers() {
    let registry = SurfaceRegistry::new();
    let mut tracker = ModifierState::new();
    let changed = normalize(keyboard(KeyboardEventVariant::Modifiers(shift())), &mut tracker, &registry);
    assert_eq!(
        changed,
        vec![Event::Keyboard(sctk_bridge::keyboard::Event::ModifiersChanged(native(modifiers::SHIFT)))]
    );
    assert_eq!(tracker.current(), shift());

    let pressed = normalize(
        keyboard(KeyboardEventVariant::Press(key(30, 0x41, Some("A")))),
        &mut tracker,
        &registry,
    );
    assert_eq!(
        pressed,
        vec![Event::Keyboard(sctk_bridge::keyboard::Event::KeyPressed {
            key: Key::Character("A".to_string()),
            location: Location::Standard,
            modifiers: native(modifiers::SHIFT),
            text: Some("A".to_string()),
            physical_key: PhysicalKey::KeyA,
        })]
    );
    assert_eq!(tracker.current(), shift());
}

#[test]
fn modifiers_event_replaces_the_state_in_place() {
    let mut state = Modifiers { ctrl: true, caps_lock: true, ..Modifiers::default() };
    let live = HashMap::new();
    let destroyed = HashMap::new();
    let new_state = Modifiers { alt: true, logo: true, num_lock: true, ..Modifiers::default() };
    let events =
        keyboard(KeyboardEventVariant::Modifiers(new_state)).to_native(&mut state, &live, &destroyed);
    assert_eq!(state, new_state);
    assert_eq!(
        events,
        vec![Event::Keyboard(sctk_bridge::keyboard::Event::ModifiersChanged(native(
            modifiers::ALT | modifiers::LOGO
        )))]
    );
}

#[test]
fn key_events_leave_the_state_alone() {
    let before = Modifiers { ctrl: true, ..Modifiers::default() };
    for variant in [
        KeyboardEventVariant::Press(key(1, 0xff1b, None)),
        KeyboardEventVariant::Repeat(key(1, 0xff1b, None)),
        KeyboardEventVariant::Release(key(1, 0xff1b, None)),
    ] {
        let mut state = before;
        let events = keyboard(variant).to_native(&mut state, &HashMap::new(), &HashMap::new());
        assert_eq!(state, before);
        assert_eq!(events.len(), 1);
    }
}

#[test]
fn press_of_a_named_key() {
    let mut state = Modifiers { ctrl: true, ..Modifiers::default() };
    let events = keyboard(KeyboardEventVariant::Press(key(28, 0xff0d, Some("\r"))))
        .to_native(&mut state, &HashMap::new(), &HashMap::new());
    assert_eq!(
        events,
        vec![Event::Keyboard(sctk_bridge::keyboard::Event::KeyPressed {
            key: Key::Named(Named::Enter),
            location: Location::Standard,
            modifiers: native(modifiers::CTRL),
            text: Some("\r".to_string()),
            physical_key: PhysicalKey::Enter,
        })]
    );
}

#[test]
fn press_without_text_of_an_unknown_symbol_is_unidentified() {
    let mut state = Modifiers::default();
    let events = keyboard(KeyboardEventVariant::Press(key(9999, 0x61, None)))
        .to_native(&mut state, &HashMap::new(), &HashMap::new());
    assert_eq!(
        events,
        vec![Event::Keyboard(sctk_bridge::keyboard::Event::KeyPressed {
            key: Key::Unidentified,
            location: Location::Standard,
            modifiers: native(0),
            text: None,
            physical_key: PhysicalKey::Unidentified,
        })]
    );
}

#[test]
fn repeat_is_a_press() {
    let mut state = Modifiers::default();
    let events = keyboard(KeyboardEventVariant::Repeat(key(97, 0xffe4, None)))
        .to_native(&mut state, &HashMap::new(), &HashMap::new());
    assert_eq!(
        events,
        vec![Event::Keyboard(sctk_bridge::keyboard::Event::KeyPressed {
            key: Key::Named(Named::Control),
            location: Location::Right,
            modifiers: native(0),
            text: None,
            physical_key: PhysicalKey::ControlRight,
        })]
    );
}

#[test]
fn release_carries_key_place_and_modifiers() {
    let mut state = Modifiers { logo: true, shift: true, ..Modifiers::default() };
    let events = keyboard(KeyboardEventVariant::Release(key(96, 0xff8d, None)))
        .to_native(&mut state, &HashMap::new(), &HashMap::new());
    assert_eq!(
        events,
        vec![Event::Keyboard(sctk_bridge::keyboard::Event::KeyReleased {
            key: Key::Named(Named::Enter),
            location: Location::Numpad,
            modifiers: native(modifiers::LOGO | modifiers::SHIFT),
            physical_key: PhysicalKey::NumpadEnter,
        })]
    );
}

#[test]
fn release_of_an_unknown_symbol_with_text_is_a_character() {
    let mut state = Modifiers::default();
    let events = keyboard(KeyboardEventVariant::Release(key(16, 0x71, Some("q"))))
        .to_native(&mut state, &HashMap::new(), &HashMap::new());
    assert_eq!(
        events,
        vec![Event::Keyboard(sctk_bridge::keyboard::Event::KeyReleased {
            key: Key::Character("q".to_string()),
            location: Location::Standard,
            modifiers: native(0),
            physical_key: PhysicalKey::KeyQ,
        })]
    );
}

#[test]
fn text_does_not_override_a_named_key() {
    let mut state = Modifiers::default();
    let events = keyboard(KeyboardEventVariant::Press(key(15, 0xff09, Some("\t"))))
        .to_native(&mut state, &HashMap::new(), &HashMap::new());
    match &events[0] {
        Event::Keyboard(sctk_bridge::keyboard::Event::KeyPressed { key, text, .. }) => {
            assert_eq!(*key, Key::Named(Named::Tab));
            assert_eq!(*text, Some("\t".to_string()));
        }
        other => panic!("not a key press: {:?}", other),
    }
}

#[test]
fn physical_key_is_a_function_of_the_code() {
    for code in [0u32, 1, 30, 84, 95, 226, 227, 9999, u32::MAX] {
        assert_eq!(physical_key(code), physical_key(code));
    }
}

#[test]
fn physical_key_of_the_edges_of_the_table() {
    assert_eq!(physical_key(0), PhysicalKey::Unidentified);
    assert_eq!(physical_key(83), PhysicalKey::NumpadDecimal);
    assert_eq!(physical_key(84), PhysicalKey::Unidentified);
    assert_eq!(physical_key(85), PhysicalKey::Lang5);
    assert_eq!(physical_key(125), PhysicalKey::SuperLeft);
    assert_eq!(physical_key(126), PhysicalKey::SuperRight);
    assert_eq!(physical_key(194), PhysicalKey::F24);
    assert_eq!(physical_key(205), PhysicalKey::Suspend);
    assert_eq!(physical_key(226), PhysicalKey::MediaSelect);
    assert_eq!(physical_key(227), PhysicalKey::Unidentified);
    assert_eq!(physical_key(u32::MAX), PhysicalKey::Unidentified);
}

#[test]
fn physical_key_of_unsupported_codes_is_unidentified() {
    for code in [95u32, 101, 112, 118, 120, 132, 139, 141, 144, 154, 160, 161, 167, 171, 174, 178,
        181, 182, 195, 199, 200, 204, 206, 216, 218, 225, 227, 248]
    {
        assert_eq!(physical_key(code), PhysicalKey::Unidentified, "code {}", code);
    }
}

#[test]
fn physical_keys_of_different_codes_differ() {
    let mut seen: Vec<PhysicalKey> = Vec::new();
    for code in 0u32..=300 {
        let key = physical_key(code);
        if key != PhysicalKey::Unidentified {
            assert!(!seen.contains(&key), "code {} repeats {:?}", code, key);
            seen.push(key);
        }
    }
    assert_eq!(seen.len(), 163);
}

#[test]
fn tracker_update_returns_the_state_before() {
    let mut tracker = ModifierState::new();
    assert_eq!(tracker.current(), Modifiers::default());
    assert_eq!(tracker.update(shift()), Modifiers::default());
    assert_eq!(tracker.current(), shift());
    let ctrl = Modifiers { ctrl: true, ..Modifiers::default() };
    assert_eq!(tracker.update(ctrl), shift());
    assert_eq!(tracker.current(), ctrl);
}

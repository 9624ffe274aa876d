use std::collections::HashMap;

use sctk_bridge::event::wayland;
use sctk_bridge::event::Event;
use sctk_bridge::event::PlatformSpecific;
use sctk_bridge::handle::KeyboardHandle;
use sctk_bridge::handle::SeatHandle;
use sctk_bridge::handle::SurfaceHandle;
use sctk_bridge::handle::SurfaceId;
use sctk_bridge::sctk_event::KeyboardEventVariant;
use sctk_bridge::sctk_event::SctkEvent;
use sctk_bridge::seat::Modifiers;
use sctk_bridge::surface::SurfaceIdentity;

fn enter(surface: u64) -> SctkEvent {
    SctkEvent::KeyboardEvent {
        variant: KeyboardEventVariant::Enter(SurfaceHandle(surface)),
        kbd_id: KeyboardHandle(2),
        seat_id: SeatHandle(1),
    }
}

fn leave(surface: u64) -> SctkEvent {
    SctkEvent::KeyboardEvent {
        variant: KeyboardEventVariant::Leave(SurfaceHandle(surface)),
        kbd_id: KeyboardHandle(2),
        seat_id: SeatHandle(1),
    }
}

fn seat(kind: wayland::SeatEvent) -> Event {
    Event::PlatformSpecific(PlatformSpecific::Wayland(wayland::Event::Seat(kind, SeatHandle(1))))
}

fn platform(event: wayland::Event) -> Event {
    Event::PlatformSpecific(PlatformSpecific::Wayland(event))
}

fn translate(event: SctkEvent, live: &HashMap<u64, SurfaceIdentity>) -> Vec<Event> {
    let mut modifiers = Modifiers::default();
    let destroyed = HashMap::new();
    let events = event.to_native(&mut modifiers, live, &destroyed);
    assert_eq!(modifiers, Modifiers::default());
    events
}

#[test]
fn enter_on_a_window_gives_focus_then_seat() {
    let mut live = HashMap::new();
    live.insert(40, SurfaceIdentity::Window(SurfaceId(7)));
    assert_eq!(
        translate(enter(40), &live),
        vec![
            Event::Window(SurfaceId(7), sctk_bridge::window::Event::Focused),
            seat(wayland::SeatEvent::Enter),
        ]
    );
}

#[test]
fn enter_on_an_unknown_surface_gives_the_seat_alone() {
    let mut live = HashMap::new();
    live.insert(40, SurfaceIdentity::Window(SurfaceId(7)));
    assert_eq!(translate(enter(41), &live), vec![seat(wayland::SeatEvent::Enter)]);
    assert_eq!(translate(enter(41), &HashMap::new()), vec![seat(wayland::SeatEvent::Enter)]);
}

#[test]
fn enter_on_a_drag_icon_gives_the_seat_alone() {
    let mut live = HashMap::new();
    live.insert(40, SurfaceIdentity::DragIcon(SurfaceId(7)));
    assert_eq!(translate(enter(40), &live), vec![seat(wayland::SeatEvent::Enter)]);
    assert_eq!(translate(leave(40), &live), vec![seat(wayland::SeatEvent::Leave)]);
}

#[test]
fn enter_does_not_look_among_the_tombstones() {
    let live = HashMap::new();
    let mut destroyed = HashMap::new();
    destroyed.insert(40, SurfaceIdentity::Window(SurfaceId(7)));
    let mut modifiers = Modifiers::default();
    let events = enter(40).to_native(&mut modifiers, &live, &destroyed);
    assert_eq!(events, vec![seat(wayland::SeatEvent::Enter)]);
}

#[test]
fn leave_on_a_window_gives_unfocus_then_seat() {
    let mut live = HashMap::new();
    live.insert(40, SurfaceIdentity::Window(SurfaceId(7)));
    assert_eq!(
        translate(leave(40), &live),
        vec![
            Event::Window(SurfaceId(7), sctk_bridge::window::Event::Unfocused),
            seat(wayland::SeatEvent::Leave),
        ]
    );
}

#[test]
fn leave_on_an_unknown_surface_gives_the_seat_alone() {
    assert_eq!(translate(leave(3), &HashMap::new()), vec![seat(wayland::SeatEvent::Leave)]);
}

#[test]
fn focus_of_a_popup_is_told_to_the_popup() {
    let mut live = HashMap::new();
    live.insert(40, SurfaceIdentity::Popup(SurfaceId(7)));
    assert_eq!(
        translate(enter(40), &live),
        vec![
            platform(wayland::Event::Popup(
                wayland::PopupEvent::Focused,
                SurfaceHandle(40),
                SurfaceId(7)
            )),
            seat(wayland::SeatEvent::Enter),
        ]
    );
    assert_eq!(
        translate(leave(40), &live),
        vec![
            platform(wayland::Event::Popup(
                wayland::PopupEvent::Unfocused,
                SurfaceHandle(40),
                SurfaceId(7)
            )),
            seat(wayland::SeatEvent::Leave),
        ]
    );
}

#[test]
fn focus_of_a_layer_surface_is_told_to_the_layer_surface() {
    let mut live = HashMap::new();
    live.insert(40, SurfaceIdentity::LayerSurface(SurfaceId(7)));
    assert_eq!(
        translate(enter(40), &live),
        vec![
            platform(wayland::Event::Layer(
                wayland::LayerEvent::Focused,
                SurfaceHandle(40),
                SurfaceId(7)
            )),
            seat(wayland::SeatEvent::Enter),
        ]
    );
    assert_eq!(
        translate(leave(40), &live),
        vec![
            platform(wayland::Event::Layer(
                wayland::LayerEvent::Unfocused,
                SurfaceHandle(40),
                SurfaceId(7)
            )),
            seat(wayland::SeatEvent::Leave),
        ]
    );
}

#[test]
fn focus_of_a_lock_surface_is_told_to_the_lock() {
    let mut live = HashMap::new();
    live.insert(40, SurfaceIdentity::SessionLock(SurfaceId(7)));
    assert_eq!(
        translate(enter(40), &live),
        vec![
            platform(wayland::Event::SessionLock(wayland::SessionLockEvent::Focused(
                SurfaceHandle(40),
                SurfaceId(7)
            ))),
            seat(wayland::SeatEvent::Enter),
        ]
    );
    assert_eq!(
        translate(leave(40), &live),
        vec![
            platform(wayland::Event::SessionLock(wayland::SessionLockEvent::Unfocused(
                SurfaceHandle(40),
                SurfaceId(7)
            ))),
            seat(wayland::SeatEvent::Leave),
        ]
    );
}

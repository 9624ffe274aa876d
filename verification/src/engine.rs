//! The translation with its state in one place, and what holds of it.
//!
//! The engine owns nothing. It is handed the tracked modifier state and
//! the registry of surfaces with every event, translates the event, and
//! hands the result back.

use vstd::prelude::*;
use crate::conversion::native_button;
use crate::conversion::native_modifiers;
use crate::event::Event;
use crate::handle::KeyboardHandle;
use crate::handle::ObjectId;
use crate::handle::SeatHandle;
use crate::handle::SurfaceHandle;
use crate::sctk_event::focus_event;
use crate::sctk_event::focus_events;
use crate::sctk_event::key_pressed;
use crate::sctk_event::pointer_events;
use crate::sctk_event::seat_event;
use crate::sctk_event::window_events;
use crate::sctk_event::KeyboardEventVariant;
use crate::sctk_event::SctkEvent;
use crate::sctk_event::WindowEventVariant;
use crate::seat::KeyEvent;
use crate::seat::ModifierState;
use crate::seat::Modifiers;
use crate::seat::PointerEvent;
use crate::seat::PointerEventKind;
use crate::surface::resolve;
use crate::surface::RegistryView;
use crate::surface::SurfaceIdentity;
use crate::surface::SurfaceRegistry;

verus! {

/// Translates one event of the compositor, with the tracked modifier
/// state and the registry of surfaces.
pub fn normalize(event: SctkEvent, tracker: &mut ModifierState, registry: &SurfaceRegistry) -> (events:
    Vec<Event>)
    requires
        event.conforms(registry@.live),
    ensures
        events@ == event.normalized(old(tracker)@, registry@.live, registry@.destroyed),
        final(tracker)@ == event.modifiers_after(old(tracker)@),
{
    let mut mask = tracker.current();
    let events = event.to_native(&mut mask, registry.live(), registry.destroyed());
    tracker.update(mask);
    events
}

/// Tells whether `normalize` can take the event: whether the event keeps
/// to what the compositor owes, given the surfaces that live.
pub fn accepts(event: &SctkEvent, registry: &SurfaceRegistry) -> (b: bool)
    ensures
        b == event.conforms(registry@.live),
{
    event.is_conformant(registry.live())
}

/// An event becomes no, one or two events, whatever it is and whatever
/// the state.
pub proof fn lemma_at_most_two_events(
    event: SctkEvent,
    modifiers: Modifiers,
    live: Map<ObjectId, SurfaceIdentity>,
    destroyed: Map<ObjectId, SurfaceIdentity>,
)
    ensures
        event.normalized(modifiers, live, destroyed).len() <= 2,
{
}

/// Only a modifiers event changes the modifier state, and it changes it
/// to the state it brings.
pub proof fn lemma_one_writer(event: SctkEvent, modifiers: Modifiers)
    ensures
        event.modifiers_after(modifiers) != modifiers ==> (event matches SctkEvent::KeyboardEvent {
            variant: KeyboardEventVariant::Modifiers(new_state),
            ..
        } && event.modifiers_after(modifiers) == new_state),
{
}

/// A change of the keyboard focus ends with the event for the seat. The
/// event for the surface comes before it, and only where the surface lives
/// and is no drag icon.
pub proof fn lemma_focus_change_order(
    live: Map<ObjectId, SurfaceIdentity>,
    surface: SurfaceHandle,
    seat: SeatHandle,
    focused: bool,
)
    ensures
        ({
            let events = focus_events(live, surface, seat, focused);
            let told = resolve(live, surface.id()) matches Some(identity) && !(identity
                is DragIcon);
            &&& events.last() == seat_event(seat, focused)
            &&& told ==> events == seq![
                focus_event(resolve(live, surface.id())->0, surface, focused)->0,
                seat_event(seat, focused),
            ]
            &&& !told ==> events == seq![seat_event(seat, focused)]
        }),
{
    let first = match resolve(live, surface.id()) {
        Some(identity) => focus_event(identity, surface, focused),
        None => None,
    };
    let events = focus_events(live, surface, seat, focused);
    match first {
        Some(event) => {
            assert(events =~= seq![event, seat_event(seat, focused)]);
        },
        None => {
            assert(events =~= seq![seat_event(seat, focused)]);
        },
    }
}

/// The keyboard entering a window tells the window that it has the
/// focus, and then the seat.
pub proof fn lemma_enter_window(
    live: Map<ObjectId, SurfaceIdentity>,
    surface: SurfaceHandle,
    seat: SeatHandle,
    id: crate::handle::SurfaceId,
)
    requires
        resolve(live, surface.id()) == Some(SurfaceIdentity::Window(id)),
    ensures
        focus_events(live, surface, seat, true) == seq![
            Event::Window(id, crate::window::Event::Focused),
            seat_event(seat, true),
        ],
{
    lemma_focus_change_order(live, surface, seat, true);
}

/// A key press that follows a modifiers event carries the modifiers that
/// the modifiers event brought, whatever the state was before.
pub proof fn lemma_press_after_modifiers(
    before: Modifiers,
    new_state: Modifiers,
    key: KeyEvent,
    keyboard: KeyboardHandle,
    seat: SeatHandle,
    live: Map<ObjectId, SurfaceIdentity>,
    destroyed: Map<ObjectId, SurfaceIdentity>,
)
    ensures
        ({
            let change = SctkEvent::KeyboardEvent {
                variant: KeyboardEventVariant::Modifiers(new_state),
                kbd_id: keyboard,
                seat_id: seat,
            };
            let press = SctkEvent::KeyboardEvent {
                variant: KeyboardEventVariant::Press(key),
                kbd_id: keyboard,
                seat_id: seat,
            };
            let events = press.normalized(change.modifiers_after(before), live, destroyed);
            &&& events == seq![key_pressed(key, new_state)]
            &&& events[0] matches Event::Keyboard(
                crate::keyboard::Event::KeyPressed { modifiers, .. },
            ) && modifiers == native_modifiers(new_state)
            &&& press.modifiers_after(change.modifiers_after(before)) == new_state
        }),
{
}

/// A button whose raw code stands for no button gives no event, neither
/// when it goes down nor when it goes up; and every code that does not fit
/// in sixteen bits is such a code.
pub proof fn lemma_unknown_button_is_dropped(
    surface: SurfaceHandle,
    position: (crate::handle::Fixed, crate::handle::Fixed),
    time: u32,
    button: u32,
    serial: u32,
)
    ensures
        ({
            let press = PointerEvent {
                surface,
                position,
                kind: PointerEventKind::Press { time, button, serial },
            };
            let release = PointerEvent {
                surface,
                position,
                kind: PointerEventKind::Release { time, button, serial },
            };
            &&& native_button(button) is None ==> pointer_events(press).len() == 0
                && pointer_events(release).len() == 0
            &&& native_button(button) is Some ==> pointer_events(press).len() == 1
                && pointer_events(release).len() == 1
            &&& button > 0xffff ==> native_button(button) is None
        }),
{
}

/// The close of a window that was retired is still told: after the window
/// was retired, the living registry no longer knows its handle, and the
/// close event gives the one request to close, under the id of the window.
pub proof fn lemma_close_after_retire(registry: RegistryView, surface: SurfaceHandle)
    requires
        registry.live.contains_key(surface.id()),
    ensures
        ({
            let identity = registry.live[surface.id()];
            let after = registry.retire(surface.id());
            &&& after.resolve_live(surface.id()) is None
            &&& window_events(WindowEventVariant::Close, surface, after.live, after.destroyed)
                == seq![Event::Window(identity.inner(), crate::window::Event::CloseRequested)]
        }),
{
}

/// An event for a surface that neither lives nor is remembered gives no
/// event of the surface: the miss is taken in silence.
pub proof fn lemma_unknown_surface_is_dropped(
    variant: WindowEventVariant,
    surface: SurfaceHandle,
    live: Map<ObjectId, SurfaceIdentity>,
    destroyed: Map<ObjectId, SurfaceIdentity>,
)
    requires
        !live.contains_key(surface.id()),
        !destroyed.contains_key(surface.id()),
        variant matches WindowEventVariant::Configure(_, configured, _) ==> configured == surface,
    ensures
        window_events(variant, surface, live, destroyed).len() == 0,
{
}

} // verus!

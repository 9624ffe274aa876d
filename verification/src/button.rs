//! The rules of a button: how it reacts to events, how it is to be shown,
//! and what the cursor looks like over it.
//!
//! Where the cursor is, and whether the button has a message to send, is
//! for the caller to find out. The rules take both as plain truth values.

use vstd::prelude::*;
use crate::event::Event;
use crate::event::Status;
use crate::keyboard::key::Key;
use crate::keyboard::key::Named;
use crate::mouse::Button;
use crate::mouse::Interaction;

verus! {

/// What a button remembers between events.
#[derive(Debug, Clone, Copy, PartialEq, Eq)]
pub struct State {
    is_focused: bool,
    is_pressed: bool,
    is_active: bool,
}

/// The state of a button as three truth values.
pub ghost struct StateView {
    /// Whether the button has the focus.
    pub is_focused: bool,
    /// Whether the button is held down.
    pub is_pressed: bool,
    /// Whether the button was the last to be pressed.
    pub is_active: bool,
}

impl StateView {
    /// The state of a button that nothing has happened to.
    pub open spec fn idle() -> StateView {
        StateView { is_focused: false, is_pressed: false, is_active: false }
    }

    /// The state of a button that is held down.
    pub open spec fn held() -> StateView {
        StateView { is_focused: true, is_pressed: true, is_active: true }
    }

    /// The state of a button that has the focus and nothing else.
    pub open spec fn focused() -> StateView {
        StateView { is_focused: true, is_pressed: false, is_active: false }
    }
}

impl View for State {
    type V = StateView;

    closed spec fn view(&self) -> StateView {
        StateView {
            is_focused: self.is_focused,
            is_pressed: self.is_pressed,
            is_active: self.is_active,
        }
    }
}

impl Default for State {
    fn default() -> (state: State)
        ensures
            state@ == StateView::idle(),
    {
        State { is_focused: false, is_pressed: false, is_active: false }
    }
}

impl State {
    /// The state of a new button.
    pub fn new() -> (state: State)
        ensures
            state@ == StateView::idle(),
    {
        State { is_focused: false, is_pressed: false, is_active: false }
    }

    /// Tells whether the button has the focus.
    pub fn is_focused(&self) -> (b: bool)
        ensures
            b == self@.is_focused,
    {
        self.is_focused
    }

    /// Tells whether the button is held down.
    pub fn is_pressed(&self) -> (b: bool)
        ensures
            b == self@.is_pressed,
    {
        self.is_pressed
    }

    /// Tells whether the button was the last to be pressed.
    pub fn is_active(&self) -> (b: bool)
        ensures
            b == self@.is_active,
    {
        self.is_active
    }

    /// Holds the button down; it takes the focus with that.
    pub fn pressed(&mut self)
        ensures
            final(self)@ == StateView::held(),
    {
        self.is_focused = true;
        self.is_pressed = true;
        self.is_active = true;
    }

    /// Gives the button the focus and nothing else.
    pub fn focus(&mut self)
        ensures
            final(self)@ == StateView::focused(),
    {
        self.reset();
        self.is_focused = true;
    }

    /// Puts the button back into the state of a new button.
    pub fn reset(&mut self)
        ensures
            final(self)@ == StateView::idle(),
    {
        self.is_pressed = false;
        self.is_active = false;
        self.is_focused = false;
    }

    /// Takes the focus from the button, and with it every other state.
    pub fn unfocus(&mut self)
        ensures
            final(self)@ == StateView::idle(),
    {
        self.reset();
    }
}

/// A widget id: a number that was handed out, or a name that was chosen.
#[derive(Debug, Clone, PartialEq, Eq, Hash)]
pub enum WidgetId {
    /// A number from a source of ids.
    Unique(u64),
    /// A name.
    Custom(String),
}

/// The id of a button.
#[derive(Debug, Clone, PartialEq, Eq, Hash)]
pub struct Id(pub WidgetId);

/// A source of ids: it hands out the numbers one after the other.
#[derive(Debug)]
pub struct IdSource {
    next: u64,
}

impl View for IdSource {
    type V = u64;

    closed spec fn view(&self) -> u64 {
        self.next
    }
}

impl IdSource {
    /// A source that starts at zero.
    pub fn new() -> (source: IdSource)
        ensures
            source@ == 0,
    {
        IdSource { next: 0 }
    }
}

/// The number that follows `n`; after the largest number comes zero.
pub open spec fn following(n: u64) -> u64 {
    if n == u64::MAX {
        0
    } else {
        (n + 1) as u64
    }
}

impl Id {
    /// The name of the id, if it has one.
    pub open spec fn name(&self) -> Option<Seq<char>> {
        match self.0 {
            WidgetId::Custom(name) => Some(name@),
            WidgetId::Unique(_) => None,
        }
    }

    /// The number of the id, if it has one.
    pub open spec fn number(&self) -> Option<u64> {
        match self.0 {
            WidgetId::Unique(n) => Some(n),
            WidgetId::Custom(_) => None,
        }
    }

    /// An id with the given name.
    pub fn new(id: &str) -> (named: Id)
        ensures
            named.name() == Some(id@),
            named.number() is None,
    {
        Id(WidgetId::Custom(id.to_owned()))
    }

    /// An id with the next number of the source. The source moves on, so
    /// the id differs from the one it hands out next.
    pub fn unique(source: &mut IdSource) -> (id: Id)
        ensures
            id.number() == Some(old(source)@),
            id.name() is None,
            final(source)@ == following(old(source)@),
            final(source)@ != old(source)@,
    {
        let number = source.next;
        source.next = if number == u64::MAX {
            0
        } else {
            number + 1
        };
        Id(WidgetId::Unique(number))
    }
}

/// The number that a source hands out after it has handed out `steps`
/// numbers from `start` on.
pub open spec fn numbered(start: u64, steps: nat) -> u64
    decreases steps,
{
    if steps == 0 {
        start
    } else {
        following(numbered(start, (steps - 1) as nat))
    }
}

/// The numbers of a source go round: the number after `steps` steps is
/// `start + steps`, counted modulo the size of the range.
pub proof fn lemma_numbers_go_round(start: u64, steps: nat)
    ensures
        numbered(start, steps) == (start + steps) % 0x1_0000_0000_0000_0000,
    decreases steps,
{
    if steps == 0 {
        vstd::arithmetic::div_mod::lemma_small_mod(start as nat, 0x1_0000_0000_0000_0000);
    } else {
        let before = (steps - 1) as nat;
        lemma_numbers_go_round(start, before);
        let x = numbered(start, before);
        vstd::arithmetic::div_mod::lemma_add_mod_noop(
            start + before,
            1,
            0x1_0000_0000_0000_0000,
        );
        vstd::arithmetic::div_mod::lemma_small_mod(1, 0x1_0000_0000_0000_0000);
        if x == u64::MAX {
            vstd::arithmetic::div_mod::lemma_mod_self_0(0x1_0000_0000_0000_0000);
        } else {
            vstd::arithmetic::div_mod::lemma_small_mod(
                (x + 1) as nat,
                0x1_0000_0000_0000_0000,
            );
        }
    }
}

/// Ids from one source differ: two numbers that a source hands out are
/// different, as long as fewer numbers lie between them than there are
/// numbers at all.
pub proof fn lemma_unique_ids_differ(start: u64, earlier: nat, later: nat)
    requires
        earlier < later,
        later - earlier < 0x1_0000_0000_0000_0000,
    ensures
        numbered(start, earlier) != numbered(start, later),
{
    lemma_numbers_go_round(start, earlier);
    lemma_numbers_go_round(start, later);
    vstd::arithmetic::div_mod::lemma_mod_equivalence(
        start + later,
        start + earlier,
        0x1_0000_0000_0000_0000,
    );
    vstd::arithmetic::div_mod::lemma_small_mod(
        (later - earlier) as nat,
        0x1_0000_0000_0000_0000,
    );
}

impl From<Id> for WidgetId {
    fn from(id: Id) -> (inner: WidgetId) {
        id.0
    }
}

impl vstd::std_specs::convert::FromSpecImpl<Id> for WidgetId {
    open spec fn obeys_from_spec() -> bool {
        true
    }

    open spec fn from_spec(id: Id) -> WidgetId {
        id.0
    }
}

/// What an event means to a button.
#[derive(Debug, Clone, Copy, PartialEq, Eq, Structural)]
pub enum Trigger {
    /// The left mouse button or a finger went down.
    Press,
    /// The left mouse button or a finger went up.
    Release,
    /// The screen lost track of a finger.
    Lost,
    /// The enter key went down.
    Enter,
    /// Anything else.
    Nothing,
}

/// What an event means to a button.
pub open spec fn trigger_of(event: Event) -> Trigger {
    match event {
        Event::Mouse(crate::mouse::Event::ButtonPressed(Button::Left)) => Trigger::Press,
        Event::Touch(crate::touch::Event::FingerPressed { .. }) => Trigger::Press,
        Event::Mouse(crate::mouse::Event::ButtonReleased(Button::Left)) => Trigger::Release,
        Event::Touch(crate::touch::Event::FingerLifted { .. }) => Trigger::Release,
        Event::Touch(crate::touch::Event::FingerLost { .. }) => Trigger::Lost,
        Event::Keyboard(crate::keyboard::Event::KeyPressed { key: Key::Named(Named::Enter), .. }) => {
            Trigger::Enter
        },
        _ => Trigger::Nothing,
    }
}

/// What a button does with an event.
#[derive(Debug, Clone, Copy, PartialEq, Eq, Structural)]
pub struct Outcome {
    /// Whether the button used the event.
    pub status: Status,
    /// Whether the button sends its message.
    pub publish: bool,
}

/// The state of a button after an event.
///
/// A press over an enabled button holds it down; a press beside it puts it
/// back. A release lets a held button go. A lost finger puts the button
/// back. The enter key holds a focused, enabled button down. A disabled
/// button changes only when a finger is lost.
pub open spec fn state_after(
    trigger: Trigger,
    is_mouse_over: bool,
    is_enabled: bool,
    state: StateView,
) -> StateView {
    match trigger {
        Trigger::Press => if !is_enabled {
            state
        } else if is_mouse_over {
            StateView::held()
        } else {
            StateView::idle()
        },
        Trigger::Release => if is_enabled && state.is_pressed {
            StateView::idle()
        } else {
            state
        },
        Trigger::Lost => StateView::idle(),
        Trigger::Enter => if state.is_focused && is_enabled {
            StateView::held()
        } else {
            state
        },
        Trigger::Nothing => state,
    }
}

/// What a button does with an event.
///
/// It uses a press that lands on it, and the release of a button that was
/// held, wherever the release lands. It sends its message when a held
/// button is released over it, and when the enter key reaches it while it
/// has the focus. A disabled button uses nothing and sends nothing.
pub open spec fn outcome_of(
    trigger: Trigger,
    is_mouse_over: bool,
    is_enabled: bool,
    state: StateView,
) -> Outcome {
    match trigger {
        Trigger::Press => Outcome {
            status: if is_enabled && is_mouse_over {
                Status::Captured
            } else {
                Status::Ignored
            },
            publish: false,
        },
        Trigger::Release => if is_enabled && state.is_pressed {
            Outcome { status: Status::Captured, publish: is_mouse_over }
        } else {
            Outcome { status: Status::Ignored, publish: false }
        },
        Trigger::Enter => Outcome {
            status: Status::Ignored,
            publish: state.is_focused && is_enabled,
        },
        _ => Outcome { status: Status::Ignored, publish: false },
    }
}

/// Tells what an event means to a button.
pub fn classify(event: &Event) -> (trigger: Trigger)
    ensures
        trigger == trigger_of(*event),
{
    match event {
        Event::Mouse(crate::mouse::Event::ButtonPressed(Button::Left)) => Trigger::Press,
        Event::Touch(crate::touch::Event::FingerPressed { .. }) => Trigger::Press,
        Event::Mouse(crate::mouse::Event::ButtonReleased(Button::Left)) => Trigger::Release,
        Event::Touch(crate::touch::Event::FingerLifted { .. }) => Trigger::Release,
        Event::Touch(crate::touch::Event::FingerLost { .. }) => Trigger::Lost,
        Event::Keyboard(crate::keyboard::Event::KeyPressed { key, .. }) => {
            if key.names(Named::Enter) {
                Trigger::Enter
            } else {
                Trigger::Nothing
            }
        },
        _ => Trigger::Nothing,
    }
}

/// Handles an event for a button: brings its state up to date and tells
/// whether the event was used and whether the message is to be sent.
///
/// `is_mouse_over` says whether the cursor is over the button, `is_enabled`
/// whether the button has a message to send.
pub fn update(event: &Event, is_mouse_over: bool, is_enabled: bool, state: &mut State) -> (outcome:
    Outcome)
    ensures
        outcome == outcome_of(trigger_of(*event), is_mouse_over, is_enabled, old(state)@),
        final(state)@ == state_after(trigger_of(*event), is_mouse_over, is_enabled, old(state)@),
{
    match classify(event) {
        Trigger::Press => {
            if is_enabled {
                if is_mouse_over {
                    state.pressed();
                    return Outcome { status: Status::Captured, publish: false };
                } else {
                    state.reset();
                }
            }
        },
        Trigger::Release => {
            if is_enabled {
                if state.is_pressed() {
                    state.reset();
                    return Outcome { status: Status::Captured, publish: is_mouse_over };
                }
            }
        },
        Trigger::Lost => {
            state.reset();
        },
        Trigger::Enter => {
            if state.is_focused() {
                if is_enabled {
                    state.pressed();
                    return Outcome { status: Status::Ignored, publish: true };
                }
            }
        },
        Trigger::Nothing => {},
    }
    Outcome { status: Status::Ignored, publish: false }
}

/// How a button is to be shown.
#[derive(Debug, Clone, Copy, PartialEq, Eq, Structural)]
pub enum Look {
    /// As a button that cannot be pressed.
    Disabled,
    /// As a button that is held down.
    Pressed,
    /// As a button under the cursor.
    Hovered,
    /// As a button that has the focus; `is_active` tells whether it was the
    /// last to be pressed.
    Focused {
        /// Whether the button was the last to be pressed.
        is_active: bool,
    },
    /// As a button at rest.
    Active,
}

/// How a button is to be shown: a disabled button as disabled, whatever
/// else holds; a button under the cursor as pressed or hovered; any other
/// button as focused or at rest.
pub open spec fn look_of(is_mouse_over: bool, is_enabled: bool, state: StateView) -> Look {
    if !is_enabled {
        Look::Disabled
    } else if is_mouse_over {
        if state.is_pressed {
            Look::Pressed
        } else {
            Look::Hovered
        }
    } else if state.is_focused {
        Look::Focused { is_active: state.is_active }
    } else {
        Look::Active
    }
}

/// Decides how a button is to be drawn.
pub fn draw(is_mouse_over: bool, is_enabled: bool, state: &State) -> (look: Look)
    ensures
        look == look_of(is_mouse_over, is_enabled, state@),
{
    if !is_enabled {
        Look::Disabled
    } else if is_mouse_over {
        if state.is_pressed() {
            Look::Pressed
        } else {
            Look::Hovered
        }
    } else if state.is_focused() {
        Look::Focused { is_active: state.is_active() }
    } else {
        Look::Active
    }
}

/// The look of the cursor over a button: a pointer over an enabled button,
/// and nothing special otherwise.
pub open spec fn interaction_of(is_mouse_over: bool, is_enabled: bool) -> Interaction {
    if is_mouse_over && is_enabled {
        Interaction::Pointer
    } else {
        Interaction::idle()
    }
}

/// Gives the look of the cursor for a button.
pub fn mouse_interaction(is_mouse_over: bool, is_enabled: bool) -> (interaction: Interaction)
    ensures
        interaction == interaction_of(is_mouse_over, is_enabled),
{
    if is_mouse_over && is_enabled {
        Interaction::Pointer
    } else {
        Interaction::default()
    }
}

/// A button sends its message only while it is enabled, and it uses an
/// event only while it is enabled.
pub proof fn lemma_disabled_button_is_silent(trigger: Trigger, is_mouse_over: bool, state: StateView)
    ensures
        !outcome_of(trigger, is_mouse_over, false, state).publish,
        outcome_of(trigger, is_mouse_over, false, state).status == Status::Ignored,
        look_of(is_mouse_over, false, state) == Look::Disabled,
        interaction_of(is_mouse_over, false) == Interaction::idle(),
{
}

/// A click sends the message: a press over an enabled button followed by a
/// release over it is used both times, sends the message on the release,
/// and leaves the button as a new one.
pub proof fn lemma_click_publishes(state: StateView)
    ensures
        ({
            let held = state_after(Trigger::Press, true, true, state);
            &&& outcome_of(Trigger::Press, true, true, state).status == Status::Captured
            &&& outcome_of(Trigger::Release, true, true, held) == (Outcome {
                status: Status::Captured,
                publish: true,
            })
            &&& state_after(Trigger::Release, true, true, held) == StateView::idle()
        }),
{
}

/// A press that is let go beside the button sends nothing.
pub proof fn lemma_release_outside_is_silent(state: StateView)
    ensures
        ({
            let held = state_after(Trigger::Press, true, true, state);
            !outcome_of(Trigger::Release, false, true, held).publish
        }),
{
}

} // verus!

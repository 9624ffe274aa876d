//! The events of the compositor, sorted into a closed set of kinds, and
//! their translation into the events that the application receives.
//!
//! The translation is a function of the event, the tracked modifier state
//! and the two maps of surfaces. It gives no, one or two events, in a fixed
//! order, and it changes the modifier state on a modifiers event only.

use vstd::prelude::*;
use std::collections::HashMap;
use crate::conversion::modifiers_to_native;
use crate::conversion::native_button;
use crate::conversion::native_modifiers;
use crate::conversion::native_scroll;
use crate::conversion::pointer_axis_to_native;
use crate::conversion::pointer_button_to_native;
use crate::data_device::DndAction;
use crate::data_device::DndIcon;
use crate::event::wayland;
use crate::event::wayland::LayerEvent;
use crate::event::wayland::PopupEvent;
use crate::event::wayland::SessionLockEvent;
use crate::event::Event;
use crate::event::PlatformSpecific;
use crate::handle::Fixed;
use crate::handle::KeyboardHandle;
use crate::handle::ObjectId;
use crate::handle::OutputHandle;
use crate::handle::PointerHandle;
use crate::handle::SeatHandle;
use crate::handle::SurfaceHandle;
use crate::handle::SurfaceId;
use crate::handle::ViewportHandle;
use crate::keyboard::key::Key;
use crate::keyboard::key::Location;
use crate::keyboard::physical::PhysicalKey;
use crate::keymap::key_location;
use crate::keymap::keysym_to_logical_key;
use crate::keymap::location_of;
use crate::keymap::logical_key_of;
use crate::output::OutputInfo;
use crate::seat::Capability;
use crate::seat::KeyEvent;
use crate::seat::Modifiers;
use crate::seat::PointerEvent;
use crate::seat::PointerEventKind;
use crate::shell::LayerSurfaceConfigure;
use crate::shell::PopupConfigure;
use crate::shell::SessionLockSurfaceConfigure;
use crate::shell::WindowConfigure;
use crate::shell::WindowManagerCapabilities;
use crate::shell::WindowState;
use crate::surface::lookup;
use crate::surface::resolve;
use crate::surface::SurfaceIdentity;

verus! {

/// `std::time::Instant`, a point in time of the monotonic clock. It is only
/// carried along: nothing is said of what a value holds.
#[verifier::external_type_specification]
#[verifier::external_body]
pub struct ExInstant(std::time::Instant);

/// What the event loop hands to its owner, one after the other.
pub enum IcedSctkEvent<T> {
    /// New events have arrived and are about to be handed over.
    NewEvents(StartCause),
    /// An event that the application sent to itself.
    UserEvent(T),
    /// An event of the compositor.
    SctkEvent(SctkEvent),
    /// All input of this round has been handed over; drawing comes next.
    MainEventsCleared,
    /// The surface with the given object id has to be drawn anew.
    RedrawRequested(ObjectId),
    /// All drawing of this round is done.
    RedrawEventsCleared,
    /// The loop is shutting down; this is the last event.
    LoopDestroyed,
    /// A drag was started with an icon surface.
    DndSurfaceCreated(SurfaceHandle, DndIcon, SurfaceId),
    /// The compositor asks for the next frame of a surface.
    Frame(SurfaceHandle),
}

/// A size in hardware pixels.
#[derive(Debug, Clone, Copy, PartialEq, Eq, Hash, Structural)]
pub struct PhysicalSize {
    /// The width.
    pub width: u32,
    /// The height.
    pub height: u32,
}

/// An event of the compositor.
#[derive(Debug, Clone, PartialEq, Eq)]
pub enum SctkEvent {
    /// A seat came, went, or changed its devices.
    SeatEvent {
        /// What happened.
        variant: SeatEventVariant,
        /// The seat.
        id: SeatHandle,
    },
    /// A pointer did something.
    PointerEvent {
        /// What happened.
        variant: PointerEvent,
        /// The pointer.
        ptr_id: PointerHandle,
        /// Its seat.
        seat_id: SeatHandle,
    },
    /// A keyboard did something.
    KeyboardEvent {
        /// What happened.
        variant: KeyboardEventVariant,
        /// The keyboard.
        kbd_id: KeyboardHandle,
        /// Its seat.
        seat_id: SeatHandle,
    },
    /// Something happened to a window.
    WindowEvent {
        /// What happened.
        variant: WindowEventVariant,
        /// The surface of the window.
        id: SurfaceHandle,
    },
    /// Something happened to a layer surface.
    LayerSurfaceEvent {
        /// What happened.
        variant: LayerSurfaceEventVariant,
        /// The surface.
        id: SurfaceHandle,
    },
    /// Something happened to a popup.
    PopupEvent {
        /// What happened.
        variant: PopupEventVariant,
        /// The window or layer surface at the root of the popup.
        toplevel_id: SurfaceHandle,
        /// The surface that the popup belongs to, of any kind.
        parent_id: SurfaceHandle,
        /// The surface of the popup.
        id: SurfaceHandle,
    },
    /// An output appeared.
    NewOutput {
        /// The output.
        id: OutputHandle,
        /// Its description, where one is known.
        info: Option<OutputInfo>,
    },
    /// The description of an output changed.
    UpdateOutput {
        /// The output.
        id: OutputHandle,
        /// Its new description.
        info: OutputInfo,
    },
    /// An output went away.
    RemovedOutput(OutputHandle),
    /// The scale of an output changed.
    ScaleFactorChanged {
        /// The new scale, in 120ths.
        factor: u32,
        /// The output.
        id: OutputHandle,
        /// The size that the surface has at the new scale.
        inner_size: PhysicalSize,
    },
    /// Something happened to data that the application offers.
    DataSource(DataSourceEvent),
    /// Something happened to data that is offered to the application.
    DndOffer {
        /// What happened.
        event: DndOfferEvent,
        /// The surface under the drag.
        surface: SurfaceHandle,
    },
    /// The session is locked.
    SessionLocked,
    /// The compositor ended the lock, or never granted it.
    SessionLockFinished,
    /// A lock surface was created.
    SessionLockSurfaceCreated {
        /// The surface.
        surface: SurfaceHandle,
        /// Its id in the application.
        native_id: SurfaceId,
    },
    /// A lock surface is configured.
    SessionLockSurfaceConfigure {
        /// The surface.
        surface: SurfaceHandle,
        /// What the compositor asks for.
        configure: SessionLockSurfaceConfigure,
        /// Whether this is the first configure of the surface.
        first: bool,
    },
    /// The session is unlocked.
    SessionUnlocked,
}

/// What happened to data that the application offers.
#[derive(Debug, Clone, PartialEq, Eq)]
pub enum DataSourceEvent {
    /// The compositor accepted an action for the drag.
    DndActionAccepted(DndAction),
    /// A target accepted a mime type, or none.
    MimeAccepted(Option<String>),
    /// The drag is over.
    DndFinished,
    /// The drag was cancelled.
    DndCancelled,
    /// The drop was performed.
    DndDropPerformed,
    /// The selection is asked for.
    SendSelectionData {
        /// The mime type in which it is asked for.
        mime_type: String,
    },
    /// The dragged data is asked for.
    SendDndData {
        /// The mime type in which it is asked for.
        mime_type: String,
    },
}

/// What happened to data that is offered to the application by a drag.
#[derive(Debug, Clone, PartialEq, Eq)]
pub enum DndOfferEvent {
    /// A drag came onto a surface.
    Enter {
        /// Where, to the side.
        x: Fixed,
        /// Where, up or down.
        y: Fixed,
        /// The mime types on offer.
        mime_types: Vec<String>,
    },
    /// The drag left the surface.
    Leave,
    /// The drag moved.
    Motion {
        /// Where, to the side.
        x: Fixed,
        /// Where, up or down.
        y: Fixed,
    },
    /// The data was dropped.
    DropPerformed,
    /// The dropped data arrived.
    Data {
        /// The bytes.
        data: Vec<u8>,
        /// Their mime type.
        mime_type: String,
    },
    /// The actions that the source offers.
    SourceActions(DndAction),
    /// The action that the compositor chose.
    SelectedAction(DndAction),
}

/// What happened to a seat.
#[derive(Debug, Clone, Copy, PartialEq, Eq, Structural)]
pub enum SeatEventVariant {
    /// The seat appeared.
    New,
    /// The seat went away.
    Remove,
    /// The seat got a device of the given kind, with the given object id.
    NewCapability(Capability, ObjectId),
    /// The seat lost a device.
    RemoveCapability(Capability, ObjectId),
}

/// What a keyboard did.
#[derive(Debug, Clone, PartialEq, Eq)]
pub enum KeyboardEventVariant {
    /// The keyboard focus left a surface.
    Leave(SurfaceHandle),
    /// The keyboard focus entered a surface.
    Enter(SurfaceHandle),
    /// A key went down.
    Press(KeyEvent),
    /// A key is held and repeats.
    Repeat(KeyEvent),
    /// A key went up.
    Release(KeyEvent),
    /// The modifier state changed.
    Modifiers(Modifiers),
}

/// What happened to a window.
#[derive(Debug, Clone, Copy, PartialEq, Eq)]
pub enum WindowEventVariant {
    /// The window was created, with the object id and the id in the application.
    Created(ObjectId, SurfaceId),
    /// The user asked for the window to be closed.
    Close,
    /// What the window manager can do changed.
    WmCapabilities(WindowManagerCapabilities),
    /// The compositor tells how large the window may become.
    ConfigureBounds {
        /// The largest width.
        width: u32,
        /// The largest height.
        height: u32,
    },
    /// The compositor configures the window: the request, the surface of
    /// the window, and whether this is its first configure.
    Configure(WindowConfigure, SurfaceHandle, bool),
    /// The state of the window changed.
    StateChanged(WindowState),
    /// The scale of the window changed: the scale in 120ths, and the
    /// viewport through which it is applied, if there is one.
    ScaleFactorChanged(u32, Option<ViewportHandle>),
}

/// What happened to a popup.
#[derive(Debug, Clone, Copy, PartialEq, Eq)]
pub enum PopupEventVariant {
    /// The popup was created.
    Created(ObjectId, SurfaceId),
    /// The compositor dismissed the popup.
    Done,
    /// The compositor configures the popup.
    Configure(PopupConfigure, SurfaceHandle, bool),
    /// The popup was placed anew, on the request with the given token.
    RepositionionedPopup {
        /// The token of the request.
        token: u32,
    },
    /// The popup got a size.
    Size(u32, u32),
    /// The scale of the popup changed.
    ScaleFactorChanged(u32, Option<ViewportHandle>),
}

/// What happened to a layer surface.
#[derive(Debug, Clone, Copy, PartialEq, Eq)]
pub enum LayerSurfaceEventVariant {
    /// The layer surface was created.
    Created(ObjectId, SurfaceId),
    /// The compositor closed the layer surface.
    Done,
    /// The compositor configures the layer surface.
    Configure(LayerSurfaceConfigure, SurfaceHandle, bool),
    /// The scale of the layer surface changed.
    ScaleFactorChanged(u32, Option<ViewportHandle>),
}

/// Why the event loop takes up its work again.
#[derive(Debug, Clone, Copy, PartialEq, Eq)]
pub enum StartCause {
    /// The time that the loop was asked to wait for has come.
    ResumeTimeReached {
        /// When the wait began.
        start: std::time::Instant,
        /// Until when the loop was to wait.
        requested_resume: std::time::Instant,
    },
    /// Events arrived before the wait was over.
    WaitCancelled {
        /// When the wait began.
        start: std::time::Instant,
        /// Until when the loop was to wait, if a time was set.
        requested_resume: Option<std::time::Instant>,
    },
    /// The loop was set to run without waiting.
    Poll,
    /// The loop has just been started.
    Init,
}

/// What the application asked of a surface and is still to be done.
#[derive(Debug, Clone, Copy, PartialEq, Eq, Structural)]
pub struct SurfaceUserRequest {
    /// Whether the surface is to be drawn anew.
    pub redraw_requested: bool,
    /// Whether the frame of the surface is to be refreshed.
    pub refresh_frame: bool,
}

impl SurfaceUserRequest {
    /// The state in which nothing is asked.
    pub open spec fn nothing() -> SurfaceUserRequest {
        SurfaceUserRequest { redraw_requested: false, refresh_frame: false }
    }
}

impl Default for SurfaceUserRequest {
    fn default() -> (request: SurfaceUserRequest)
        ensures
            request == SurfaceUserRequest::nothing(),
    {
        SurfaceUserRequest { redraw_requested: false, refresh_frame: false }
    }
}

/// What the compositor asked of a surface and is still to be done.
#[derive(Debug, Clone, Copy, PartialEq, Eq)]
pub struct SurfaceCompositorUpdate {
    /// The configure that came last, if one came.
    pub configure: Option<WindowConfigure>,
    /// The integer scale that came last, if one came.
    pub scale_factor: Option<i32>,
}

impl SurfaceCompositorUpdate {
    /// The state in which nothing is asked.
    pub open spec fn nothing() -> SurfaceCompositorUpdate {
        SurfaceCompositorUpdate { configure: None, scale_factor: None }
    }
}

impl Default for SurfaceCompositorUpdate {
    fn default() -> (update: SurfaceCompositorUpdate)
        ensures
            update == SurfaceCompositorUpdate::nothing(),
    {
        SurfaceCompositorUpdate { configure: None, scale_factor: None }
    }
}

/// The sequence of the event if there is one, and the empty sequence if not.
pub open spec fn zero_or_one(event: Option<Event>) -> Seq<Event> {
    match event {
        Some(event) => seq![event],
        None => Seq::empty(),
    }
}

/// A Wayland event as an event of the application.
pub open spec fn platform(event: wayland::Event) -> Event {
    Event::PlatformSpecific(PlatformSpecific::Wayland(event))
}

/// What a pointer event becomes.
///
/// Entering, leaving and moving give one event each. A button gives an
/// event if its raw code stands for a button, a scroll if its device is
/// known; otherwise there is none.
pub open spec fn pointer_events(variant: PointerEvent) -> Seq<Event> {
    match variant.kind {
        PointerEventKind::Enter { .. } => seq![Event::Mouse(crate::mouse::Event::CursorEntered)],
        PointerEventKind::Leave { .. } => seq![Event::Mouse(crate::mouse::Event::CursorLeft)],
        PointerEventKind::Motion { .. } => seq![
            Event::Mouse((crate::mouse::Event::CursorMoved { position: variant.position })),
        ],
        PointerEventKind::Press { button, .. } => match native_button(button) {
            Some(button) => seq![Event::Mouse(crate::mouse::Event::ButtonPressed(button))],
            None => Seq::empty(),
        },
        PointerEventKind::Release { button, .. } => match native_button(button) {
            Some(button) => seq![Event::Mouse(crate::mouse::Event::ButtonReleased(button))],
            None => Seq::empty(),
        },
        PointerEventKind::Axis { horizontal, vertical, source, .. } => match native_scroll(
            source,
            horizontal,
            vertical,
        ) {
            Some(delta) => seq![Event::Mouse((crate::mouse::Event::WheelScrolled { delta }))],
            None => Seq::empty(),
        },
    }
}

/// The event that tells a surface of its role that it got the keyboard
/// focus, or that it lost it. The icon of a drag is never told.
pub open spec fn focus_event(identity: SurfaceIdentity, surface: SurfaceHandle, focused: bool) -> Option<
    Event,
> {
    match identity {
        SurfaceIdentity::Window(id) => Some(
            Event::Window(
                id,
                if focused {
                    crate::window::Event::Focused
                } else {
                    crate::window::Event::Unfocused
                },
            ),
        ),
        SurfaceIdentity::Popup(id) => Some(
            platform(
                wayland::Event::Popup(
                    if focused {
                        PopupEvent::Focused
                    } else {
                        PopupEvent::Unfocused
                    },
                    surface,
                    id,
                ),
            ),
        ),
        SurfaceIdentity::LayerSurface(id) => Some(
            platform(
                wayland::Event::Layer(
                    if focused {
                        LayerEvent::Focused
                    } else {
                        LayerEvent::Unfocused
                    },
                    surface,
                    id,
                ),
            ),
        ),
        SurfaceIdentity::SessionLock(id) => Some(
            platform(
                wayland::Event::SessionLock(
                    if focused {
                        SessionLockEvent::Focused(surface, id)
                    } else {
                        SessionLockEvent::Unfocused(surface, id)
                    },
                ),
            ),
        ),
        SurfaceIdentity::DragIcon(_) => None,
    }
}

/// The event that tells a seat that its keyboard entered or left a surface.
pub open spec fn seat_event(seat: SeatHandle, focused: bool) -> Event {
    platform(
        wayland::Event::Seat(
            if focused {
                wayland::SeatEvent::Enter
            } else {
                wayland::SeatEvent::Leave
            },
            seat,
        ),
    )
}

/// What a change of the keyboard focus becomes: first the event for the
/// surface, if the surface lives and its role is told, then the event for
/// the seat, which comes in every case.
pub open spec fn focus_events(
    live: Map<ObjectId, SurfaceIdentity>,
    surface: SurfaceHandle,
    seat: SeatHandle,
    focused: bool,
) -> Seq<Event> {
    let first = match resolve(live, surface.id()) {
        Some(identity) => focus_event(identity, surface, focused),
        None => None,
    };
    zero_or_one(first) + seq![seat_event(seat, focused)]
}

/// The logical key of a key event: the key of its symbol, and where the
/// tables do not know the symbol, the text of the event as a character key.
pub open spec fn key_with_text(keysym: u32, utf8: Option<String>) -> Key {
    match logical_key_of(keysym) {
        Key::Unidentified => match utf8 {
            Some(text) => Key::Character(text),
            None => Key::Unidentified,
        },
        key => key,
    }
}

/// The event of a key that went down or repeats, under the given modifiers.
pub open spec fn key_pressed(event: KeyEvent, modifiers: Modifiers) -> Event {
    Event::Keyboard(
        (crate::keyboard::Event::KeyPressed {
            key: key_with_text(event.keysym, event.utf8),
            location: location_of(event.keysym),
            modifiers: native_modifiers(modifiers),
            text: event.utf8,
            physical_key: physical_key_of(event.raw_code),
        }),
    )
}

/// The event of a key that went up, under the given modifiers.
pub open spec fn key_released(event: KeyEvent, modifiers: Modifiers) -> Event {
    Event::Keyboard(
        (crate::keyboard::Event::KeyReleased {
            key: key_with_text(event.keysym, event.utf8),
            location: location_of(event.keysym),
            modifiers: native_modifiers(modifiers),
            physical_key: physical_key_of(event.raw_code),
        }),
    )
}

/// What a keyboard event becomes, under the modifier state before it.
///
/// A key event carries the modifiers as they were. A modifiers event
/// carries the new state.
pub open spec fn keyboard_events(
    variant: KeyboardEventVariant,
    seat: SeatHandle,
    modifiers: Modifiers,
    live: Map<ObjectId, SurfaceIdentity>,
) -> Seq<Event> {
    match variant {
        KeyboardEventVariant::Leave(surface) => focus_events(live, surface, seat, false),
        KeyboardEventVariant::Enter(surface) => focus_events(live, surface, seat, true),
        KeyboardEventVariant::Press(event) => seq![key_pressed(event, modifiers)],
        KeyboardEventVariant::Repeat(event) => seq![key_pressed(event, modifiers)],
        KeyboardEventVariant::Release(event) => seq![key_released(event, modifiers)],
        KeyboardEventVariant::Modifiers(new_state) => seq![
            Event::Keyboard(crate::keyboard::Event::ModifiersChanged(native_modifiers(new_state))),
        ],
    }
}

/// The resize that a configure asks for: the size it suggests, while the
/// user is resizing and both the width and the height are given.
pub open spec fn resize_of(configure: WindowConfigure) -> Option<crate::window::Event> {
    if configure.is_resizing() && configure.has_size() {
        Some(
            (crate::window::Event::Resized {
                width: configure.new_size.0->0,
                height: configure.new_size.1->0,
            }),
        )
    } else {
        None
    }
}

/// What a window event becomes.
///
/// The close of a window is looked up among the tombstones, because the
/// window was retired before the event arrives. Everything else is looked
/// up among the living. A surface that is not found gives no event.
pub open spec fn window_events(
    variant: WindowEventVariant,
    surface: SurfaceHandle,
    live: Map<ObjectId, SurfaceIdentity>,
    destroyed: Map<ObjectId, SurfaceIdentity>,
) -> Seq<Event> {
    match variant {
        WindowEventVariant::Close => match resolve(destroyed, surface.id()) {
            Some(identity) => seq![
                Event::Window(identity.inner(), crate::window::Event::CloseRequested),
            ],
            None => Seq::empty(),
        },
        WindowEventVariant::WmCapabilities(capabilities) => match resolve(live, surface.id()) {
            Some(identity) => seq![
                platform(
                    wayland::Event::Window(
                        wayland::WindowEvent::WmCapabilities(capabilities),
                        surface,
                        identity.inner(),
                    ),
                ),
            ],
            None => Seq::empty(),
        },
        WindowEventVariant::Configure(configure, configured, _) => match (
            resize_of(configure),
            resolve(live, configured.id()),
        ) {
            (Some(resized), Some(identity)) => seq![Event::Window(identity.inner(), resized)],
            _ => Seq::empty(),
        },
        WindowEventVariant::StateChanged(state) => match resolve(live, surface.id()) {
            Some(identity) => seq![
                platform(
                    wayland::Event::Window(
                        wayland::WindowEvent::State(state),
                        surface,
                        identity.inner(),
                    ),
                ),
            ],
            None => Seq::empty(),
        },
        WindowEventVariant::Created(..) => Seq::empty(),
        WindowEventVariant::ConfigureBounds { .. } => Seq::empty(),
        WindowEventVariant::ScaleFactorChanged(..) => Seq::empty(),
    }
}

/// What a layer surface event becomes: the end of the surface is told, as
/// long as its tombstone is there; nothing else is.
pub open spec fn layer_surface_events(
    variant: LayerSurfaceEventVariant,
    surface: SurfaceHandle,
    destroyed: Map<ObjectId, SurfaceIdentity>,
) -> Seq<Event> {
    match variant {
        LayerSurfaceEventVariant::Done => match resolve(destroyed, surface.id()) {
            Some(identity) => seq![
                platform(wayland::Event::Layer(LayerEvent::Done, surface, identity.inner())),
            ],
            None => Seq::empty(),
        },
        _ => Seq::empty(),
    }
}

/// What a popup event becomes: the end of the popup is told, as long as its
/// tombstone is there; nothing else is.
pub open spec fn popup_events(
    variant: PopupEventVariant,
    surface: SurfaceHandle,
    destroyed: Map<ObjectId, SurfaceIdentity>,
) -> Seq<Event> {
    match variant {
        PopupEventVariant::Done => match resolve(destroyed, surface.id()) {
            Some(identity) => seq![
                platform(wayland::Event::Popup(PopupEvent::Done, surface, identity.inner())),
            ],
            None => Seq::empty(),
        },
        _ => Seq::empty(),
    }
}

/// The event that the application sees for an event of offered data.
pub open spec fn native_dnd_offer(event: DndOfferEvent) -> wayland::DndOfferEvent {
    match event {
        DndOfferEvent::Enter { x, y, mime_types } => wayland::DndOfferEvent::Enter {
            x,
            y,
            mime_types,
        },
        DndOfferEvent::Leave => wayland::DndOfferEvent::Leave,
        DndOfferEvent::Motion { x, y } => wayland::DndOfferEvent::Motion { x, y },
        DndOfferEvent::DropPerformed => wayland::DndOfferEvent::DropPerformed,
        DndOfferEvent::Data { data, mime_type } => wayland::DndOfferEvent::DndData {
            data,
            mime_type,
        },
        DndOfferEvent::SourceActions(actions) => wayland::DndOfferEvent::SourceActions(actions),
        DndOfferEvent::SelectedAction(action) => wayland::DndOfferEvent::SelectedAction(action),
    }
}

/// The event that the application sees for an event of data it offers.
pub open spec fn native_data_source(event: DataSourceEvent) -> wayland::DataSourceEvent {
    match event {
        DataSourceEvent::DndActionAccepted(action) => wayland::DataSourceEvent::DndActionAccepted(
            action,
        ),
        DataSourceEvent::MimeAccepted(mime_type) => wayland::DataSourceEvent::MimeAccepted(
            mime_type,
        ),
        DataSourceEvent::DndFinished => wayland::DataSourceEvent::DndFinished,
        DataSourceEvent::DndCancelled => wayland::DataSourceEvent::Cancelled,
        DataSourceEvent::DndDropPerformed => wayland::DataSourceEvent::DndDropPerformed,
        DataSourceEvent::SendSelectionData { mime_type } => {
            wayland::DataSourceEvent::SendSelectionData(mime_type)
        },
        DataSourceEvent::SendDndData { mime_type } => wayland::DataSourceEvent::SendDndData(
            mime_type,
        ),
    }
}

impl SctkEvent {
    /// Whether the event keeps to what the compositor owes: a configure
    /// that resizes a living window gives both the width and the height.
    pub open spec fn conforms(&self, live: Map<ObjectId, SurfaceIdentity>) -> bool {
        match *self {
            SctkEvent::WindowEvent {
                variant: WindowEventVariant::Configure(configure, configured, _),
                ..
            } => configure.is_resizing() && live.contains_key(configured.id())
                ==> configure.has_size(),
            _ => true,
        }
    }

    /// The events that the application receives for this event, in their
    /// order, given the modifier state before the event and the two maps of
    /// surfaces.
    pub open spec fn normalized(
        self,
        modifiers: Modifiers,
        live: Map<ObjectId, SurfaceIdentity>,
        destroyed: Map<ObjectId, SurfaceIdentity>,
    ) -> Seq<Event> {
        match self {
            SctkEvent::PointerEvent { variant, .. } => pointer_events(variant),
            SctkEvent::KeyboardEvent { variant, seat_id, .. } => keyboard_events(
                variant,
                seat_id,
                modifiers,
                live,
            ),
            SctkEvent::WindowEvent { variant, id } => window_events(variant, id, live, destroyed),
            SctkEvent::LayerSurfaceEvent { variant, id } => layer_surface_events(
                variant,
                id,
                destroyed,
            ),
            SctkEvent::PopupEvent { variant, id, .. } => popup_events(variant, id, destroyed),
            SctkEvent::NewOutput { id, info } => seq![
                platform(wayland::Event::Output(wayland::OutputEvent::Created(info), id)),
            ],
            SctkEvent::UpdateOutput { id, info } => seq![
                platform(wayland::Event::Output(wayland::OutputEvent::InfoUpdate(info), id)),
            ],
            SctkEvent::RemovedOutput(id) => seq![
                platform(wayland::Event::Output(wayland::OutputEvent::Removed, id)),
            ],
            SctkEvent::DataSource(event) => seq![
                platform(wayland::Event::DataSource(native_data_source(event))),
            ],
            SctkEvent::DndOffer { event, .. } => seq![
                platform(wayland::Event::DndOffer(native_dnd_offer(event))),
            ],
            SctkEvent::SessionLocked => seq![
                platform(wayland::Event::SessionLock(SessionLockEvent::Locked)),
            ],
            SctkEvent::SessionLockFinished => seq![
                platform(wayland::Event::SessionLock(SessionLockEvent::Finished)),
            ],
            SctkEvent::SessionUnlocked => seq![
                platform(wayland::Event::SessionLock(SessionLockEvent::Unlocked)),
            ],
            SctkEvent::SeatEvent { .. } => Seq::empty(),
            SctkEvent::ScaleFactorChanged { .. } => Seq::empty(),
            SctkEvent::SessionLockSurfaceCreated { .. } => Seq::empty(),
            SctkEvent::SessionLockSurfaceConfigure { .. } => Seq::empty(),
        }
    }

    /// The modifier state after this event: the state that a modifiers
    /// event brings, and the state as it was after any other event.
    pub open spec fn modifiers_after(self, modifiers: Modifiers) -> Modifiers {
        match self {
            SctkEvent::KeyboardEvent { variant: KeyboardEventVariant::Modifiers(new_state), .. } => {
                new_state
            },
            _ => modifiers,
        }
    }

    /// Tells whether the event keeps to what the compositor owes, so that
    /// it can be translated.
    pub fn is_conformant(&self, surface_ids: &HashMap<ObjectId, SurfaceIdentity>) -> (b: bool)
        ensures
            b == self.conforms(surface_ids@),
    {
        match self {
            SctkEvent::WindowEvent {
                variant: WindowEventVariant::Configure(configure, configured, _),
                ..
            } => {
                if configure.is_resizing() && lookup(surface_ids, configured.id()).is_some() {
                    configure.has_size()
                } else {
                    true
                }
            },
            _ => true,
        }
    }

    /// Translates the event into the events that the application receives.
    ///
    /// The surfaces are looked up in `surface_ids` while they live and in
    /// `destroyed_surface_ids` once they were retired. The modifier state in
    /// `modifiers` is replaced by a modifiers event and read by key events.
    pub fn to_native(
        self,
        modifiers: &mut Modifiers,
        surface_ids: &HashMap<ObjectId, SurfaceIdentity>,
        destroyed_surface_ids: &HashMap<ObjectId, SurfaceIdentity>,
    ) -> (events: Vec<Event>)
        requires
            self.conforms(surface_ids@),
        ensures
            events@ == self.normalized(*old(modifiers), surface_ids@, destroyed_surface_ids@),
            *final(modifiers) == self.modifiers_after(*old(modifiers)),
    {
        match self {
            SctkEvent::SeatEvent { .. } => Vec::new(),
            SctkEvent::PointerEvent { variant, .. } => pointer_to_native(variant),
            SctkEvent::KeyboardEvent { variant, seat_id, .. } => keyboard_to_native(
                variant,
                seat_id,
                modifiers,
                surface_ids,
            ),
            SctkEvent::WindowEvent { variant, id } => window_to_native(
                variant,
                id,
                surface_ids,
                destroyed_surface_ids,
            ),
            SctkEvent::LayerSurfaceEvent { variant, id } => match variant {
                LayerSurfaceEventVariant::Done => match lookup(destroyed_surface_ids, id.id()) {
                    Some(identity) => one(
                        wrap(wayland::Event::Layer(LayerEvent::Done, id, identity.inner())),
                    ),
                    None => Vec::new(),
                },
                _ => Vec::new(),
            },
            SctkEvent::PopupEvent { variant, id, .. } => match variant {
                PopupEventVariant::Done => match lookup(destroyed_surface_ids, id.id()) {
                    Some(identity) => one(
                        wrap(wayland::Event::Popup(PopupEvent::Done, id, identity.inner())),
                    ),
                    None => Vec::new(),
                },
                _ => Vec::new(),
            },
            SctkEvent::NewOutput { id, info } => one(
                wrap(wayland::Event::Output(wayland::OutputEvent::Created(info), id)),
            ),
            SctkEvent::UpdateOutput { id, info } => one(
                wrap(wayland::Event::Output(wayland::OutputEvent::InfoUpdate(info), id)),
            ),
            SctkEvent::RemovedOutput(id) => one(
                wrap(wayland::Event::Output(wayland::OutputEvent::Removed, id)),
            ),
            SctkEvent::ScaleFactorChanged { .. } => Vec::new(),
            SctkEvent::DndOffer { event, .. } => one(
                wrap(wayland::Event::DndOffer(dnd_offer_to_native(event))),
            ),
            SctkEvent::DataSource(event) => one(
                wrap(wayland::Event::DataSource(data_source_to_native(event))),
            ),
            SctkEvent::SessionLocked => one(
                wrap(wayland::Event::SessionLock(SessionLockEvent::Locked)),
            ),
            SctkEvent::SessionLockFinished => one(
                wrap(wayland::Event::SessionLock(SessionLockEvent::Finished)),
            ),
            SctkEvent::SessionLockSurfaceCreated { .. } => Vec::new(),
            SctkEvent::SessionLockSurfaceConfigure { .. } => Vec::new(),
            SctkEvent::SessionUnlocked => one(
                wrap(wayland::Event::SessionLock(SessionLockEvent::Unlocked)),
            ),
        }
    }
}

/// A Wayland event as an event of the application.
fn wrap(event: wayland::Event) -> (wrapped: Event)
    ensures
        wrapped == platform(event),
{
    Event::PlatformSpecific(PlatformSpecific::Wayland(event))
}

/// The sequence of one event.
fn one(event: Event) -> (events: Vec<Event>)
    ensures
        events@ == seq![event],
{
    let mut events: Vec<Event> = Vec::new();
    events.push(event);
    events
}

/// The sequence of the event if there is one.
fn optional(event: Option<Event>) -> (events: Vec<Event>)
    ensures
        events@ == zero_or_one(event),
{
    match event {
        Some(event) => one(event),
        None => Vec::new(),
    }
}

/// Translates a pointer event.
fn pointer_to_native(variant: PointerEvent) -> (events: Vec<Event>)
    ensures
        events@ == pointer_events(variant),
{
    match variant.kind {
        PointerEventKind::Enter { .. } => one(Event::Mouse(crate::mouse::Event::CursorEntered)),
        PointerEventKind::Leave { .. } => one(Event::Mouse(crate::mouse::Event::CursorLeft)),
        PointerEventKind::Motion { .. } => one(
            Event::Mouse(crate::mouse::Event::CursorMoved { position: variant.position }),
        ),
        PointerEventKind::Press { time: _, button, serial: _ } => match pointer_button_to_native(
            button,
        ) {
            Some(button) => one(Event::Mouse(crate::mouse::Event::ButtonPressed(button))),
            None => Vec::new(),
        },
        PointerEventKind::Release { time: _, button, serial: _ } => match pointer_button_to_native(
            button,
        ) {
            Some(button) => one(Event::Mouse(crate::mouse::Event::ButtonReleased(button))),
            None => Vec::new(),
        },
        PointerEventKind::Axis { time: _, horizontal, vertical, source } => match pointer_axis_to_native(
            source,
            horizontal,
            vertical,
        ) {
            Some(delta) => one(Event::Mouse(crate::mouse::Event::WheelScrolled { delta })),
            None => Vec::new(),
        },
    }
}

/// Gives the event that tells a surface of its role that the keyboard
/// focus came or went.
fn focus_to_native(identity: SurfaceIdentity, surface: SurfaceHandle, focused: bool) -> (event:
    Option<Event>)
    ensures
        event == focus_event(identity, surface, focused),
{
    match identity {
        SurfaceIdentity::LayerSurface(id) => {
            let kind = if focused {
                LayerEvent::Focused
            } else {
                LayerEvent::Unfocused
            };
            Some(wrap(wayland::Event::Layer(kind, surface, id)))
        },
        SurfaceIdentity::Window(id) => {
            let kind = if focused {
                crate::window::Event::Focused
            } else {
                crate::window::Event::Unfocused
            };
            Some(Event::Window(id, kind))
        },
        SurfaceIdentity::Popup(id) => {
            let kind = if focused {
                PopupEvent::Focused
            } else {
                PopupEvent::Unfocused
            };
            Some(wrap(wayland::Event::Popup(kind, surface, id)))
        },
        SurfaceIdentity::DragIcon(_) => None,
        SurfaceIdentity::SessionLock(id) => {
            let kind = if focused {
                SessionLockEvent::Focused(surface, id)
            } else {
                SessionLockEvent::Unfocused(surface, id)
            };
            Some(wrap(wayland::Event::SessionLock(kind)))
        },
    }
}

/// Translates a change of the keyboard focus: the event for the surface
/// first, where there is one, then the event for the seat.
fn focus_change_to_native(
    surface_ids: &HashMap<ObjectId, SurfaceIdentity>,
    surface: SurfaceHandle,
    seat: SeatHandle,
    focused: bool,
) -> (events: Vec<Event>)
    ensures
        events@ == focus_events(surface_ids@, surface, seat, focused),
{
    let first = match lookup(surface_ids, surface.id()) {
        Some(identity) => focus_to_native(identity, surface, focused),
        None => None,
    };
    let mut events = optional(first);
    let kind = if focused {
        wayland::SeatEvent::Enter
    } else {
        wayland::SeatEvent::Leave
    };
    events.push(wrap(wayland::Event::Seat(kind, seat)));
    events
}

/// Gives the logical key and the place of the key of a key event. Where the
/// tables do not know the symbol and the event brings text, the key is the
/// character key of that text.
fn keysym_to_vkey_location(keysym: u32, utf8: &Option<String>) -> (key_location: (Key, Location))
    ensures
        key_location.0 == key_with_text(keysym, *utf8),
        key_location.1 == location_of(keysym),
{
    let mut key = keysym_to_logical_key(keysym);
    if let Key::Unidentified = key {
        if let Some(text) = utf8 {
            key = Key::Character(text.clone());
        }
    }
    let location = key_location(keysym);
    (key, location)
}

/// Translates a keyboard event.
fn keyboard_to_native(
    variant: KeyboardEventVariant,
    seat: SeatHandle,
    modifiers: &mut Modifiers,
    surface_ids: &HashMap<ObjectId, SurfaceIdentity>,
) -> (events: Vec<Event>)
    ensures
        events@ == keyboard_events(variant, seat, *old(modifiers), surface_ids@),
        *final(modifiers) == (match variant {
            KeyboardEventVariant::Modifiers(new_state) => new_state,
            _ => *old(modifiers),
        }),
{
    match variant {
        KeyboardEventVariant::Leave(surface) => focus_change_to_native(
            surface_ids,
            surface,
            seat,
            false,
        ),
        KeyboardEventVariant::Enter(surface) => focus_change_to_native(
            surface_ids,
            surface,
            seat,
            true,
        ),
        KeyboardEventVariant::Press(event) => one(press_to_native(event, *modifiers)),
        KeyboardEventVariant::Repeat(event) => one(press_to_native(event, *modifiers)),
        KeyboardEventVariant::Release(event) => {
            let (key, location) = keysym_to_vkey_location(event.keysym, &event.utf8);
            one(
                Event::Keyboard(
                    crate::keyboard::Event::KeyReleased {
                        key,
                        location,
                        modifiers: modifiers_to_native(*modifiers),
                        physical_key: physical_key(event.raw_code),
                    },
                ),
            )
        },
        KeyboardEventVariant::Modifiers(new_state) => {
            *modifiers = new_state;
            one(
                Event::Keyboard(
                    crate::keyboard::Event::ModifiersChanged(modifiers_to_native(new_state)),
                ),
            )
        },
    }
}

/// Gives the event of a key that went down or repeats.
fn press_to_native(event: KeyEvent, modifiers: Modifiers) -> (pressed: Event)
    ensures
        pressed == key_pressed(event, modifiers),
{
    let (key, location) = keysym_to_vkey_location(event.keysym, &event.utf8);
    Event::Keyboard(
        crate::keyboard::Event::KeyPressed {
            key,
            location,
            modifiers: modifiers_to_native(modifiers),
            text: event.utf8,
            physical_key: physical_key(event.raw_code),
        },
    )
}

/// Translates a window event.
fn window_to_native(
    variant: WindowEventVariant,
    surface: SurfaceHandle,
    surface_ids: &HashMap<ObjectId, SurfaceIdentity>,
    destroyed_surface_ids: &HashMap<ObjectId, SurfaceIdentity>,
) -> (events: Vec<Event>)
    requires
        (SctkEvent::WindowEvent { variant, id: surface }).conforms(surface_ids@),
    ensures
        events@ == window_events(variant, surface, surface_ids@, destroyed_surface_ids@),
{
    match variant {
        WindowEventVariant::Created(..) => Vec::new(),
        WindowEventVariant::Close => match lookup(destroyed_surface_ids, surface.id()) {
            Some(identity) => one(
                Event::Window(identity.inner(), crate::window::Event::CloseRequested),
            ),
            None => Vec::new(),
        },
        WindowEventVariant::WmCapabilities(capabilities) => match lookup(
            surface_ids,
            surface.id(),
        ) {
            Some(identity) => one(
                wrap(
                    wayland::Event::Window(
                        wayland::WindowEvent::WmCapabilities(capabilities),
                        surface,
                        identity.inner(),
                    ),
                ),
            ),
            None => Vec::new(),
        },
        WindowEventVariant::ConfigureBounds { .. } => Vec::new(),
        WindowEventVariant::Configure(configure, configured, _) => {
            if configure.is_resizing() {
                match lookup(surface_ids, configured.id()) {
                    Some(identity) => one(
                        Event::Window(
                            identity.inner(),
                            crate::window::Event::Resized {
                                width: configure.new_size.0.unwrap(),
                                height: configure.new_size.1.unwrap(),
                            },
                        ),
                    ),
                    None => Vec::new(),
                }
            } else {
                Vec::new()
            }
        },
        WindowEventVariant::ScaleFactorChanged(..) => Vec::new(),
        WindowEventVariant::StateChanged(state) => match lookup(surface_ids, surface.id()) {
            Some(identity) => one(
                wrap(
                    wayland::Event::Window(
                        wayland::WindowEvent::State(state),
                        surface,
                        identity.inner(),
                    ),
                ),
            ),
            None => Vec::new(),
        },
    }
}

/// Translates an event of offered data.
fn dnd_offer_to_native(event: DndOfferEvent) -> (native: wayland::DndOfferEvent)
    ensures
        native == native_dnd_offer(event),
{
    match event {
        DndOfferEvent::Enter { mime_types, x, y } => wayland::DndOfferEvent::Enter {
            mime_types,
            x,
            y,
        },
        DndOfferEvent::Motion { x, y } => wayland::DndOfferEvent::Motion { x, y },
        DndOfferEvent::DropPerformed => wayland::DndOfferEvent::DropPerformed,
        DndOfferEvent::Leave => wayland::DndOfferEvent::Leave,
        DndOfferEvent::Data { mime_type, data } => wayland::DndOfferEvent::DndData {
            data,
            mime_type,
        },
        DndOfferEvent::SourceActions(actions) => wayland::DndOfferEvent::SourceActions(actions),
        DndOfferEvent::SelectedAction(action) => wayland::DndOfferEvent::SelectedAction(action),
    }
}

/// Translates an event of data that the application offers.
fn data_source_to_native(event: DataSourceEvent) -> (native: wayland::DataSourceEvent)
    ensures
        native == native_data_source(event),
{
    match event {
        DataSourceEvent::DndDropPerformed => wayland::DataSourceEvent::DndDropPerformed,
        DataSourceEvent::DndFinished => wayland::DataSourceEvent::DndFinished,
        DataSourceEvent::DndCancelled => wayland::DataSourceEvent::Cancelled,
        DataSourceEvent::MimeAccepted(mime_type) => wayland::DataSourceEvent::MimeAccepted(
            mime_type,
        ),
        DataSourceEvent::DndActionAccepted(action) => wayland::DataSourceEvent::DndActionAccepted(
            action,
        ),
        DataSourceEvent::SendDndData { mime_type } => wayland::DataSourceEvent::SendDndData(
            mime_type,
        ),
        DataSourceEvent::SendSelectionData { mime_type } => {
            wayland::DataSourceEvent::SendSelectionData(mime_type)
        },
    }
}

/// The physical key of a hardware code, and the unidentified key for a
/// code that the table does not hold.
pub open spec fn physical_key_of(rawcode: u32) -> PhysicalKey {
    match rawcode {
        1 => PhysicalKey::Escape,
        2 => PhysicalKey::Digit1,
        3 => PhysicalKey::Digit2,
        4 => PhysicalKey::Digit3,
        5 => PhysicalKey::Digit4,
        6 => PhysicalKey::Digit5,
        7 => PhysicalKey::Digit6,
        8 => PhysicalKey::Digit7,
        9 => PhysicalKey::Digit8,
        10 => PhysicalKey::Digit9,
        11 => PhysicalKey::Digit0,
        12 => PhysicalKey::Minus,
        13 => PhysicalKey::Equal,
        14 => PhysicalKey::Backspace,
        15 => PhysicalKey::Tab,
        16 => PhysicalKey::KeyQ,
        17 => PhysicalKey::KeyW,
        18 => PhysicalKey::KeyE,
        19 => PhysicalKey::KeyR,
        20 => PhysicalKey::KeyT,
        21 => PhysicalKey::KeyY,
        22 => PhysicalKey::KeyU,
        23 => PhysicalKey::KeyI,
        24 => PhysicalKey::KeyO,
        25 => PhysicalKey::KeyP,
        26 => PhysicalKey::BracketLeft,
        27 => PhysicalKey::BracketRight,
        28 => PhysicalKey::Enter,
        29 => PhysicalKey::ControlLeft,
        30 => PhysicalKey::KeyA,
        31 => PhysicalKey::KeyS,
        32 => PhysicalKey::KeyD,
        33 => PhysicalKey::KeyF,
        34 => PhysicalKey::KeyG,
        35 => PhysicalKey::KeyH,
        36 => PhysicalKey::KeyJ,
        37 => PhysicalKey::KeyK,
        38 => PhysicalKey::KeyL,
        39 => PhysicalKey::Semicolon,
        40 => PhysicalKey::Quote,
        41 => PhysicalKey::Backquote,
        42 => PhysicalKey::ShiftLeft,
        43 => PhysicalKey::Backslash,
        44 => PhysicalKey::KeyZ,
        45 => PhysicalKey::KeyX,
        46 => PhysicalKey::KeyC,
        47 => PhysicalKey::KeyV,
        48 => PhysicalKey::KeyB,
        49 => PhysicalKey::KeyN,
        50 => PhysicalKey::KeyM,
        51 => PhysicalKey::Comma,
        52 => PhysicalKey::Period,
        53 => PhysicalKey::Slash,
        54 => PhysicalKey::ShiftRight,
        55 => PhysicalKey::NumpadMultiply,
        56 => PhysicalKey::AltLeft,
        57 => PhysicalKey::Space,
        58 => PhysicalKey::CapsLock,
        59 => PhysicalKey::F1,
        60 => PhysicalKey::F2,
        61 => PhysicalKey::F3,
        62 => PhysicalKey::F4,
        63 => PhysicalKey::F5,
        64 => PhysicalKey::F6,
        65 => PhysicalKey::F7,
        66 => PhysicalKey::F8,
        67 => PhysicalKey::F9,
        68 => PhysicalKey::F10,
        69 => PhysicalKey::NumLock,
        70 => PhysicalKey::ScrollLock,
        71 => PhysicalKey::Numpad7,
        72 => PhysicalKey::Numpad8,
        73 => PhysicalKey::Numpad9,
        74 => PhysicalKey::NumpadSubtract,
        75 => PhysicalKey::Numpad4,
        76 => PhysicalKey::Numpad5,
        77 => PhysicalKey::Numpad6,
        78 => PhysicalKey::NumpadAdd,
        79 => PhysicalKey::Numpad1,
        80 => PhysicalKey::Numpad2,
        81 => PhysicalKey::Numpad3,
        82 => PhysicalKey::Numpad0,
        83 => PhysicalKey::NumpadDecimal,
        85 => PhysicalKey::Lang5,
        86 => PhysicalKey::IntlBackslash,
        87 => PhysicalKey::F11,
        88 => PhysicalKey::F12,
        89 => PhysicalKey::IntlRo,
        90 => PhysicalKey::Katakana,
        91 => PhysicalKey::Hiragana,
        92 => PhysicalKey::Convert,
        93 => PhysicalKey::KanaMode,
        94 => PhysicalKey::NonConvert,
        96 => PhysicalKey::NumpadEnter,
        97 => PhysicalKey::ControlRight,
        98 => PhysicalKey::NumpadDivide,
        99 => PhysicalKey::PrintScreen,
        100 => PhysicalKey::AltRight,
        102 => PhysicalKey::Home,
        103 => PhysicalKey::ArrowUp,
        104 => PhysicalKey::PageUp,
        105 => PhysicalKey::ArrowLeft,
        106 => PhysicalKey::ArrowRight,
        107 => PhysicalKey::End,
        108 => PhysicalKey::ArrowDown,
        109 => PhysicalKey::PageDown,
        110 => PhysicalKey::Insert,
        111 => PhysicalKey::Delete,
        113 => PhysicalKey::AudioVolumeMute,
        114 => PhysicalKey::AudioVolumeDown,
        115 => PhysicalKey::AudioVolumeUp,
        116 => PhysicalKey::Power,
        117 => PhysicalKey::NumpadEqual,
        119 => PhysicalKey::Pause,
        121 => PhysicalKey::NumpadComma,
        122 => PhysicalKey::Lang1,
        123 => PhysicalKey::Lang2,
        124 => PhysicalKey::IntlYen,
        125 => PhysicalKey::SuperLeft,
        126 => PhysicalKey::SuperRight,
        127 => PhysicalKey::ContextMenu,
        128 => PhysicalKey::BrowserStop,
        129 => PhysicalKey::Again,
        130 => PhysicalKey::Props,
        131 => PhysicalKey::Undo,
        133 => PhysicalKey::Copy,
        134 => PhysicalKey::Open,
        135 => PhysicalKey::Paste,
        136 => PhysicalKey::Find,
        137 => PhysicalKey::Cut,
        138 => PhysicalKey::Help,
        140 => PhysicalKey::LaunchApp2,
        142 => PhysicalKey::Sleep,
        143 => PhysicalKey::WakeUp,
        155 => PhysicalKey::LaunchMail,
        156 => PhysicalKey::BrowserFavorites,
        157 => PhysicalKey::LaunchApp1,
        158 => PhysicalKey::BrowserBack,
        159 => PhysicalKey::BrowserForward,
        162 => PhysicalKey::Eject,
        163 => PhysicalKey::MediaTrackNext,
        164 => PhysicalKey::MediaPlayPause,
        165 => PhysicalKey::MediaTrackPrevious,
        166 => PhysicalKey::MediaStop,
        172 => PhysicalKey::BrowserHome,
        173 => PhysicalKey::BrowserRefresh,
        179 => PhysicalKey::NumpadParenLeft,
        180 => PhysicalKey::NumpadParenRight,
        183 => PhysicalKey::F13,
        184 => PhysicalKey::F14,
        185 => PhysicalKey::F15,
        186 => PhysicalKey::F16,
        187 => PhysicalKey::F17,
        188 => PhysicalKey::F18,
        189 => PhysicalKey::F19,
        190 => PhysicalKey::F20,
        191 => PhysicalKey::F21,
        192 => PhysicalKey::F22,
        193 => PhysicalKey::F23,
        194 => PhysicalKey::F24,
        205 => PhysicalKey::Suspend,
        217 => PhysicalKey::BrowserSearch,
        226 => PhysicalKey::MediaSelect,
        _ => PhysicalKey::Unidentified,
    }
}

/// The hardware code of a physical key, if the table holds the key.
pub open spec fn hardware_code_of(key: PhysicalKey) -> Option<u32> {
    match key {
        PhysicalKey::Escape => Some(1u32),
        PhysicalKey::Digit1 => Some(2u32),
        PhysicalKey::Digit2 => Some(3u32),
        PhysicalKey::Digit3 => Some(4u32),
        PhysicalKey::Digit4 => Some(5u32),
        PhysicalKey::Digit5 => Some(6u32),
        PhysicalKey::Digit6 => Some(7u32),
        PhysicalKey::Digit7 => Some(8u32),
        PhysicalKey::Digit8 => Some(9u32),
        PhysicalKey::Digit9 => Some(10u32),
        PhysicalKey::Digit0 => Some(11u32),
        PhysicalKey::Minus => Some(12u32),
        PhysicalKey::Equal => Some(13u32),
        PhysicalKey::Backspace => Some(14u32),
        PhysicalKey::Tab => Some(15u32),
        PhysicalKey::KeyQ => Some(16u32),
        PhysicalKey::KeyW => Some(17u32),
        PhysicalKey::KeyE => Some(18u32),
        PhysicalKey::KeyR => Some(19u32),
        PhysicalKey::KeyT => Some(20u32),
        PhysicalKey::KeyY => Some(21u32),
        PhysicalKey::KeyU => Some(22u32),
        PhysicalKey::KeyI => Some(23u32),
        PhysicalKey::KeyO => Some(24u32),
        PhysicalKey::KeyP => Some(25u32),
        PhysicalKey::BracketLeft => Some(26u32),
        PhysicalKey::BracketRight => Some(27u32),
        PhysicalKey::Enter => Some(28u32),
        PhysicalKey::ControlLeft => Some(29u32),
        PhysicalKey::KeyA => Some(30u32),
        PhysicalKey::KeyS => Some(31u32),
        PhysicalKey::KeyD => Some(32u32),
        PhysicalKey::KeyF => Some(33u32),
        PhysicalKey::KeyG => Some(34u32),
        PhysicalKey::KeyH => Some(35u32),
        PhysicalKey::KeyJ => Some(36u32),
        PhysicalKey::KeyK => Some(37u32),
        PhysicalKey::KeyL => Some(38u32),
        PhysicalKey::Semicolon => Some(39u32),
        PhysicalKey::Quote => Some(40u32),
        PhysicalKey::Backquote => Some(41u32),
        PhysicalKey::ShiftLeft => Some(42u32),
        PhysicalKey::Backslash => Some(43u32),
        PhysicalKey::KeyZ => Some(44u32),
        PhysicalKey::KeyX => Some(45u32),
        PhysicalKey::KeyC => Some(46u32),
        PhysicalKey::KeyV => Some(47u32),
        PhysicalKey::KeyB => Some(48u32),
        PhysicalKey::KeyN => Some(49u32),
        PhysicalKey::KeyM => Some(50u32),
        PhysicalKey::Comma => Some(51u32),
        PhysicalKey::Period => Some(52u32),
        PhysicalKey::Slash => Some(53u32),
        PhysicalKey::ShiftRight => Some(54u32),
        PhysicalKey::NumpadMultiply => Some(55u32),
        PhysicalKey::AltLeft => Some(56u32),
        PhysicalKey::Space => Some(57u32),
        PhysicalKey::CapsLock => Some(58u32),
        PhysicalKey::F1 => Some(59u32),
        PhysicalKey::F2 => Some(60u32),
        PhysicalKey::F3 => Some(61u32),
        PhysicalKey::F4 => Some(62u32),
        PhysicalKey::F5 => Some(63u32),
        PhysicalKey::F6 => Some(64u32),
        PhysicalKey::F7 => Some(65u32),
        PhysicalKey::F8 => Some(66u32),
        PhysicalKey::F9 => Some(67u32),
        PhysicalKey::F10 => Some(68u32),
        PhysicalKey::NumLock => Some(69u32),
        PhysicalKey::ScrollLock => Some(70u32),
        PhysicalKey::Numpad7 => Some(71u32),
        PhysicalKey::Numpad8 => Some(72u32),
        PhysicalKey::Numpad9 => Some(73u32),
        PhysicalKey::NumpadSubtract => Some(74u32),
        PhysicalKey::Numpad4 => Some(75u32),
        PhysicalKey::Numpad5 => Some(76u32),
        PhysicalKey::Numpad6 => Some(77u32),
        PhysicalKey::NumpadAdd => Some(78u32),
        PhysicalKey::Numpad1 => Some(79u32),
        PhysicalKey::Numpad2 => Some(80u32),
        PhysicalKey::Numpad3 => Some(81u32),
        PhysicalKey::Numpad0 => Some(82u32),
        PhysicalKey::NumpadDecimal => Some(83u32),
        PhysicalKey::Lang5 => Some(85u32),
        PhysicalKey::IntlBackslash => Some(86u32),
        PhysicalKey::F11 => Some(87u32),
        PhysicalKey::F12 => Some(88u32),
        PhysicalKey::IntlRo => Some(89u32),
        PhysicalKey::Katakana => Some(90u32),
        PhysicalKey::Hiragana => Some(91u32),
        PhysicalKey::Convert => Some(92u32),
        PhysicalKey::KanaMode => Some(93u32),
        PhysicalKey::NonConvert => Some(94u32),
        PhysicalKey::NumpadEnter => Some(96u32),
        PhysicalKey::ControlRight => Some(97u32),
        PhysicalKey::NumpadDivide => Some(98u32),
        PhysicalKey::PrintScreen => Some(99u32),
        PhysicalKey::AltRight => Some(100u32),
        PhysicalKey::Home => Some(102u32),
        PhysicalKey::ArrowUp => Some(103u32),
        PhysicalKey::PageUp => Some(104u32),
        PhysicalKey::ArrowLeft => Some(105u32),
        PhysicalKey::ArrowRight => Some(106u32),
        PhysicalKey::End => Some(107u32),
        PhysicalKey::ArrowDown => Some(108u32),
        PhysicalKey::PageDown => Some(109u32),
        PhysicalKey::Insert => Some(110u32),
        PhysicalKey::Delete => Some(111u32),
        PhysicalKey::AudioVolumeMute => Some(113u32),
        PhysicalKey::AudioVolumeDown => Some(114u32),
        PhysicalKey::AudioVolumeUp => Some(115u32),
        PhysicalKey::Power => Some(116u32),
        PhysicalKey::NumpadEqual => Some(117u32),
        PhysicalKey::Pause => Some(119u32),
        PhysicalKey::NumpadComma => Some(121u32),
        PhysicalKey::Lang1 => Some(122u32),
        PhysicalKey::Lang2 => Some(123u32),
        PhysicalKey::IntlYen => Some(124u32),
        PhysicalKey::SuperLeft => Some(125u32),
        PhysicalKey::SuperRight => Some(126u32),
        PhysicalKey::ContextMenu => Some(127u32),
        PhysicalKey::BrowserStop => Some(128u32),
        PhysicalKey::Again => Some(129u32),
        PhysicalKey::Props => Some(130u32),
        PhysicalKey::Undo => Some(131u32),
        PhysicalKey::Copy => Some(133u32),
        PhysicalKey::Open => Some(134u32),
        PhysicalKey::Paste => Some(135u32),
        PhysicalKey::Find => Some(136u32),
        PhysicalKey::Cut => Some(137u32),
        PhysicalKey::Help => Some(138u32),
        PhysicalKey::LaunchApp2 => Some(140u32),
        PhysicalKey::Sleep => Some(142u32),
        PhysicalKey::WakeUp => Some(143u32),
        PhysicalKey::LaunchMail => Some(155u32),
        PhysicalKey::BrowserFavorites => Some(156u32),
        PhysicalKey::LaunchApp1 => Some(157u32),
        PhysicalKey::BrowserBack => Some(158u32),
        PhysicalKey::BrowserForward => Some(159u32),
        PhysicalKey::Eject => Some(162u32),
        PhysicalKey::MediaTrackNext => Some(163u32),
        PhysicalKey::MediaPlayPause => Some(164u32),
        PhysicalKey::MediaTrackPrevious => Some(165u32),
        PhysicalKey::MediaStop => Some(166u32),
        PhysicalKey::BrowserHome => Some(172u32),
        PhysicalKey::BrowserRefresh => Some(173u32),
        PhysicalKey::NumpadParenLeft => Some(179u32),
        PhysicalKey::NumpadParenRight => Some(180u32),
        PhysicalKey::F13 => Some(183u32),
        PhysicalKey::F14 => Some(184u32),
        PhysicalKey::F15 => Some(185u32),
        PhysicalKey::F16 => Some(186u32),
        PhysicalKey::F17 => Some(187u32),
        PhysicalKey::F18 => Some(188u32),
        PhysicalKey::F19 => Some(189u32),
        PhysicalKey::F20 => Some(190u32),
        PhysicalKey::F21 => Some(191u32),
        PhysicalKey::F22 => Some(192u32),
        PhysicalKey::F23 => Some(193u32),
        PhysicalKey::F24 => Some(194u32),
        PhysicalKey::Suspend => Some(205u32),
        PhysicalKey::BrowserSearch => Some(217u32),
        PhysicalKey::MediaSelect => Some(226u32),
        _ => None,
    }
}

/// Gives the physical key of a hardware code. The codes are those of the
/// kernel's input layer, without the offset of eight that the display
/// protocols add.
pub fn physical_key(rawcode: u32) -> (key: PhysicalKey)
    ensures
        key == physical_key_of(rawcode),
{
    match rawcode {
        1 => PhysicalKey::Escape,
        2 => PhysicalKey::Digit1,
        3 => PhysicalKey::Digit2,
        4 => PhysicalKey::Digit3,
        5 => PhysicalKey::Digit4,
        6 => PhysicalKey::Digit5,
        7 => PhysicalKey::Digit6,
        8 => PhysicalKey::Digit7,
        9 => PhysicalKey::Digit8,
        10 => PhysicalKey::Digit9,
        11 => PhysicalKey::Digit0,
        12 => PhysicalKey::Minus,
        13 => PhysicalKey::Equal,
        14 => PhysicalKey::Backspace,
        15 => PhysicalKey::Tab,
        16 => PhysicalKey::KeyQ,
        17 => PhysicalKey::KeyW,
        18 => PhysicalKey::KeyE,
        19 => PhysicalKey::KeyR,
        20 => PhysicalKey::KeyT,
        21 => PhysicalKey::KeyY,
        22 => PhysicalKey::KeyU,
        23 => PhysicalKey::KeyI,
        24 => PhysicalKey::KeyO,
        25 => PhysicalKey::KeyP,
        26 => PhysicalKey::BracketLeft,
        27 => PhysicalKey::BracketRight,
        28 => PhysicalKey::Enter,
        29 => PhysicalKey::ControlLeft,
        30 => PhysicalKey::KeyA,
        31 => PhysicalKey::KeyS,
        32 => PhysicalKey::KeyD,
        33 => PhysicalKey::KeyF,
        34 => PhysicalKey::KeyG,
        35 => PhysicalKey::KeyH,
        36 => PhysicalKey::KeyJ,
        37 => PhysicalKey::KeyK,
        38 => PhysicalKey::KeyL,
        39 => PhysicalKey::Semicolon,
        40 => PhysicalKey::Quote,
        41 => PhysicalKey::Backquote,
        42 => PhysicalKey::ShiftLeft,
        43 => PhysicalKey::Backslash,
        44 => PhysicalKey::KeyZ,
        45 => PhysicalKey::KeyX,
        46 => PhysicalKey::KeyC,
        47 => PhysicalKey::KeyV,
        48 => PhysicalKey::KeyB,
        49 => PhysicalKey::KeyN,
        50 => PhysicalKey::KeyM,
        51 => PhysicalKey::Comma,
        52 => PhysicalKey::Period,
        53 => PhysicalKey::Slash,
        54 => PhysicalKey::ShiftRight,
        55 => PhysicalKey::NumpadMultiply,
        56 => PhysicalKey::AltLeft,
        57 => PhysicalKey::Space,
        58 => PhysicalKey::CapsLock,
        59 => PhysicalKey::F1,
        60 => PhysicalKey::F2,
        61 => PhysicalKey::F3,
        62 => PhysicalKey::F4,
        63 => PhysicalKey::F5,
        64 => PhysicalKey::F6,
        65 => PhysicalKey::F7,
        66 => PhysicalKey::F8,
        67 => PhysicalKey::F9,
        68 => PhysicalKey::F10,
        69 => PhysicalKey::NumLock,
        70 => PhysicalKey::ScrollLock,
        71 => PhysicalKey::Numpad7,
        72 => PhysicalKey::Numpad8,
        73 => PhysicalKey::Numpad9,
        74 => PhysicalKey::NumpadSubtract,
        75 => PhysicalKey::Numpad4,
        76 => PhysicalKey::Numpad5,
        77 => PhysicalKey::Numpad6,
        78 => PhysicalKey::NumpadAdd,
        79 => PhysicalKey::Numpad1,
        80 => PhysicalKey::Numpad2,
        81 => PhysicalKey::Numpad3,
        82 => PhysicalKey::Numpad0,
        83 => PhysicalKey::NumpadDecimal,
        85 => PhysicalKey::Lang5,
        86 => PhysicalKey::IntlBackslash,
        87 => PhysicalKey::F11,
        88 => PhysicalKey::F12,
        89 => PhysicalKey::IntlRo,
        90 => PhysicalKey::Katakana,
        91 => PhysicalKey::Hiragana,
        92 => PhysicalKey::Convert,
        93 => PhysicalKey::KanaMode,
        94 => PhysicalKey::NonConvert,
        96 => PhysicalKey::NumpadEnter,
        97 => PhysicalKey::ControlRight,
        98 => PhysicalKey::NumpadDivide,
        99 => PhysicalKey::PrintScreen,
        100 => PhysicalKey::AltRight,
        102 => PhysicalKey::Home,
        103 => PhysicalKey::ArrowUp,
        104 => PhysicalKey::PageUp,
        105 => PhysicalKey::ArrowLeft,
        106 => PhysicalKey::ArrowRight,
        107 => PhysicalKey::End,
        108 => PhysicalKey::ArrowDown,
        109 => PhysicalKey::PageDown,
        110 => PhysicalKey::Insert,
        111 => PhysicalKey::Delete,
        113 => PhysicalKey::AudioVolumeMute,
        114 => PhysicalKey::AudioVolumeDown,
        115 => PhysicalKey::AudioVolumeUp,
        116 => PhysicalKey::Power,
        117 => PhysicalKey::NumpadEqual,
        119 => PhysicalKey::Pause,
        121 => PhysicalKey::NumpadComma,
        122 => PhysicalKey::Lang1,
        123 => PhysicalKey::Lang2,
        124 => PhysicalKey::IntlYen,
        125 => PhysicalKey::SuperLeft,
        126 => PhysicalKey::SuperRight,
        127 => PhysicalKey::ContextMenu,
        128 => PhysicalKey::BrowserStop,
        129 => PhysicalKey::Again,
        130 => PhysicalKey::Props,
        131 => PhysicalKey::Undo,
        133 => PhysicalKey::Copy,
        134 => PhysicalKey::Open,
        135 => PhysicalKey::Paste,
        136 => PhysicalKey::Find,
        137 => PhysicalKey::Cut,
        138 => PhysicalKey::Help,
        140 => PhysicalKey::LaunchApp2,
        142 => PhysicalKey::Sleep,
        143 => PhysicalKey::WakeUp,
        155 => PhysicalKey::LaunchMail,
        156 => PhysicalKey::BrowserFavorites,
        157 => PhysicalKey::LaunchApp1,
        158 => PhysicalKey::BrowserBack,
        159 => PhysicalKey::BrowserForward,
        162 => PhysicalKey::Eject,
        163 => PhysicalKey::MediaTrackNext,
        164 => PhysicalKey::MediaPlayPause,
        165 => PhysicalKey::MediaTrackPrevious,
        166 => PhysicalKey::MediaStop,
        172 => PhysicalKey::BrowserHome,
        173 => PhysicalKey::BrowserRefresh,
        179 => PhysicalKey::NumpadParenLeft,
        180 => PhysicalKey::NumpadParenRight,
        183 => PhysicalKey::F13,
        184 => PhysicalKey::F14,
        185 => PhysicalKey::F15,
        186 => PhysicalKey::F16,
        187 => PhysicalKey::F17,
        188 => PhysicalKey::F18,
        189 => PhysicalKey::F19,
        190 => PhysicalKey::F20,
        191 => PhysicalKey::F21,
        192 => PhysicalKey::F22,
        193 => PhysicalKey::F23,
        194 => PhysicalKey::F24,
        205 => PhysicalKey::Suspend,
        217 => PhysicalKey::BrowserSearch,
        226 => PhysicalKey::MediaSelect,
        _ => PhysicalKey::Unidentified,
    }
}

/// The table of hardware codes is one to one: a key that it gives for a
/// code leads back to that code, so no two codes give the same key, and the
/// unidentified key stands for no code.
pub proof fn lemma_physical_keys_differ(rawcode: u32)
    ensures
        physical_key_of(rawcode) != PhysicalKey::Unidentified ==> hardware_code_of(
            physical_key_of(rawcode),
        ) == Some(rawcode),
        hardware_code_of(PhysicalKey::Unidentified) is None,
        rawcode == 0 || rawcode > 226 ==> physical_key_of(rawcode) == PhysicalKey::Unidentified,
{
}

} // verus!

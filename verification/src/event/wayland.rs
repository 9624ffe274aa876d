//! Events that only a Wayland compositor gives rise to.

use vstd::prelude::*;
use crate::data_device::DndAction;
use crate::handle::Fixed;
use crate::handle::OutputHandle;
use crate::handle::SeatHandle;
use crate::handle::SurfaceHandle;
use crate::handle::SurfaceId;
use crate::output::OutputInfo;
use crate::shell::WindowManagerCapabilities;
use crate::shell::WindowState;

verus! {

/// What happened to a layer surface.
#[derive(Debug, Clone, Copy, PartialEq, Eq, Structural)]
pub enum LayerEvent {
    /// It got the keyboard focus.
    Focused,
    /// It lost the keyboard focus.
    Unfocused,
    /// The compositor closed it.
    Done,
}

/// What happened to a popup.
#[derive(Debug, Clone, Copy, PartialEq, Eq, Structural)]
pub enum PopupEvent {
    /// The compositor dismissed it.
    Done,
    /// It got the keyboard focus.
    Focused,
    /// It lost the keyboard focus.
    Unfocused,
}

/// What happened to the session lock or to one of its surfaces.
#[derive(Debug, Clone, Copy, PartialEq, Eq, Structural)]
pub enum SessionLockEvent {
    /// The session is locked.
    Locked,
    /// The compositor ended the lock, or never granted it.
    Finished,
    /// A lock surface got the keyboard focus.
    Focused(SurfaceHandle, SurfaceId),
    /// A lock surface lost the keyboard focus.
    Unfocused(SurfaceHandle, SurfaceId),
    /// The session is unlocked.
    Unlocked,
}

/// What happened to an output.
#[derive(Debug, Clone, PartialEq, Eq)]
pub enum OutputEvent {
    /// It appeared, with its description where one is known.
    Created(Option<OutputInfo>),
    /// It went away.
    Removed,
    /// Its description changed.
    InfoUpdate(OutputInfo),
}

/// What the compositor told about a window.
#[derive(Debug, Clone, Copy, PartialEq, Eq, Structural)]
pub enum WindowEvent {
    /// The state of the window changed.
    State(WindowState),
    /// What the window manager can do changed.
    WmCapabilities(WindowManagerCapabilities),
}

/// What happened to the keyboard focus of a seat.
#[derive(Debug, Clone, Copy, PartialEq, Eq, Structural)]
pub enum SeatEvent {
    /// The keyboard of the seat entered a surface.
    Enter,
    /// The keyboard of the seat left a surface.
    Leave,
}

/// What happened to data that the application offers.
#[derive(Debug, Clone, PartialEq, Eq)]
pub enum DataSourceEvent {
    /// The compositor accepted an action for the drag.
    DndActionAccepted(DndAction),
    /// A target accepted a mime type, or none.
    MimeAccepted(Option<String>),
    /// The selection is asked for in the given mime type.
    SendSelectionData(String),
    /// The dragged data is asked for in the given mime type.
    SendDndData(String),
    /// The offer was cancelled.
    Cancelled,
    /// The drop was performed.
    DndDropPerformed,
    /// The drag is over.
    DndFinished,
}

/// What happened to data that is offered to the application by a drag.
#[derive(Debug, Clone, PartialEq, Eq)]
pub enum DndOfferEvent {
    /// A drag came onto a surface.
    Enter {
        /// Where, to the side.
        x: Fixed,
        /// Where, up or down.
        y: Fixed,
        /// The mime types on offer.
        mime_types: Vec<String>,
    },
    /// The drag moved.
    Motion {
        /// Where, to the side.
        x: Fixed,
        /// Where, up or down.
        y: Fixed,
    },
    /// The drag left the surface.
    Leave,
    /// The data was dropped.
    DropPerformed,
    /// The dropped data arrived.
    DndData {
        /// The bytes.
        data: Vec<u8>,
        /// Their mime type.
        mime_type: String,
    },
    /// The actions that the source offers.
    SourceActions(DndAction),
    /// The action that the compositor chose.
    SelectedAction(DndAction),
}

/// An event of a Wayland compositor that has no portable counterpart.
#[derive(Debug, Clone, PartialEq, Eq)]
pub enum Event {
    /// Of a layer surface.
    Layer(LayerEvent, SurfaceHandle, SurfaceId),
    /// Of a popup.
    Popup(PopupEvent, SurfaceHandle, SurfaceId),
    /// Of an output.
    Output(OutputEvent, OutputHandle),
    /// Of a window.
    Window(WindowEvent, SurfaceHandle, SurfaceId),
    /// Of a seat.
    Seat(SeatEvent, SeatHandle),
    /// Of data that the application offers.
    DataSource(DataSourceEvent),
    /// Of data that is offered to the application.
    DndOffer(DndOfferEvent),
    /// Of the session lock.
    SessionLock(SessionLockEvent),
}

} // verus!

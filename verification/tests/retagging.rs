use std::collections::HashMap;

use sctk_bridge::data_device;
use sctk_bridge::data_device::DndAction;
use sctk_bridge::event::wayland;
use sctk_bridge::event::Event;
use sctk_bridge::event::PlatformSpecific;
use sctk_bridge::handle::OutputHandle;
use sctk_bridge::handle::SeatHandle;
use sctk_bridge::handle::SurfaceHandle;
use sctk_bridge::handle::SurfaceId;
use sctk_bridge::output::Mode;
use sctk_bridge::output::OutputInfo;
use sctk_bridge::sctk_event::DataSourceEvent;
use sctk_bridge::sctk_event::DndOfferEvent;
use sctk_bridge::sctk_event::PhysicalSize;
use sctk_bridge::sctk_event::SctkEvent;
use sctk_bridge::sctk_event::SeatEventVariant;
use sctk_bridge::seat::Capability;
use sctk_bridge::seat::Modifiers;
use sctk_bridge::shell::SessionLockSurfaceConfigure;
use sctk_bridge::surface::SurfaceIdentity;

fn retag(event: SctkEvent) -> Vec<Event> {
    let mut live = HashMap::new();
    live.insert(1, SurfaceIdentity::Window(SurfaceId(1)));
    let mut destroyed = HashMap::new();
    destroyed.insert(2, SurfaceIdentity::Window(SurfaceId(2)));
    let before = Modifiers { alt: true, ..Modifiers::default() };
    let mut modifiers = before;
    let events = event.to_native(&mut modifiers, &live, &destroyed);
    assert_eq!(modifiers, before);
    events
}

fn specific(event: wayland::Event) -> Vec<Event> {
    vec![Event::PlatformSpecific(PlatformSpecific::Wayland(event))]
}

fn info() -> OutputInfo {
    OutputInfo {
        id: 3,
        model: "M".to_string(),
        make: "K".to_string(),
        location: (0, 0),
        physical_size: (600, 340),
        scale_factor: 2,
        modes: vec![Mode { dimensions: (3840, 2160), refresh_rate: 60000, current: true, preferred: true }],
        logical_position: Some((0, 0)),
        logical_size: Some((1920, 1080)),
        name: Some("DP-1".to_string()),
        description: None,
    }
}

#[test]
fn outputs_are_told_one_to_one() {
    assert_eq!(
        retag(SctkEvent::NewOutput { id: OutputHandle(9), info: Some(info()) }),
        specific(wayland::Event::Output(wayland::OutputEvent::Created(Some(info())), OutputHandle(9)))
    );
    assert_eq!(
        retag(SctkEvent::NewOutput { id: OutputHandle(9), info: None }),
        specific(wayland::Event::Output(wayland::OutputEvent::Created(None), OutputHandle(9)))
    );
    assert_eq!(
        retag(SctkEvent::UpdateOutput { id: OutputHandle(9), info: info() }),
        specific(wayland::Event::Output(wayland::OutputEvent::InfoUpdate(info()), OutputHandle(9)))
    );
    assert_eq!(
        retag(SctkEvent::RemovedOutput(OutputHandle(9))),
        specific(wayland::Event::Output(wayland::OutputEvent::Removed, OutputHandle(9)))
    );
}

#[test]
fn session_lock_is_told_one_to_one() {
    assert_eq!(
        retag(SctkEvent::SessionLocked),
        specific(wayland::Event::SessionLock(wayland::SessionLockEvent::Locked))
    );
    assert_eq!(
        retag(SctkEvent::SessionLockFinished),
        specific(wayland::Event::SessionLock(wayland::SessionLockEvent::Finished))
    );
    assert_eq!(
        retag(SctkEvent::SessionUnlocked),
        specific(wayland::Event::SessionLock(wayland::SessionLockEvent::Unlocked))
    );
}

#[test]
fn data_source_events_are_told_one_to_one() {
    let cases = vec![
        (
            DataSourceEvent::DndActionAccepted(DndAction { bits: data_device::COPY }),
            wayland::DataSourceEvent::DndActionAccepted(DndAction { bits: data_device::COPY }),
        ),
        (
            DataSourceEvent::MimeAccepted(Some("text/plain".to_string())),
            wayland::DataSourceEvent::MimeAccepted(Some("text/plain".to_string())),
        ),
        (DataSourceEvent::MimeAccepted(None), wayland::DataSourceEvent::MimeAccepted(None)),
        (DataSourceEvent::DndFinished, wayland::DataSourceEvent::DndFinished),
        (DataSourceEvent::DndCancelled, wayland::DataSourceEvent::Cancelled),
        (DataSourceEvent::DndDropPerformed, wayland::DataSourceEvent::DndDropPerformed),
        (
            DataSourceEvent::SendSelectionData { mime_type: "a/b".to_string() },
            wayland::DataSourceEvent::SendSelectionData("a/b".to_string()),
        ),
        (
            DataSourceEvent::SendDndData { mime_type: "c/d".to_string() },
            wayland::DataSourceEvent::SendDndData("c/d".to_string()),
        ),
    ];
    for (event, expected) in cases {
        assert_eq!(retag(SctkEvent::DataSource(event)), specific(wayland::Event::DataSource(expected)));
    }
}

#[test]
fn dnd_offer_events_are_told_one_to_one() {
    let cases = vec![
        (
            DndOfferEvent::Enter { x: 256, y: -512, mime_types: vec!["a/b".to_string(), "c/d".to_string()] },
            wayland::DndOfferEvent::Enter {
                x: 256,
                y: -512,
                mime_types: vec!["a/b".to_string(), "c/d".to_string()],
            },
        ),
        (DndOfferEvent::Leave, wayland::DndOfferEvent::Leave),
        (DndOfferEvent::Motion { x: 1, y: 2 }, wayland::DndOfferEvent::Motion { x: 1, y: 2 }),
        (DndOfferEvent::DropPerformed, wayland::DndOfferEvent::DropPerformed),
        (
            DndOfferEvent::Data { data: vec![1, 2, 3], mime_type: "a/b".to_string() },
            wayland::DndOfferEvent::DndData { data: vec![1, 2, 3], mime_type: "a/b".to_string() },
        ),
        (
            DndOfferEvent::SourceActions(DndAction { bits: data_device::COPY | data_device::MOVE }),
            wayland::DndOfferEvent::SourceActions(DndAction {
                bits: data_device::COPY | data_device::MOVE,
            }),
        ),
        (
            DndOfferEvent::SelectedAction(DndAction { bits: data_device::ASK }),
            wayland::DndOfferEvent::SelectedAction(DndAction { bits: data_device::ASK }),
        ),
    ];
    for (event, expected) in cases {
        for surface in [1, 2, 3] {
            assert_eq!(
                retag(SctkEvent::DndOffer { event: event.clone(), surface: SurfaceHandle(surface) }),
                specific(wayland::Event::DndOffer(expected.clone()))
            );
        }
    }
}

#[test]
fn events_without_a_counterpart_give_nothing() {
    let silent = vec![
        SctkEvent::SeatEvent { variant: SeatEventVariant::New, id: SeatHandle(1) },
        SctkEvent::SeatEvent { variant: SeatEventVariant::Remove, id: SeatHandle(1) },
        SctkEvent::SeatEvent {
            variant: SeatEventVariant::NewCapability(Capability::Keyboard, 5),
            id: SeatHandle(1),
        },
        SctkEvent::SeatEvent {
            variant: SeatEventVariant::RemoveCapability(Capability::Pointer, 6),
            id: SeatHandle(1),
        },
        SctkEvent::ScaleFactorChanged {
            factor: 180,
            id: OutputHandle(9),
            inner_size: PhysicalSize { width: 10, height: 20 },
        },
        SctkEvent::SessionLockSurfaceCreated { surface: SurfaceHandle(1), native_id: SurfaceId(1) },
        SctkEvent::SessionLockSurfaceConfigure {
            surface: SurfaceHandle(1),
            configure: SessionLockSurfaceConfigure { new_size: (10, 20) },
            first: true,
        },
    ];
    for event in silent {
        assert_eq!(retag(event), vec![]);
    }
}

#[test]
fn dnd_action_sets() {
    let both = DndAction { bits: data_device::COPY | data_device::MOVE };
    assert!(both.contains(DndAction { bits: data_device::COPY }));
    assert!(both.contains(DndAction { bits: data_device::MOVE }));
    assert!(!both.contains(DndAction { bits: data_device::ASK }));
    assert!(both.contains(DndAction::none()));
    assert!(!DndAction::none().contains(both));
    assert_eq!(DndAction::none().bits, 0);
}

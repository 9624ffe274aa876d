use std::collections::HashMap;

use sctk_bridge::engine::accepts;
use sctk_bridge::engine::normalize;
use sctk_bridge::event::wayland;
use sctk_bridge::event::Event;
use sctk_bridge::event::PlatformSpecific;
use sctk_bridge::handle::SurfaceHandle;
use sctk_bridge::handle::SurfaceId;
use sctk_bridge::handle::ViewportHandle;
use sctk_bridge::sctk_event::LayerSurfaceEventVariant;
use sctk_bridge::sctk_event::PopupEventVariant;
use sctk_bridge::sctk_event::SctkEvent;
use sctk_bridge::sctk_event::WindowEventVariant;
use sctk_bridge::seat::ModifierState;
use sctk_bridge::seat::Modifiers;
use sctk_bridge::shell;
use sctk_bridge::shell::ConfigureKind;
use sctk_bridge::shell::DecorationMode;
use sctk_bridge::shell::LayerSurfaceConfigure;
use sctk_bridge::shell::PopupConfigure;
use sctk_bridge::shell::WindowConfigure;
use sctk_bridge::shell::WindowManagerCapabilities;
use sctk_bridge::shell::WindowState;
use sctk_bridge::surface::SurfaceIdentity;
use sctk_bridge::surface::SurfaceRegistry;

fn window(variant: WindowEventVariant, surface: u64) -> SctkEvent {
    SctkEvent::WindowEvent { variant, id: SurfaceHandle(surface) }
}

fn configure(width: Option<u32>, height: Option<u32>, state: u16) -> WindowConfigure {
    WindowConfigure {
        new_size: (width, height),
        suggested_bounds: None,
        decoration_mode: DecorationMode::Client,
        state: WindowState { bits: state },
        capabilities: WindowManagerCapabilities { bits: 0 },
    }
}

fn wayland_event(event: wayland::Event) -> Event {
    Event::PlatformSpecific(PlatformSpecific::Wayland(event))
}

fn run(
    event: SctkEvent,
    live: &HashMap<u64, SurfaceIdentity>,
    destroyed: &HashMap<u64, SurfaceIdentity>,
) -> Vec<Event> {
    assert!(event.is_conformant(live));
    let mut modifiers = Modifiers::default();
    event.to_native(&mut modifiers, live, destroyed)
}

fn one_surface(handle: u64, identity: SurfaceIdentity) -> HashMap<u64, SurfaceIdentity> {
    let mut surfaces = HashMap::new();
    surfaces.insert(handle, identity);
    surfaces
}

#[test]
fn close_of_a_retired_window_is_still_told() {
    let mut registry = SurfaceRegistry::new();
    let mut tracker = ModifierState::new();
    assert!(registry.register(40, SurfaceIdentity::Window(SurfaceId(7))));
    assert_eq!(registry.retire(40), Some(SurfaceIdentity::Window(SurfaceId(7))));
    assert_eq!(registry.resolve_live(40), None);

    let close = window(WindowEventVariant::Close, 40);
    assert!(accepts(&close, &registry));
    let events = normalize(close, &mut tracker, &registry);
    assert_eq!(
        events,
        vec![Event::Window(SurfaceId(7), sctk_bridge::window::Event::CloseRequested)]
    );
    assert_eq!(registry.resolve_live(40), None);
    assert_eq!(registry.resolve_destroyed(40), Some(SurfaceIdentity::Window(SurfaceId(7))));
}

#[test]
fn close_of_a_living_window_finds_nothing() {
    let live = one_surface(40, SurfaceIdentity::Window(SurfaceId(7)));
    assert_eq!(run(window(WindowEventVariant::Close, 40), &live, &HashMap::new()), vec![]);
}

#[test]
fn close_of_an_unknown_window_gives_nothing() {
    assert_eq!(
        run(window(WindowEventVariant::Close, 40), &HashMap::new(), &HashMap::new()),
        vec![]
    );
}

#[test]
fn close_after_the_tombstone_was_dropped_gives_nothing() {
    let mut registry = SurfaceRegistry::new();
    let mut tracker = ModifierState::new();
    assert!(registry.register(40, SurfaceIdentity::Window(SurfaceId(7))));
    registry.retire(40);
    registry.reconcile();
    assert_eq!(normalize(window(WindowEventVariant::Close, 40), &mut tracker, &registry), vec![]);
}

#[test]
fn resize_is_told_while_resizing() {
    let live = one_surface(40, SurfaceIdentity::Window(SurfaceId(7)));
    let event = window(
        WindowEventVariant::Configure(
            configure(Some(800), Some(600), shell::RESIZING | shell::ACTIVATED),
            SurfaceHandle(40),
            false,
        ),
        40,
    );
    assert_eq!(
        run(event, &live, &HashMap::new()),
        vec![Event::Window(
            SurfaceId(7),
            sctk_bridge::window::Event::Resized { width: 800, height: 600 }
        )]
    );
}

#[test]
fn resize_is_looked_up_by_the_configured_surface() {
    let live = one_surface(41, SurfaceIdentity::Window(SurfaceId(8)));
    let event = window(
        WindowEventVariant::Configure(
            configure(Some(1), Some(2), shell::RESIZING),
            SurfaceHandle(41),
            true,
        ),
        40,
    );
    assert_eq!(
        run(event, &live, &HashMap::new()),
        vec![Event::Window(SurfaceId(8), sctk_bridge::window::Event::Resized { width: 1, height: 2 })]
    );
}

#[test]
fn configure_without_resizing_gives_nothing() {
    let live = one_surface(40, SurfaceIdentity::Window(SurfaceId(7)));
    for state in [0, shell::ACTIVATED, shell::MAXIMIZED | shell::FULLSCREEN, !shell::RESIZING] {
        let event = window(
            WindowEventVariant::Configure(
                configure(Some(800), Some(600), state),
                SurfaceHandle(40),
                false,
            ),
            40,
        );
        assert_eq!(run(event, &live, &HashMap::new()), vec![]);
    }
}

#[test]
fn configure_without_size_and_without_resizing_gives_nothing() {
    let live = one_surface(40, SurfaceIdentity::Window(SurfaceId(7)));
    let event = window(
        WindowEventVariant::Configure(configure(None, None, 0), SurfaceHandle(40), true),
        40,
    );
    assert_eq!(run(event, &live, &HashMap::new()), vec![]);
}

#[test]
fn resize_of_an_unknown_window_gives_nothing() {
    let event = window(
        WindowEventVariant::Configure(
            configure(Some(800), Some(600), shell::RESIZING),
            SurfaceHandle(40),
            false,
        ),
        40,
    );
    assert_eq!(run(event, &HashMap::new(), &HashMap::new()), vec![]);
    // without a size, too: nothing is read of a window that does not live
    let event = window(
        WindowEventVariant::Configure(configure(None, Some(600), shell::RESIZING), SurfaceHandle(40), false),
        40,
    );
    assert_eq!(run(event, &HashMap::new(), &HashMap::new()), vec![]);
}

#[test]
fn resize_without_size_is_not_conformant() {
    let live = one_surface(40, SurfaceIdentity::Window(SurfaceId(7)));
    for (width, height) in [(None, None), (Some(800), None), (None, Some(600))] {
        let event = window(
            WindowEventVariant::Configure(
                configure(width, height, shell::RESIZING),
                SurfaceHandle(40),
                false,
            ),
            40,
        );
        assert!(!event.is_conformant(&live));
        assert!(event.is_conformant(&HashMap::new()));
    }
    let event = window(
        WindowEventVariant::Configure(
            configure(Some(800), Some(600), shell::RESIZING),
            SurfaceHandle(40),
            false,
        ),
        40,
    );
    assert!(event.is_conformant(&live));
}

#[test]
fn is_resizing_reads_the_one_bit() {
    assert!(configure(None, None, shell::RESIZING).is_resizing());
    assert!(configure(None, None, 0xffff).is_resizing());
    assert!(!configure(None, None, 0).is_resizing());
    assert!(!configure(None, None, !shell::RESIZING).is_resizing());
    assert!(configure(Some(1), Some(1), 0).has_size());
    assert!(!configure(Some(1), None, 0).has_size());
}

#[test]
fn state_and_capabilities_are_told_of_a_living_window() {
    let live = one_surface(40, SurfaceIdentity::Window(SurfaceId(7)));
    assert_eq!(
        run(
            window(WindowEventVariant::StateChanged(WindowState { bits: shell::MAXIMIZED }), 40),
            &live,
            &HashMap::new()
        ),
        vec![wayland_event(wayland::Event::Window(
            wayland::WindowEvent::State(WindowState { bits: shell::MAXIMIZED }),
            SurfaceHandle(40),
            SurfaceId(7)
        ))]
    );
    assert_eq!(
        run(
            window(
                WindowEventVariant::WmCapabilities(WindowManagerCapabilities {
                    bits: shell::MINIMIZE | shell::MAXIMIZE
                }),
                40
            ),
            &live,
            &HashMap::new()
        ),
        vec![wayland_event(wayland::Event::Window(
            wayland::WindowEvent::WmCapabilities(WindowManagerCapabilities {
                bits: shell::MINIMIZE | shell::MAXIMIZE
            }),
            SurfaceHandle(40),
            SurfaceId(7)
        ))]
    );
}

#[test]
fn state_and_capabilities_of_an_unknown_window_give_nothing() {
    let destroyed = one_surface(40, SurfaceIdentity::Window(SurfaceId(7)));
    assert_eq!(
        run(
            window(WindowEventVariant::StateChanged(WindowState { bits: 1 }), 40),
            &HashMap::new(),
            &destroyed
        ),
        vec![]
    );
    assert_eq!(
        run(
            window(WindowEventVariant::WmCapabilities(WindowManagerCapabilities { bits: 1 }), 40),
            &HashMap::new(),
            &destroyed
        ),
        vec![]
    );
}

#[test]
fn other_window_events_give_nothing() {
    let live = one_surface(40, SurfaceIdentity::Window(SurfaceId(7)));
    let destroyed = one_surface(41, SurfaceIdentity::Window(SurfaceId(8)));
    for surface in [40, 41, 42] {
        for variant in [
            WindowEventVariant::Created(40, SurfaceId(7)),
            WindowEventVariant::ConfigureBounds { width: 10, height: 20 },
            WindowEventVariant::ScaleFactorChanged(180, Some(ViewportHandle(9))),
            WindowEventVariant::ScaleFactorChanged(120, None),
        ] {
            assert_eq!(run(window(variant, surface), &live, &destroyed), vec![]);
        }
    }
}

#[test]
fn done_of_a_retired_layer_surface_is_told() {
    let destroyed = one_surface(5, SurfaceIdentity::LayerSurface(SurfaceId(3)));
    let done = SctkEvent::LayerSurfaceEvent { variant: LayerSurfaceEventVariant::Done, id: SurfaceHandle(5) };
    assert_eq!(
        run(done.clone(), &HashMap::new(), &destroyed),
        vec![wayland_event(wayland::Event::Layer(
            wayland::LayerEvent::Done,
            SurfaceHandle(5),
            SurfaceId(3)
        ))]
    );
    assert_eq!(run(done, &destroyed, &HashMap::new()), vec![]);
}

#[test]
fn other_layer_surface_events_give_nothing() {
    let both = one_surface(5, SurfaceIdentity::LayerSurface(SurfaceId(3)));
    for variant in [
        LayerSurfaceEventVariant::Created(5, SurfaceId(3)),
        LayerSurfaceEventVariant::Configure(
            LayerSurfaceConfigure { new_size: (10, 20) },
            SurfaceHandle(5),
            true,
        ),
        LayerSurfaceEventVariant::ScaleFactorChanged(240, None),
    ] {
        let event = SctkEvent::LayerSurfaceEvent { variant, id: SurfaceHandle(5) };
        assert_eq!(run(event, &both, &both), vec![]);
    }
}

#[test]
fn done_of_a_retired_popup_is_told() {
    let destroyed = one_surface(6, SurfaceIdentity::Popup(SurfaceId(4)));
    let done = SctkEvent::PopupEvent {
        variant: PopupEventVariant::Done,
        toplevel_id: SurfaceHandle(1),
        parent_id: SurfaceHandle(2),
        id: SurfaceHandle(6),
    };
    assert_eq!(
        run(done.clone(), &HashMap::new(), &destroyed),
        vec![wayland_event(wayland::Event::Popup(
            wayland::PopupEvent::Done,
            SurfaceHandle(6),
            SurfaceId(4)
        ))]
    );
    assert_eq!(run(done, &destroyed, &HashMap::new()), vec![]);
}

#[test]
fn done_of_a_popup_is_not_looked_up_by_its_parents() {
    let mut destroyed = HashMap::new();
    destroyed.insert(1, SurfaceIdentity::Window(SurfaceId(10)));
    destroyed.insert(2, SurfaceIdentity::Popup(SurfaceId(20)));
    let done = SctkEvent::PopupEvent {
        variant: PopupEventVariant::Done,
        toplevel_id: SurfaceHandle(1),
        parent_id: SurfaceHandle(2),
        id: SurfaceHandle(6),
    };
    assert_eq!(run(done, &HashMap::new(), &destroyed), vec![]);
}

#[test]
fn other_popup_events_give_nothing() {
    let both = one_surface(6, SurfaceIdentity::Popup(SurfaceId(4)));
    for variant in [
        PopupEventVariant::Created(6, SurfaceId(4)),
        PopupEventVariant::Configure(
            PopupConfigure {
                position: (1, 2),
                width: 3,
                height: 4,
                serial: 5,
                kind: ConfigureKind::Reposition { token: 6 },
            },
            SurfaceHandle(6),
            false,
        ),
        PopupEventVariant::RepositionionedPopup { token: 6 },
        PopupEventVariant::Size(10, 20),
        PopupEventVariant::ScaleFactorChanged(120, Some(ViewportHandle(1))),
    ] {
        let event = SctkEvent::PopupEvent {
            variant,
            toplevel_id: SurfaceHandle(1),
            parent_id: SurfaceHandle(1),
            id: SurfaceHandle(6),
        };
        assert_eq!(run(event, &both, &both), vec![]);
    }
}

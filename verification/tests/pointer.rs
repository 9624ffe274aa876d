use std::collections::HashMap;

use sctk_bridge::conversion::pointer_axis_to_native;
use sctk_bridge::conversion::pointer_button_to_native;
use sctk_bridge::event::Event;
use sctk_bridge::handle::PointerHandle;
use sctk_bridge::handle::SeatHandle;
use sctk_bridge::handle::SurfaceHandle;
use sctk_bridge::mouse;
use sctk_bridge::mouse::Button;
use sctk_bridge::mouse::ScrollDelta;
use sctk_bridge::sctk_event::SctkEvent;
use sctk_bridge::seat::AxisScroll;
use sctk_bridge::seat::AxisSource;
use sctk_bridge::seat::Modifiers;
use sctk_bridge::seat::PointerEvent;
use sctk_bridge::seat::PointerEventKind;
use sctk_bridge::seat::BTN_LEFT;
use sctk_bridge::seat::BTN_MIDDLE;
use sctk_bridge::seat::BTN_RIGHT;

fn pointer(kind: PointerEventKind) -> Vec<Event> {
    let event = SctkEvent::PointerEvent {
        variant: PointerEvent { surface: SurfaceHandle(4), position: (2560, -5120), kind },
        ptr_id: PointerHandle(3),
        seat_id: SeatHandle(1),
    };
    let mut modifiers = Modifiers::default();
    event.to_native(&mut modifiers, &HashMap::new(), &HashMap::new())
}

fn scroll(absolute: i32, discrete: i32) -> AxisScroll {
    AxisScroll { absolute, discrete, stop: false }
}

#[test]
fn press_of_an_unknown_button_gives_nothing() {
    assert_eq!(pointer(PointerEventKind::Press { time: 1, button: 0x10000, serial: 2 }), vec![]);
    assert_eq!(pointer(PointerEventKind::Press { time: 1, button: u32::MAX, serial: 2 }), vec![]);
    assert_eq!(pointer(PointerEventKind::Release { time: 1, button: 0x10000, serial: 2 }), vec![]);
}

#[test]
fn enter_leave_and_motion_give_one_event_each() {
    assert_eq!(
        pointer(PointerEventKind::Enter { serial: 1 }),
        vec![Event::Mouse(mouse::Event::CursorEntered)]
    );
    assert_eq!(
        pointer(PointerEventKind::Leave { serial: 1 }),
        vec![Event::Mouse(mouse::Event::CursorLeft)]
    );
    assert_eq!(
        pointer(PointerEventKind::Motion { time: 1 }),
        vec![Event::Mouse(mouse::Event::CursorMoved { position: (2560, -5120) })]
    );
}

#[test]
fn press_and_release_of_the_main_buttons() {
    assert_eq!(
        pointer(PointerEventKind::Press { time: 1, button: BTN_LEFT, serial: 2 }),
        vec![Event::Mouse(mouse::Event::ButtonPressed(Button::Left))]
    );
    assert_eq!(
        pointer(PointerEventKind::Release { time: 1, button: BTN_RIGHT, serial: 2 }),
        vec![Event::Mouse(mouse::Event::ButtonReleased(Button::Right))]
    );
    assert_eq!(
        pointer(PointerEventKind::Press { time: 1, button: BTN_MIDDLE, serial: 2 }),
        vec![Event::Mouse(mouse::Event::ButtonPressed(Button::Middle))]
    );
}

#[test]
fn button_codes() {
    assert_eq!(pointer_button_to_native(0x110), Some(Button::Left));
    assert_eq!(pointer_button_to_native(0x111), Some(Button::Right));
    assert_eq!(pointer_button_to_native(0x112), Some(Button::Middle));
    assert_eq!(pointer_button_to_native(0x113), Some(Button::Other(0x113)));
    assert_eq!(pointer_button_to_native(0), Some(Button::Other(0)));
    assert_eq!(pointer_button_to_native(0xffff), Some(Button::Other(0xffff)));
    assert_eq!(pointer_button_to_native(0x10000), None);
    assert_eq!(pointer_button_to_native(0x10110), None);
    assert_eq!(pointer_button_to_native(u32::MAX), None);
}

#[test]
fn wheel_scrolls_in_lines_with_the_sign_turned() {
    assert_eq!(
        pointer_axis_to_native(Some(AxisSource::Wheel), scroll(3840, 1), scroll(-7680, -2)),
        Some(ScrollDelta::Lines { x: -1, y: 2 })
    );
    assert_eq!(
        pointer_axis_to_native(Some(AxisSource::WheelTilt), scroll(0, 3), scroll(0, 0)),
        Some(ScrollDelta::Lines { x: -3, y: 0 })
    );
}

#[test]
fn touchpad_scrolls_by_distance_with_the_sign_turned() {
    assert_eq!(
        pointer_axis_to_native(Some(AxisSource::Finger), scroll(384, 7), scroll(-640, -9)),
        Some(ScrollDelta::Pixels { x: -384, y: 640 })
    );
    assert_eq!(
        pointer_axis_to_native(Some(AxisSource::Continuous), scroll(1, 0), scroll(0, 0)),
        Some(ScrollDelta::Pixels { x: -1, y: 0 })
    );
}

#[test]
fn scroll_at_the_ends_of_the_range() {
    assert_eq!(
        pointer_axis_to_native(
            Some(AxisSource::Wheel),
            scroll(0, i32::MIN),
            scroll(0, i32::MAX)
        ),
        Some(ScrollDelta::Lines { x: 2147483648, y: -2147483647 })
    );
    assert_eq!(
        pointer_axis_to_native(
            Some(AxisSource::Finger),
            scroll(i32::MIN, 0),
            scroll(i32::MAX, 0)
        ),
        Some(ScrollDelta::Pixels { x: 2147483648, y: -2147483647 })
    );
}

#[test]
fn scroll_of_an_unknown_device_gives_nothing() {
    assert_eq!(pointer_axis_to_native(None, scroll(10, 1), scroll(10, 1)), None);
    assert_eq!(
        pointer(PointerEventKind::Axis {
            time: 1,
            horizontal: scroll(10, 1),
            vertical: scroll(10, 1),
            source: None,
        }),
        vec![]
    );
}

#[test]
fn axis_event_gives_a_wheel_event() {
    assert_eq!(
        pointer(PointerEventKind::Axis {
            time: 1,
            horizontal: scroll(0, 0),
            vertical: scroll(3840, 1),
            source: Some(AxisSource::Wheel),
        }),
        vec![Event::Mouse(mouse::Event::WheelScrolled {
            delta: ScrollDelta::Lines { x: 0, y: -1 }
        })]
    );
    assert_eq!(
        pointer(PointerEventKind::Axis {
            time: 1,
            horizontal: scroll(256, 0),
            vertical: scroll(-512, 0),
            source: Some(AxisSource::Finger),
        }),
        vec![Event::Mouse(mouse::Event::WheelScrolled {
            delta: ScrollDelta::Pixels { x: -256, y: 512 }
        })]
    );
}

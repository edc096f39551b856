//! Injection.

use mkvm::codes::{EV_KEY, EV_REL, EV_SYN, KEY_A, KEY_B, KEY_LEFTSHIFT, REL_X, REL_Y};
use mkvm::events::{InputEvent, MouseButton, VirtualDevice};
use mkvm::inject::{
    inject_key, inject_mouse_button, inject_mouse_move, inject_scroll, release_injected_keys,
    Injector,
};

fn event(kind: u16, code: u16, value: i32) -> InputEvent {
    InputEvent { kind, code, value }
}

#[test]
fn moves_are_told_from_the_last_position() {
    let mut injector = Injector::new();
    let first = inject_mouse_move(&mut injector, 100, 50, None);
    assert_eq!(
        first.events,
        vec![event(EV_REL, REL_X, 100), event(EV_REL, REL_Y, 50), event(EV_SYN, 0, 0)],
    );
    let second = inject_mouse_move(&mut injector, 90, 50, Some(MouseButton::Left));
    assert_eq!(second.events, vec![event(EV_REL, REL_X, -10), event(EV_SYN, 0, 0)]);
    assert!(inject_mouse_move(&mut injector, 90, 50, None).events.is_empty());
    assert_eq!((injector.last_x, injector.last_y), (90, 50));
}

#[test]
fn moves_add_up_to_the_way() {
    let mut injector = Injector::new();
    let (mut x, mut y) = (0, 0);
    for (to_x, to_y) in [(5, 7), (-20, 7), (1000, -300), (1000, -300), (640, 480)] {
        for event in inject_mouse_move(&mut injector, to_x, to_y, None).events {
            if event.kind == EV_REL && event.code == REL_X {
                x += event.value;
            }
            if event.kind == EV_REL && event.code == REL_Y {
                y += event.value;
            }
        }
        assert_eq!((x, y), (to_x, to_y));
    }
}

#[test]
fn buttons_and_wheels_do_not_depend_on_the_position() {
    let here = inject_mouse_button(MouseButton::Right, true, 0, 0);
    let there = inject_mouse_button(MouseButton::Right, true, 10, -3);
    assert_eq!(here.events, there.events);
    assert_eq!(here.events[0], event(EV_KEY, 0x111, 1));
    assert_eq!(inject_scroll(0, 360).events[0], event(EV_REL, 0x08, 3));
}

#[test]
fn keys_are_held_until_they_go_up() {
    let mut injector = Injector::new();
    let down = inject_key(&mut injector, 0x41, true).unwrap();
    assert_eq!(down.device, VirtualDevice::Keyboard);
    assert_eq!(down.events, vec![event(EV_KEY, KEY_A, 1), event(EV_SYN, 0, 0)]);
    inject_key(&mut injector, 0x42, true);
    inject_key(&mut injector, 0x41, true);
    assert_eq!(injector.held, vec![0x41, 0x42]);
    let up = inject_key(&mut injector, 0x41, false).unwrap();
    assert_eq!(up.events[0], event(EV_KEY, KEY_A, 0));
    assert_eq!(injector.held, vec![0x42]);
}

#[test]
fn press_and_release_leave_the_held_keys() {
    let mut injector = Injector::new();
    inject_key(&mut injector, 0x41, true);
    inject_key(&mut injector, 0x42, true);
    inject_key(&mut injector, 0x43, true);
    inject_key(&mut injector, 0x43, false);
    assert_eq!(injector.held, vec![0x41, 0x42]);
}

#[test]
fn unknown_keys_are_dropped() {
    let mut injector = Injector::new();
    assert!(inject_key(&mut injector, 0x07, true).is_none());
    assert!(inject_key(&mut injector, 0xE2, true).is_none());
    assert!(injector.held.is_empty());
}

#[test]
fn releasing_lets_go_of_every_held_key() {
    let mut injector = Injector::new();
    for key_code in [0xA0, 0x41, 0x42, 0x41] {
        inject_key(&mut injector, key_code, true);
    }
    let reports = release_injected_keys(&mut injector);
    let released: Vec<InputEvent> = reports.iter().map(|report| report.events[0]).collect();
    assert_eq!(
        released,
        vec![event(EV_KEY, KEY_LEFTSHIFT, 0), event(EV_KEY, KEY_A, 0), event(EV_KEY, KEY_B, 0)],
    );
    assert!(injector.held.is_empty());
    assert!(release_injected_keys(&mut injector).is_empty());
}

#[test]
fn keys_that_stand_for_nothing_are_not_released() {
    let mut injector = Injector { last_x: 1, last_y: 2, held: vec![0x07, 0x41] };
    let reports = release_injected_keys(&mut injector);
    assert_eq!(reports.len(), 1);
    assert_eq!(reports[0].events[0], event(EV_KEY, KEY_A, 0));
    assert_eq!((injector.last_x, injector.last_y), (1, 2));
}

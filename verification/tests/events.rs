//! Reports to the virtual devices.

use mkvm::codes::{
    BTN_LEFT, BTN_MIDDLE, BTN_RIGHT, EV_KEY, EV_REL, EV_SYN, KEY_A, REL_HWHEEL, REL_WHEEL, REL_X,
    REL_Y,
};
use mkvm::events::{
    reemit_button, reemit_key, reemit_key_code, reemit_relative, reemit_scroll, InputEvent,
    MouseButton, VirtualDevice,
};

fn event(kind: u16, code: u16, value: i32) -> InputEvent {
    InputEvent { kind, code, value }
}

fn end() -> InputEvent {
    event(EV_SYN, 0, 0)
}

#[test]
fn movement_tells_the_axes_that_moved() {
    let both = reemit_relative(3, -4);
    assert_eq!(both.device, VirtualDevice::Mouse);
    assert_eq!(both.events, vec![event(EV_REL, REL_X, 3), event(EV_REL, REL_Y, -4), end()]);
    assert_eq!(reemit_relative(0, 7).events, vec![event(EV_REL, REL_Y, 7), end()]);
    assert_eq!(reemit_relative(i32::MIN, 0).events, vec![event(EV_REL, REL_X, i32::MIN), end()]);
    assert!(reemit_relative(0, 0).events.is_empty());
}

#[test]
fn buttons_go_to_the_mouse() {
    let buttons = [
        (MouseButton::Left, BTN_LEFT),
        (MouseButton::Right, BTN_RIGHT),
        (MouseButton::Middle, BTN_MIDDLE),
    ];
    for (button, code) in buttons {
        let down = reemit_button(button, true);
        assert_eq!(down.device, VirtualDevice::Mouse);
        assert_eq!(down.events, vec![event(EV_KEY, code, 1), end()]);
        assert_eq!(reemit_button(button, false).events, vec![event(EV_KEY, code, 0), end()]);
    }
}

#[test]
fn wheels_turn_by_whole_notches() {
    let both = reemit_scroll(240, -120);
    assert_eq!(both.device, VirtualDevice::Mouse);
    assert_eq!(
        both.events,
        vec![event(EV_REL, REL_WHEEL, -1), event(EV_REL, REL_HWHEEL, 2), end()],
    );
    assert_eq!(reemit_scroll(0, -239).events, vec![event(EV_REL, REL_WHEEL, -1), end()]);
    assert_eq!(reemit_scroll(50, 0).events, vec![event(EV_REL, REL_HWHEEL, 0), end()]);
    assert!(reemit_scroll(0, 0).events.is_empty());
}

#[test]
fn notches_survive_the_wire() {
    for notches in [-17895697, -3, 1, 2, 17895697] {
        let events = reemit_scroll(0, notches * 120).events;
        assert_eq!(events, vec![event(EV_REL, REL_WHEEL, notches), end()]);
    }
}

#[test]
fn keys_go_to_the_keyboard() {
    let down = reemit_key(KEY_A, true);
    assert_eq!(down.device, VirtualDevice::Keyboard);
    assert_eq!(down.events, vec![event(EV_KEY, KEY_A, 1), end()]);
    assert_eq!(reemit_key(KEY_A, false).events, vec![event(EV_KEY, KEY_A, 0), end()]);
}

#[test]
fn key_codes_are_translated() {
    let down = reemit_key_code(0x41, true).unwrap();
    assert_eq!(down.device, VirtualDevice::Keyboard);
    assert_eq!(down.events, vec![event(EV_KEY, KEY_A, 1), end()]);
    assert!(reemit_key_code(0x07, true).is_none());
}

//! Frames of the grabbed devices.

use mkvm::capture::{
    ActiveTarget, CaptureContext, Edge, Effect, InputTarget, Reaction, Request, ScreenSize,
};
use mkvm::codes::{
    BTN_LEFT, BTN_MIDDLE, BTN_RIGHT, EV_KEY, EV_REL, EV_SYN, KEY_A, KEY_RECORD, KEY_RO, REL_HWHEEL,
    REL_WHEEL, REL_X, REL_Y,
};
use mkvm::events::{InputEvent, MouseButton};
use mkvm::frame::{handle_evdev_event, PendingInput, UserInput};
use mkvm::layout::Point;

const EV_ABS: u16 = 0x03;
const EV_MSC: u16 = 0x04;
const EV_LED: u16 = 0x11;

fn event(kind: u16, code: u16, value: i32) -> InputEvent {
    InputEvent { kind, code, value }
}

fn local() -> CaptureContext {
    CaptureContext::new(Point { x: 0, y: 0 })
}

fn remote() -> ActiveTarget {
    ActiveTarget {
        target: InputTarget { id: 9, edge: Edge::Right },
        current_screen: ScreenSize { width: 800, height: 600 },
        at: Point { x: 0, y: 0 },
    }
}

fn controlling() -> CaptureContext {
    CaptureContext { active: Some(remote()), ..local() }
}

fn take(context: &CaptureContext, pending: &mut PendingInput, event: InputEvent) -> Reaction {
    assert!(pending.can_take(event));
    handle_evdev_event(context, event, pending)
}

fn is_quiet(reaction: &Reaction) -> bool {
    reaction.effects.is_empty() && reaction.request.is_none()
}

#[test]
fn movements_add_up() {
    let mut pending = PendingInput::new();
    for (axis, value) in [(REL_X, 3), (REL_Y, -2), (REL_X, 4), (REL_X, -1), (REL_Y, i32::MIN)] {
        assert!(is_quiet(&take(&local(), &mut pending, event(EV_REL, axis, value))));
    }
    let dy = i32::MIN as i64 - 2;
    assert_eq!(pending.take_frame(), vec![UserInput::Move { dx: 6, dy }]);
    assert_eq!(pending, PendingInput::new());
    assert!(pending.take_frame().is_empty());
}

#[test]
fn movements_stop_where_they_cannot_be_told() {
    let mut pending = PendingInput { dx: i64::MAX - 1, dy: i64::MIN, ..PendingInput::new() };
    take(&local(), &mut pending, event(EV_REL, REL_X, 5));
    take(&local(), &mut pending, event(EV_REL, REL_Y, -5));
    assert_eq!((pending.dx, pending.dy), (i64::MAX, i64::MIN));
}

#[test]
fn movements_add_up_whatever_comes_in_between() {
    let mut pending = PendingInput::new();
    let context = local();
    let told = [
        event(EV_REL, REL_X, 5),
        event(EV_KEY, KEY_A, 1),
        event(EV_SYN, 0, 0),
        event(EV_REL, REL_WHEEL, 1),
        event(EV_REL, REL_Y, 2),
        event(EV_KEY, BTN_LEFT, 1),
        event(EV_REL, REL_X, -9),
    ];
    for event in told {
        let reaction = take(&context, &mut pending, event);
        assert!(!reaction.effects.iter().any(|e| matches!(e, Effect::EmitRelative { .. })));
        assert_eq!(reaction.request, None);
    }
    assert_eq!((pending.dx, pending.dy), (-4, 2));
    assert_eq!(context.cursor, Point { x: 0, y: 0 });
}

#[test]
fn movements_that_cancel_are_none() {
    let mut pending = PendingInput::new();
    take(&local(), &mut pending, event(EV_REL, REL_X, 3));
    take(&local(), &mut pending, event(EV_REL, REL_X, -3));
    assert!(pending.take_frame().is_empty());
}

#[test]
fn last_button_change_counts() {
    let buttons = [
        (BTN_LEFT, MouseButton::Left),
        (BTN_RIGHT, MouseButton::Right),
        (BTN_MIDDLE, MouseButton::Middle),
    ];
    for (code, button) in buttons {
        let mut pending = PendingInput::new();
        assert!(is_quiet(&take(&local(), &mut pending, event(EV_KEY, code, 1))));
        assert_eq!(pending.button, Some((button, true)));
        take(&local(), &mut pending, event(EV_KEY, code, 0));
        assert_eq!(pending.take_frame(), vec![UserInput::Button { button, down: false }]);
        assert_eq!(pending.button, None);
    }
}

#[test]
fn wheels_are_put_on_the_wire() {
    let mut pending = PendingInput::new();
    take(&local(), &mut pending, event(EV_REL, REL_WHEEL, 2));
    take(&local(), &mut pending, event(EV_REL, REL_WHEEL, -3));
    take(&local(), &mut pending, event(EV_REL, REL_HWHEEL, 1));
    assert_eq!(pending.take_frame(), vec![UserInput::Scroll { delta_x: 120, delta_y: -120 }]);
}

#[test]
fn movement_comes_before_button_and_wheels() {
    let mut pending = PendingInput::new();
    take(&local(), &mut pending, event(EV_REL, REL_WHEEL, 1));
    take(&local(), &mut pending, event(EV_KEY, BTN_RIGHT, 1));
    take(&local(), &mut pending, event(EV_REL, REL_Y, 5));
    assert_eq!(
        pending.take_frame(),
        vec![
            UserInput::Move { dx: 0, dy: 5 },
            UserInput::Button { button: MouseButton::Right, down: true },
            UserInput::Scroll { delta_x: 0, delta_y: 120 },
        ],
    );
    assert_eq!(pending, PendingInput::new());
}

#[test]
fn wheels_that_turn_too_far_are_told() {
    let fast = event(EV_REL, REL_WHEEL, i32::MAX / 120 + 1);
    assert!(!PendingInput::new().can_take(fast));
    assert!(PendingInput::new().can_take(event(EV_REL, REL_WHEEL, i32::MAX / 120)));
    let full = PendingInput { scroll_x: i32::MAX, ..PendingInput::new() };
    assert!(!full.can_take(event(EV_REL, REL_HWHEEL, 1)));
    assert!(full.can_take(event(EV_REL, REL_HWHEEL, -1)));
    assert!(full.can_take(event(EV_REL, REL_WHEEL, 1)));
    assert!(full.can_take(event(EV_REL, REL_X, i32::MAX)));
}

#[test]
fn local_keys_are_passed_on_at_once() {
    let mut pending = PendingInput::new();
    let reaction = take(&local(), &mut pending, event(EV_KEY, KEY_A, 1));
    assert_eq!(reaction.effects, vec![Effect::EmitKeyCode { key_code: 0x41, down: true }]);
    assert_eq!(reaction.request, None);
    let report = reaction.effects[0].local_report().unwrap();
    assert_eq!(report.events[0], event(EV_KEY, KEY_A, 1));
    assert_eq!(pending, PendingInput::new());
}

#[test]
fn local_keys_without_a_code_are_passed_on_as_they_are() {
    let mut pending = PendingInput::new();
    let reaction = take(&local(), &mut pending, event(EV_KEY, KEY_RO, 0));
    assert_eq!(reaction.effects, vec![Effect::EmitKey { code: KEY_RO, down: false }]);
    let report = reaction.effects[0].local_report().unwrap();
    assert_eq!(report.events[0], event(EV_KEY, KEY_RO, 0));
}

#[test]
fn local_record_key_becomes_the_control_key() {
    let reaction = take(&local(), &mut PendingInput::new(), event(EV_KEY, KEY_RECORD, 1));
    let report = reaction.effects[0].local_report().unwrap();
    assert_eq!(report.events[0], event(EV_KEY, 29, 1));
}

#[test]
fn repeated_keys_count_as_going_up() {
    let reaction = take(&local(), &mut PendingInput::new(), event(EV_KEY, KEY_A, 2));
    assert_eq!(reaction.effects, vec![Effect::EmitKeyCode { key_code: 0x41, down: false }]);
}

#[test]
fn remote_keys_are_sent() {
    let mut pending = PendingInput::new();
    let reaction = take(&controlling(), &mut pending, event(EV_KEY, KEY_A, 1));
    assert!(reaction.effects.is_empty());
    assert_eq!(
        reaction.request,
        Some(Request::SendKey { target: remote().target, key_code: 0x41, down: true }),
    );
    assert!(is_quiet(&take(&controlling(), &mut pending, event(EV_KEY, KEY_RO, 1))));
}

#[test]
fn other_events_are_passed_over() {
    let mut pending = PendingInput::new();
    let others = [
        event(EV_SYN, 0, 0),
        event(EV_ABS, REL_X, 5),
        event(EV_MSC, BTN_LEFT, 1),
        event(EV_LED, KEY_A, 1),
        event(0x7777, REL_Y, 5),
        event(EV_REL, 0x0b, 120),
        event(EV_REL, 0x7777, 1),
    ];
    for other in others {
        assert!(is_quiet(&take(&local(), &mut pending, other)));
    }
    assert_eq!(pending, PendingInput::new());
}

//! The capture, with the network and the layout played by a script.

use mkvm::capture::{
    button_move_sent, button_sent, crossing_checked, entry_sent, handle_key, handle_mouse_button,
    handle_mouse_move, handle_scroll, key_sent, keys_tracked, mouse_move_can_be_handled,
    move_checked, move_sent, release_linux_remote_control, screen_updated, scroll_move_sent,
    should_ignore_initial_anchor_warp_delta, ActiveTarget, CaptureContext, Crossing, CrossingRule,
    Edge, Effect, HeldButtons, InputTarget, Reaction, Request, ScreenSize, ScreenUpdate, RULE_PARTS,
};
use mkvm::events::{InputEvent, MouseButton};
use mkvm::layout::{Device, LayoutState, Point, Screen, SUBPIXELS};

const RULE: CrossingRule = CrossingRule { min_delta: 2 * RULE_PARTS, axis_dominance: RULE_PARTS };

fn at(x: i128, y: i128) -> Point {
    Point { x: x * SUBPIXELS, y: y * SUBPIXELS }
}

fn desk() -> LayoutState {
    let screen = Screen { x: 0, y: 0, width: 1920, height: 1080, is_primary: true };
    LayoutState { devices: vec![Device { role: "local".to_string(), screens: vec![screen] }] }
}

fn remote() -> ActiveTarget {
    ActiveTarget {
        target: InputTarget { id: 4, edge: Edge::Right },
        current_screen: ScreenSize { width: 800, height: 600 },
        at: at(0, 300),
    }
}

fn local() -> CaptureContext {
    CaptureContext::new(at(1900, 500))
}

fn controlling() -> CaptureContext {
    CaptureContext { active: Some(remote()), pressed_keys: vec![0x41, 0xA0], ..local() }
}

fn move_mouse(context: &mut CaptureContext, dx: i64, dy: i64) -> Reaction {
    let desk = desk();
    assert!(mouse_move_can_be_handled(context, &desk, dx, dy));
    handle_mouse_move(context, &desk, RULE, dx, dy)
}

fn is_quiet(reaction: &Reaction) -> bool {
    reaction.effects.is_empty() && reaction.request.is_none()
}

#[test]
fn no_movement_is_nothing() {
    let mut context = controlling();
    context.just_crossed = true;
    assert!(is_quiet(&move_mouse(&mut context, 0, 0)));
    assert!(context.just_crossed);
    assert_eq!(context.active, Some(remote()));
}

#[test]
fn local_movement_is_passed_on() {
    let mut context = local();
    let reaction = move_mouse(&mut context, 10, -3);
    let cursor = at(1910, 497);
    assert_eq!(context.cursor, cursor);
    assert!(reaction.effects.is_empty());
    assert_eq!(reaction.request, Some(Request::FindCrossing { cursor, dx: 10, dy: -3 }));
    let reaction = crossing_checked(None, 10, -3);
    assert_eq!(reaction.effects, vec![Effect::EmitRelative { dx: 10, dy: -3 }]);
    assert_eq!(reaction.request, None);
    let report = reaction.effects[0].local_report().unwrap();
    assert_eq!(report.events[0], InputEvent { kind: 2, code: 0, value: 10 });
    assert_eq!(report.events[1], InputEvent { kind: 2, code: 1, value: -3 });
}

#[test]
fn local_pointer_is_kept_on_the_screen() {
    let mut context = local();
    move_mouse(&mut context, 1000, 1000);
    assert_eq!(context.cursor, at(1919, 1079));
}

#[test]
fn far_movements_are_told_as_far_as_one_event_can() {
    let reaction = crossing_checked(None, i64::MAX, i64::MIN);
    assert_eq!(reaction.effects, vec![Effect::EmitRelative { dx: i32::MAX, dy: i32::MIN }]);
}

#[test]
fn pointer_without_screens_goes_on() {
    let free = LayoutState { devices: vec![] };
    let mut context = CaptureContext::new(at(1 << 52, -(1 << 52)));
    handle_mouse_move(&mut context, &free, RULE, 1, -1);
    assert_eq!(context.cursor, at((1 << 52) + 1, -(1 << 52) - 1));
    let mut context = CaptureContext::new(at(5, 5));
    handle_mouse_move(&mut context, &free, RULE, i64::MAX, i64::MIN);
    let far = at(5 + i64::MAX as i128, 5 + i64::MIN as i128);
    assert_eq!(context.cursor, far);
    handle_mouse_move(&mut context, &free, RULE, 1, -1);
    assert_eq!(context.cursor, Point { x: far.x + SUBPIXELS, y: far.y - SUBPIXELS });
    let mut context = CaptureContext::new(Point { x: i128::MAX - 1, y: i128::MIN + 1 });
    handle_mouse_move(&mut context, &free, RULE, 1, -1);
    assert_eq!(context.cursor, Point { x: i128::MAX, y: i128::MIN });
}

#[test]
fn movement_needs_screens_that_bound_it() {
    let screen = Screen { x: 0, y: 0, width: 0, height: 0, is_primary: true };
    let flat =
        LayoutState { devices: vec![Device { role: "local".to_string(), screens: vec![screen] }] };
    assert!(!mouse_move_can_be_handled(&local(), &flat, 1, 0));
    assert!(mouse_move_can_be_handled(&local(), &flat, 0, 0));
    assert!(mouse_move_can_be_handled(&controlling(), &flat, 1, 0));
}

#[test]
fn crossing_takes_control() {
    let mut context = local();
    move_mouse(&mut context, 30, 0);
    let anchor = at(1915, 500);
    let reaction = crossing_checked(Some(Crossing { remote: remote(), anchor }), 30, 0);
    assert!(reaction.effects.is_empty());
    assert_eq!(
        reaction.request,
        Some(Request::SendEntryMove { remote: remote(), anchor, dx: 30, dy: 0 }),
    );
    context.buttons.left = true;
    let reaction = entry_sent(&mut context, remote(), anchor, 30, 0, true);
    assert_eq!(
        reaction.effects,
        vec![
            Effect::MarkMoveSent,
            Effect::ResetButtonMask,
            Effect::SetRemoteActive { active: true },
            Effect::SetClipboardTarget { remote: remote() },
        ],
    );
    assert_eq!(reaction.request, None);
    assert_eq!(context.active, Some(remote()));
    assert!(context.just_crossed);
    assert_eq!(context.cursor, anchor);
    assert_eq!(context.buttons, HeldButtons::new());
}

#[test]
fn movement_to_an_unreachable_machine_stays_local() {
    let mut context = local();
    let reaction = entry_sent(&mut context, remote(), at(0, 0), 30, -2, false);
    assert_eq!(
        reaction.effects,
        vec![
            Effect::ResetMoveTimer,
            Effect::ResetButtonMask,
            Effect::EmitRelative { dx: 30, dy: -2 },
        ],
    );
    assert_eq!(reaction.request, None);
    let report = reaction.effects[2].local_report().unwrap();
    assert_eq!(
        report.events,
        vec![
            InputEvent { kind: 2, code: 0, value: 30 },
            InputEvent { kind: 2, code: 1, value: -2 },
            InputEvent { kind: 0, code: 0, value: 0 },
        ],
    );
    assert_eq!(context.active, None);
    assert!(!context.just_crossed);
    assert_eq!(context.cursor, at(1900, 500));
}

#[test]
fn first_movement_back_is_ignored_once() {
    let mut context = controlling();
    context.just_crossed = true;
    assert!(is_quiet(&move_mouse(&mut context, -5, 1)));
    assert!(!context.just_crossed);
    assert_eq!(context.active, Some(remote()));
    let reaction = move_mouse(&mut context, -5, 1);
    let moved = ActiveTarget { at: at(-5, 301), ..remote() };
    assert_eq!(reaction.request, Some(Request::UpdateScreen { remote: moved, dx: -5, dy: 1 }));
}

#[test]
fn first_movement_ahead_counts() {
    let mut context = controlling();
    context.just_crossed = true;
    let reaction = move_mouse(&mut context, 7, 0);
    let moved = ActiveTarget { at: at(7, 300), ..remote() };
    assert_eq!(reaction.request, Some(Request::UpdateScreen { remote: moved, dx: 7, dy: 0 }));
    assert!(reaction.effects.is_empty());
    assert_eq!(context.active, Some(moved));
    assert!(!context.just_crossed);
    assert_eq!(context.cursor, at(1900, 500));
}

#[test]
fn warps_lead_back_across_the_edge() {
    let warp = |edge, dx, dy| should_ignore_initial_anchor_warp_delta(edge, dx, dy, RULE);
    assert!(warp(Edge::Right, -2, 2));
    assert!(!warp(Edge::Right, -1, 0));
    assert!(!warp(Edge::Right, 2, 0));
    assert!(!warp(Edge::Right, -2, 3));
    assert!(warp(Edge::Left, 2, -2));
    assert!(!warp(Edge::Left, -2, 0));
    assert!(!warp(Edge::Left, 2, -3));
    assert!(warp(Edge::Bottom, 2, -2));
    assert!(!warp(Edge::Bottom, 0, 2));
    assert!(!warp(Edge::Bottom, 3, -2));
    assert!(warp(Edge::Top, -2, 2));
    assert!(!warp(Edge::Top, 0, -2));
    assert!(!warp(Edge::Top, 3, 2));
    let steep = CrossingRule { min_delta: RULE_PARTS / 2, axis_dominance: RULE_PARTS * 3 / 2 };
    assert!(should_ignore_initial_anchor_warp_delta(Edge::Right, -3, 2, steep));
    assert!(!should_ignore_initial_anchor_warp_delta(Edge::Right, -4, 3, steep));
    assert!(!should_ignore_initial_anchor_warp_delta(Edge::Left, i64::MIN, i64::MIN, steep));
    assert!(!should_ignore_initial_anchor_warp_delta(Edge::Right, i64::MIN, i64::MIN, steep));
    assert!(should_ignore_initial_anchor_warp_delta(Edge::Right, i64::MIN, i64::MIN, RULE));
    let decimal = CrossingRule { min_delta: RULE_PARTS / 10, axis_dominance: RULE_PARTS / 10 * 11 };
    assert!(should_ignore_initial_anchor_warp_delta(Edge::Left, 11, 10, decimal));
    assert!(!should_ignore_initial_anchor_warp_delta(Edge::Left, 10, 10, decimal));
}

#[test]
fn remote_pointer_is_kept_on_its_screen() {
    let mut context = controlling();
    let outside = ActiveTarget { at: at(900, -4), ..remote() };
    let kept = ActiveTarget { at: at(799, 0), ..remote() };
    let reaction = screen_updated(&mut context, outside, ScreenUpdate::Remote);
    assert!(reaction.effects.is_empty());
    assert_eq!(
        reaction.request,
        Some(Request::CheckMoveDue { remote: kept, dragging: false }),
    );
    assert_eq!(context.active, Some(kept));
    assert_eq!(context.pressed_keys, vec![0x41, 0xA0]);
}

#[test]
fn position_is_sent_when_due() {
    assert!(is_quiet(&move_checked(remote(), false)));
    let reaction = move_checked(remote(), true);
    assert_eq!(reaction.request, Some(Request::SendMove { remote: remote() }));
    let mut context = controlling();
    assert!(is_quiet(&move_sent(&mut context, true)));
    assert_eq!(context.active, Some(remote()));
}

#[test]
fn unreachable_machine_is_given_up() {
    let mut context = controlling();
    let reaction = move_sent(&mut context, false);
    assert_eq!(
        reaction.effects,
        vec![
            Effect::SetRemoteActive { active: false },
            Effect::ClearClipboardTarget,
            Effect::ResetMoveTimer,
            Effect::ResetButtonMask,
        ],
    );
    assert_eq!(context.active, None);
    assert!(context.pressed_keys.is_empty());
    assert_eq!(context.cursor, at(1900, 500));
}

#[test]
fn coming_back_lets_go_of_everything() {
    let mut context = controlling();
    let left = ActiveTarget { at: at(-3, 200), ..remote() };
    let back = at(1917, 400);
    let reaction = screen_updated(&mut context, left, ScreenUpdate::Returned { cursor: back });
    let target = remote().target;
    assert_eq!(
        reaction.effects,
        vec![
            Effect::SendCursorPark { remote: left },
            Effect::SetRemoteActive { active: false },
            Effect::SendKey { target, key_code: 0x41, down: false },
            Effect::SendKey { target, key_code: 0xA0, down: false },
            Effect::ReleaseRemoteButtons { target },
            Effect::ResetMoveTimer,
        ],
    );
    assert_eq!(reaction.request, None);
    assert_eq!(context.active, None);
    assert!(context.pressed_keys.is_empty());
    assert_eq!(context.cursor, back);
}

#[test]
fn local_buttons_wheels_and_keys_stay_local() {
    let context = local();
    let reaction = handle_mouse_button(&context, MouseButton::Left, true);
    assert_eq!(
        reaction.effects,
        vec![Effect::EmitButton { button: MouseButton::Left, down: true }],
    );
    assert_eq!(reaction.request, None);
    assert_eq!(reaction.effects[0].local_report().unwrap().events[0].code, 0x110);
    let reaction = handle_scroll(&context, 0, -120);
    assert_eq!(reaction.effects, vec![Effect::EmitScroll { delta_x: 0, delta_y: -120 }]);
    assert_eq!(reaction.request, None);
    assert_eq!(reaction.effects[0].local_report().unwrap().events[0].value, -1);
    let reaction = handle_key(&context, 0x07, true);
    assert_eq!(reaction.effects, vec![Effect::EmitKeyCode { key_code: 0x07, down: true }]);
    assert_eq!(reaction.request, None);
    assert!(reaction.effects[0].local_report().is_none());
}

#[test]
fn remote_buttons_follow_their_position() {
    let context = controlling();
    let button = MouseButton::Middle;
    let reaction = handle_mouse_button(&context, button, true);
    assert!(reaction.effects.is_empty());
    assert_eq!(
        reaction.request,
        Some(Request::SendButtonMove { remote: remote(), button, down: true }),
    );
    assert!(is_quiet(&button_move_sent(remote(), button, true, false)));
    let reaction = button_move_sent(remote(), button, true, true);
    assert_eq!(reaction.effects, vec![Effect::MarkMoveSent]);
    assert_eq!(
        reaction.request,
        Some(Request::SendButton { target: remote().target, button, down: true }),
    );
    let mut context = context;
    assert!(is_quiet(&button_sent(&mut context, button, true, false)));
    assert_eq!(context.buttons, HeldButtons::new());
    let reaction = button_sent(&mut context, button, true, true);
    assert_eq!(reaction.effects, vec![Effect::UpdateButtonMask { button, down: true }]);
    assert_eq!(reaction.request, None);
    assert_eq!(context.buttons, HeldButtons { left: false, right: false, middle: true });
}

#[test]
fn position_is_dragged_while_a_button_is_held() {
    let mut context = controlling();
    let asks_dragging = |context: &mut CaptureContext| {
        match screen_updated(context, remote(), ScreenUpdate::Remote).request {
            Some(Request::CheckMoveDue { dragging, .. }) => dragging,
            _ => panic!("the position must be checked"),
        }
    };
    assert!(!asks_dragging(&mut context));
    for button in [MouseButton::Left, MouseButton::Right, MouseButton::Middle] {
        button_sent(&mut context, button, true, true);
        assert!(asks_dragging(&mut context));
        button_sent(&mut context, button, false, true);
        assert!(!asks_dragging(&mut context));
    }
    button_sent(&mut context, MouseButton::Left, true, true);
    button_sent(&mut context, MouseButton::Right, true, true);
    button_sent(&mut context, MouseButton::Left, false, true);
    assert!(asks_dragging(&mut context));
    button_sent(&mut context, MouseButton::Right, false, false);
    assert!(asks_dragging(&mut context));
}

#[test]
fn held_buttons_are_forgotten_with_the_machine() {
    let held = HeldButtons { left: true, right: false, middle: true };
    let mut back = CaptureContext { buttons: held, ..controlling() };
    screen_updated(&mut back, remote(), ScreenUpdate::Returned { cursor: at(0, 0) });
    assert_eq!(back.buttons, HeldButtons::new());
    let mut lost = CaptureContext { buttons: held, ..controlling() };
    move_sent(&mut lost, true);
    assert_eq!(lost.buttons, held);
    move_sent(&mut lost, false);
    assert_eq!(lost.buttons, HeldButtons::new());
    let mut stopped = CaptureContext { buttons: held, ..controlling() };
    release_linux_remote_control(&mut stopped);
    assert_eq!(stopped.buttons, HeldButtons::new());
}

#[test]
fn remote_wheels_follow_their_position() {
    let context = controlling();
    let reaction = handle_scroll(&context, 120, 240);
    assert!(reaction.effects.is_empty());
    assert_eq!(
        reaction.request,
        Some(Request::SendScrollMove { remote: remote(), delta_x: 120, delta_y: 240 }),
    );
    assert!(is_quiet(&scroll_move_sent(remote(), 120, 240, false)));
    let reaction = scroll_move_sent(remote(), 120, 240, true);
    let target = remote().target;
    assert_eq!(
        reaction.effects,
        vec![Effect::MarkMoveSent, Effect::SendScroll { target, delta_x: 120, delta_y: 240 }],
    );
    assert_eq!(reaction.request, None);
}

#[test]
fn remote_keys_are_tracked_once_sent() {
    let mut context = controlling();
    let target = remote().target;
    let reaction = handle_key(&context, 0x42, true);
    assert!(reaction.effects.is_empty());
    assert_eq!(reaction.request, Some(Request::SendKey { target, key_code: 0x42, down: true }));
    assert!(is_quiet(&key_sent(0x42, true, false)));
    let reaction = key_sent(0x42, true, true);
    assert!(reaction.effects.is_empty());
    assert_eq!(reaction.request, Some(Request::TrackKey { key_code: 0x42, down: true }));
    assert!(is_quiet(&keys_tracked(&mut context, vec![0x42])));
    assert_eq!(context.pressed_keys, vec![0x42]);
    assert_eq!(context.active, Some(remote()));
}

#[test]
fn stopping_gives_the_remote_machine_back() {
    let mut context = controlling();
    context.just_crossed = true;
    let reaction = release_linux_remote_control(&mut context);
    let target = remote().target;
    assert_eq!(
        reaction.effects,
        vec![
            Effect::SendKey { target, key_code: 0x41, down: false },
            Effect::SendKey { target, key_code: 0xA0, down: false },
            Effect::ReleaseRemoteButtons { target },
            Effect::SetRemoteActive { active: false },
            Effect::ResetMoveTimer,
            Effect::ClearClipboardTarget,
        ],
    );
    assert_eq!(reaction.request, None);
    assert_eq!(context.active, None);
    assert!(!context.just_crossed);
    assert!(context.pressed_keys.is_empty());
}

#[test]
fn stopping_without_control_forgets_everything() {
    let mut context = local();
    context.pressed_keys = vec![0x41];
    let reaction = release_linux_remote_control(&mut context);
    assert_eq!(
        reaction.effects,
        vec![
            Effect::ResetButtonMask,
            Effect::SetRemoteActive { active: false },
            Effect::ResetMoveTimer,
            Effect::ClearClipboardTarget,
        ],
    );
    assert!(context.pressed_keys.is_empty());
    assert_eq!(context.cursor, at(1900, 500));
}

/// Answers every request until none is open; returns what was carried out.
fn converse(context: &mut CaptureContext, first: Reaction, reachable: bool) -> Vec<Effect> {
    let mut done = Vec::new();
    let mut reaction = first;
    for _ in 0..4 {
        done.extend(reaction.effects);
        let Some(request) = reaction.request else {
            return done;
        };
        reaction = match request {
            Request::UpdateScreen { remote, .. } => {
                let update = if remote.at.x < 0 {
                    ScreenUpdate::Returned { cursor: at(1918, 500) }
                } else {
                    ScreenUpdate::Remote
                };
                screen_updated(context, remote, update)
            }
            Request::CheckMoveDue { remote, .. } => move_checked(remote, true),
            Request::SendMove { .. } => move_sent(context, reachable),
            Request::FindCrossing { cursor, dx, dy } => {
                let crosses = cursor.x == 1919 * SUBPIXELS && dx > 0;
                let crossing =
                    if crosses { Some(Crossing { remote: remote(), anchor: cursor }) } else { None };
                crossing_checked(crossing, dx, dy)
            }
            Request::SendEntryMove { remote, anchor, dx, dy } => {
                entry_sent(context, remote, anchor, dx, dy, reachable)
            }
            Request::SendButtonMove { remote, button, down } => {
                button_move_sent(remote, button, down, reachable)
            }
            Request::SendButton { button, down, .. } => {
                button_sent(context, button, down, reachable)
            }
            Request::SendScrollMove { remote, delta_x, delta_y } => {
                scroll_move_sent(remote, delta_x, delta_y, reachable)
            }
            Request::SendKey { key_code, down, .. } => key_sent(key_code, down, reachable),
            Request::TrackKey { key_code, .. } => keys_tracked(context, vec![key_code]),
        };
    }
    panic!("the conversation does not end");
}

#[test]
fn a_visit_to_a_remote_machine() {
    let mut context = local();
    let mut told = Vec::new();
    let mut passed_on = 0;
    for dx in [10, 50, -40, 5, 100, -200, -1, 30] {
        let was_remote = context.active.is_some();
        let first = move_mouse(&mut context, dx, 0);
        for effect in converse(&mut context, first, true) {
            match effect {
                Effect::SetRemoteActive { active } => {
                    assert_eq!(active, context.active.is_some());
                    told.push(active);
                }
                Effect::EmitRelative { dx, .. } => {
                    assert!(!was_remote);
                    passed_on += dx;
                }
                _ => {}
            }
        }
        if was_remote {
            assert!(!context.just_crossed);
        }
    }
    assert_eq!(told, vec![true, false, true]);
    assert_eq!(passed_on, 9);
    assert!(context.active.is_some());
}

#[test]
fn keys_and_buttons_are_held_only_in_control() {
    let mut context = local();
    for _ in 0..2 {
        let crossing = move_mouse(&mut context, 50, 0);
        converse(&mut context, crossing, true);
        assert!(context.active.is_some());
        assert!(context.pressed_keys.is_empty());
        assert_eq!(context.buttons, HeldButtons::new());
        let key = handle_key(&context, 0x41, true);
        converse(&mut context, key, true);
        let button = handle_mouse_button(&context, MouseButton::Right, true);
        converse(&mut context, button, true);
        assert_eq!(context.pressed_keys, vec![0x41]);
        assert!(context.buttons.right);
        for dx in [10, -50] {
            let movement = move_mouse(&mut context, dx, 0);
            converse(&mut context, movement, true);
        }
        assert!(context.active.is_none());
        assert!(context.pressed_keys.is_empty());
        assert_eq!(context.buttons, HeldButtons::new());
    }
}

#[test]
fn no_local_movement_is_lost_without_a_reachable_machine() {
    let mut context = local();
    let mut passed_on = (0, 0);
    let moves = [(10, 1), (50, 0), (7, -3), (-100, 0), (200, 200)];
    for (dx, dy) in moves {
        let first = move_mouse(&mut context, dx, dy);
        for effect in converse(&mut context, first, false) {
            if let Effect::EmitRelative { dx, dy } = effect {
                passed_on = (passed_on.0 + dx, passed_on.1 + dy);
            }
        }
        assert_eq!(context.active, None);
    }
    assert_eq!(passed_on, (167, 198));
}

#[test]
fn a_machine_that_goes_away() {
    let mut context = controlling();
    let first = handle_key(&context, 0x43, true);
    assert!(converse(&mut context, first, false).is_empty());
    assert_eq!(context.pressed_keys, vec![0x41, 0xA0]);
    let first = move_mouse(&mut context, 4, 4);
    let done = converse(&mut context, first, false);
    assert_eq!(done[0], Effect::SetRemoteActive { active: false });
    assert_eq!(context.active, None);
}

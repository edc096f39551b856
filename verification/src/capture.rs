//! Capture: what a machine that controls others does with its own mouse and keyboard.
//!
//! The grabbed devices are read in frames. What a frame holds, and every answer of the network
//! and of the layout, is handed to a function of this module. It updates the
//! [`CaptureContext`] and returns a [`Reaction`]: effects to carry out in order, and then,
//! where the next decision depends on it, a request whose answer is handed back in turn.

use vstd::prelude::*;

use crate::events::{
    reemit_button, reemit_key, reemit_key_code, reemit_relative, reemit_scroll, MouseButton, Report,
};
#[allow(unused_imports)]
use crate::events::{
    button_report, is_notches_of, is_press, key_report,
    law_report_moves_by_its_deltas, law_wheels_turn_by_whole_notches, relative_report,
    scroll_report, travel, ReportView,
};
#[allow(unused_imports)]
use crate::codes::{BTN_LEFT, BTN_MIDDLE, BTN_RIGHT, REL_HWHEEL, REL_WHEEL, REL_X, REL_Y};
#[allow(unused_imports)]
use crate::keymap::evdev_key;
use crate::layout::{clamp_cursor, cursor_can_be_clamped, move_point, LayoutState, Point, SUBPIXELS};
#[allow(unused_imports)]
use crate::layout::{
    can_clamp, clamp, clamped_cursor, distance, is_moved_by, moved_point, subpixels,
};

verus! {

/// The edge of a local screen that a remote machine lies behind.
#[derive(Clone, Copy, Debug, PartialEq, Eq, Structural)]
pub enum Edge {
    Left,
    Right,
    Top,
    Bottom,
}

/// A remote machine that the pointer can cross to.
#[derive(Clone, Copy, Debug, PartialEq, Eq, Structural)]
pub struct InputTarget {
    /// The number by which the transport finds the machine.
    pub id: u64,
    pub edge: Edge,
}

/// The size of a screen, in pixels.
#[derive(Clone, Copy, Debug, PartialEq, Eq, Structural)]
pub struct ScreenSize {
    pub width: i32,
    pub height: i32,
}

/// The remote machine that is being controlled, and the pointer on it.
#[derive(Clone, Copy, Debug, PartialEq, Eq, Structural)]
pub struct ActiveTarget {
    pub target: InputTarget,
    pub current_screen: ScreenSize,
    /// The position on the current screen.
    pub at: Point,
}

/// Parts that the numbers of a [`CrossingRule`] are given in.
pub const RULE_PARTS: i64 = 1_000_000_000;

/// When a movement counts as one across an edge, in parts of [`RULE_PARTS`].
#[derive(Clone, Copy, Debug, PartialEq, Eq, Structural)]
pub struct CrossingRule {
    /// The least movement, in pixels.
    pub min_delta: i64,
    /// The least ratio to the movement along the edge.
    pub axis_dominance: i64,
}

/// The mouse buttons that are held down on the remote machine.
#[derive(Clone, Copy, Debug, PartialEq, Eq, Structural)]
pub struct HeldButtons {
    pub left: bool,
    pub right: bool,
    pub middle: bool,
}

impl HeldButtons {
    /// No button is held.
    pub open spec fn none() -> HeldButtons {
        HeldButtons { left: false, right: false, middle: false }
    }

    /// What is held once a button went down or up.
    pub open spec fn after(self, button: MouseButton, down: bool) -> HeldButtons {
        match button {
            MouseButton::Left => HeldButtons { left: down, ..self },
            MouseButton::Right => HeldButtons { right: down, ..self },
            MouseButton::Middle => HeldButtons { middle: down, ..self },
        }
    }

    /// Whether any button is held.
    pub open spec fn any(self) -> bool {
        self.left || self.right || self.middle
    }

    /// No button is held.
    pub fn new() -> (buttons: Self)
        ensures
            buttons == HeldButtons::none(),
    {
        HeldButtons { left: false, right: false, middle: false }
    }

    /// Notes that a button went down or up.
    fn note(&mut self, button: MouseButton, down: bool)
        ensures
            *final(self) == old(self).after(button, down),
    {
        match button {
            MouseButton::Left => self.left = down,
            MouseButton::Right => self.right = down,
            MouseButton::Middle => self.middle = down,
        }
    }

    /// Finds out whether any button is held.
    fn is_any_held(&self) -> (held: bool)
        ensures
            held == self.any(),
    {
        self.left || self.right || self.middle
    }
}

/// The state of the capture.
#[derive(Debug)]
pub struct CaptureContext {
    /// The remote machine that is being controlled, if any.
    pub active: Option<ActiveTarget>,
    /// The pointer has just crossed over, and no movement has been seen since.
    pub just_crossed: bool,
    /// The local pointer, in the coordinates of the native layout.
    pub cursor: Point,
    /// The virtual-key codes of the keys that are held down on the remote machine.
    pub pressed_keys: Vec<u16>,
    /// The mouse buttons that are held down on the remote machine.
    pub buttons: HeldButtons,
}

/// The mathematical content of a [`CaptureContext`].
#[verifier::ext_equal]
pub struct ContextView {
    pub active: Option<ActiveTarget>,
    pub just_crossed: bool,
    pub cursor: Point,
    pub pressed_keys: Seq<u16>,
    pub buttons: HeldButtons,
}

impl View for CaptureContext {
    type V = ContextView;

    open spec fn view(&self) -> ContextView {
        ContextView {
            active: self.active,
            just_crossed: self.just_crossed,
            cursor: self.cursor,
            pressed_keys: self.pressed_keys@,
            buttons: self.buttons,
        }
    }
}

/// Something to carry out; what comes of it does not matter.
#[derive(Clone, Copy, Debug, PartialEq, Eq, Structural)]
pub enum Effect {
    /// Park the remote pointer.
    SendCursorPark { remote: ActiveTarget },
    /// Send a key that goes down or up.
    SendKey { target: InputTarget, key_code: u16, down: bool },
    /// Send a wheel movement.
    SendScroll { target: InputTarget, delta_x: i32, delta_y: i32 },
    /// Send every button that is held as going up, and forget which were.
    ReleaseRemoteButtons { target: InputTarget },
    /// Tell the rest of the application whether a remote machine is being controlled.
    SetRemoteActive { active: bool },
    /// Share the clipboard with a remote machine.
    SetClipboardTarget { remote: ActiveTarget },
    /// Stop sharing the clipboard.
    ClearClipboardTarget,
    /// Note that a position has just been sent.
    MarkMoveSent,
    /// Forget when a position was last sent.
    ResetMoveTimer,
    /// Note that a button went down or up on the remote machine.
    UpdateButtonMask { button: MouseButton, down: bool },
    /// Forget which buttons are held on the remote machine.
    ResetButtonMask,
    /// Move the local pointer.
    EmitRelative { dx: i32, dy: i32 },
    /// Press or release a button on this machine.
    EmitButton { button: MouseButton, down: bool },
    /// Turn the wheels on this machine.
    EmitScroll { delta_x: i32, delta_y: i32 },
    /// Press or release a key, given by its evdev code, on this machine.
    EmitKey { code: u16, down: bool },
    /// Press or release a key, given by its virtual-key code, on this machine.
    EmitKeyCode { key_code: u16, down: bool },
}

impl Effect {
    /// Whether the effect is on this machine's own pointer and keyboard.
    pub open spec fn is_local(self) -> bool {
        self is EmitRelative || self is EmitButton || self is EmitScroll || self is EmitKey
            || self is EmitKeyCode
    }

    /// What the effect writes to the virtual devices, if anything.
    pub open spec fn report(self) -> Option<ReportView> {
        match self {
            Effect::EmitRelative { dx, dy } => Some(relative_report(dx, dy)),
            Effect::EmitButton { button, down } => Some(button_report(button, down)),
            Effect::EmitScroll { delta_x, delta_y } => Some(scroll_report(delta_x, delta_y)),
            Effect::EmitKey { code, down } => Some(key_report(code, down)),
            Effect::EmitKeyCode { key_code, down } => match evdev_key(key_code) {
                Some(code) => Some(key_report(code, down)),
                None => None,
            },
            _ => None,
        }
    }

    /// Finds what the effect writes to the virtual devices, if anything.
    pub fn local_report(self) -> (report: Option<Report>)
        ensures
            match (report, self.report()) {
                (Some(report), Some(view)) => report@ == view,
                (None, None) => true,
                _ => false,
            },
    {
        match self {
            Effect::EmitRelative { dx, dy } => Some(reemit_relative(dx, dy)),
            Effect::EmitButton { button, down } => Some(reemit_button(button, down)),
            Effect::EmitScroll { delta_x, delta_y } => Some(reemit_scroll(delta_x, delta_y)),
            Effect::EmitKey { code, down } => Some(reemit_key(code, down)),
            Effect::EmitKeyCode { key_code, down } => reemit_key_code(key_code, down),
            _ => None,
        }
    }
}

/// Something to carry out whose outcome the next decision depends on.
#[derive(Clone, Copy, Debug, PartialEq, Eq, Structural)]
pub enum Request {
    /// Move the target to the remote screen that it is now on, and find out whether it has come
    /// back; then [`screen_updated`].
    UpdateScreen { remote: ActiveTarget, dx: i64, dy: i64 },
    /// Find out whether a position may be sent yet, given whether a button is held; then
    /// [`move_checked`].
    CheckMoveDue { remote: ActiveTarget, dragging: bool },
    /// Send the position; then [`move_sent`].
    SendMove { remote: ActiveTarget },
    /// Find out whether the local pointer crosses to a remote machine; then
    /// [`crossing_checked`].
    FindCrossing { cursor: Point, dx: i64, dy: i64 },
    /// Send the first position on a remote machine; then [`entry_sent`].
    SendEntryMove { remote: ActiveTarget, anchor: Point, dx: i64, dy: i64 },
    /// Send the position that a button is about; then [`button_move_sent`].
    SendButtonMove { remote: ActiveTarget, button: MouseButton, down: bool },
    /// Send a button; then [`button_sent`].
    SendButton { target: InputTarget, button: MouseButton, down: bool },
    /// Send the position that a wheel movement is about; then [`scroll_move_sent`].
    SendScrollMove { remote: ActiveTarget, delta_x: i32, delta_y: i32 },
    /// Send a key; then [`key_sent`].
    SendKey { target: InputTarget, key_code: u16, down: bool },
    /// Work out the keys that are held on the remote machine now that one went down or up; then
    /// [`keys_tracked`].
    TrackKey { key_code: u16, down: bool },
}

/// Where the pointer is after the remote screens have been consulted.
#[derive(Clone, Copy, Debug, PartialEq, Eq, Structural)]
pub enum ScreenUpdate {
    /// It is on a remote screen.
    Remote,
    /// It has come back to this machine, at the given position.
    Returned { cursor: Point },
}

/// A remote machine that the pointer crosses to.
#[derive(Clone, Copy, Debug, PartialEq, Eq, Structural)]
pub struct Crossing {
    pub remote: ActiveTarget,
    /// Where the local pointer waits meanwhile.
    pub anchor: Point,
}

/// What is to be done next.
#[derive(Debug)]
pub struct Reaction {
    /// To be carried out first, in order.
    pub effects: Vec<Effect>,
    /// To be carried out then, if anything.
    pub request: Option<Request>,
}

/// The mathematical content of a [`Reaction`].
#[verifier::ext_equal]
pub struct ReactionView {
    pub effects: Seq<Effect>,
    pub request: Option<Request>,
}

impl View for Reaction {
    type V = ReactionView;

    open spec fn view(&self) -> ReactionView {
        ReactionView { effects: self.effects@, request: self.request }
    }
}

/// Nothing is to be done.
pub open spec fn nothing() -> ReactionView {
    ReactionView { effects: Seq::empty(), request: None }
}

/// Only effects are to be carried out.
pub open spec fn perform(effects: Seq<Effect>) -> ReactionView {
    ReactionView { effects, request: None }
}

/// Only a request is to be carried out.
pub open spec fn ask(request: Request) -> ReactionView {
    ReactionView { effects: Seq::empty(), request: Some(request) }
}

/// The absolute value.
pub open spec fn abs(value: int) -> int {
    if value < 0 {
        -value
    } else {
        value
    }
}

/// How far a movement leads back across an edge.
pub open spec fn back_across(edge: Edge, dx: int, dy: int) -> int {
    match edge {
        Edge::Right => -dx,
        Edge::Left => dx,
        Edge::Bottom => -dy,
        Edge::Top => dy,
    }
}

/// How far a movement leads along an edge.
pub open spec fn along(edge: Edge, dx: int, dy: int) -> int {
    match edge {
        Edge::Right | Edge::Left => dy,
        Edge::Bottom | Edge::Top => dx,
    }
}

/// Whether a movement leads clearly back across an edge, as a pointer does that is warped to
/// its anchor.
pub open spec fn is_anchor_warp(edge: Edge, dx: int, dy: int, rule: CrossingRule) -> bool {
    let back = back_across(edge, dx, dy);
    &&& back * RULE_PARTS >= rule.min_delta
    &&& abs(back) * RULE_PARTS >= abs(along(edge, dx, dy)) * rule.axis_dominance
}

/// The nearest 32-bit number.
pub open spec fn to_i32(value: int) -> i32 {
    clamp(value, i32::MIN as int, i32::MAX as int) as i32
}

/// A target kept on its screen.
pub open spec fn kept_on_screen(remote: ActiveTarget) -> ActiveTarget {
    ActiveTarget {
        at: Point {
            x: clamp(remote.at.x as int, 0, subpixels(remote.current_screen.width - 1)) as i128,
            y: clamp(remote.at.y as int, 0, subpixels(remote.current_screen.height - 1)) as i128,
        },
        ..remote
    }
}

/// The effects that let go of keys on a remote machine, in order.
pub open spec fn key_releases(target: InputTarget, keys: Seq<u16>) -> Seq<Effect> {
    keys.map_values(|key_code: u16| Effect::SendKey { target, key_code, down: false })
}

/// The step on a movement of the mouse.
///
/// While a remote machine is controlled its pointer moves, but for a warp just after the
/// crossing. Otherwise the local pointer moves.
pub open spec fn on_mouse_move(
    context: ContextView,
    layout: LayoutState,
    rule: CrossingRule,
    dx: i64,
    dy: i64,
) -> (ContextView, ReactionView) {
    if dx == 0 && dy == 0 {
        (context, nothing())
    } else if let Some(remote) = context.active {
        let seen = ContextView { just_crossed: false, ..context };
        if context.just_crossed && is_anchor_warp(remote.target.edge, dx as int, dy as int, rule) {
            (seen, nothing())
        } else {
            let remote = ActiveTarget { at: moved_point(remote.at, dx, dy), ..remote };
            (
                ContextView { active: Some(remote), ..seen },
                ask(Request::UpdateScreen { remote, dx, dy }),
            )
        }
    } else {
        let cursor = clamped_cursor(layout, moved_point(context.cursor, dx, dy));
        (ContextView { cursor, ..context }, ask(Request::FindCrossing { cursor, dx, dy }))
    }
}

/// The step once the remote screens have been consulted.
pub open spec fn on_screen_updated(
    context: ContextView,
    remote: ActiveTarget,
    update: ScreenUpdate,
) -> (ContextView, ReactionView) {
    match update {
        ScreenUpdate::Returned { cursor } => (
            ContextView {
                active: None,
                cursor,
                pressed_keys: Seq::empty(),
                buttons: HeldButtons::none(),
                ..context
            },
            perform(
                seq![
                    Effect::SendCursorPark { remote },
                    Effect::SetRemoteActive { active: false },
                ] + key_releases(remote.target, context.pressed_keys) + seq![
                    Effect::ReleaseRemoteButtons { target: remote.target },
                    Effect::ResetMoveTimer,
                ],
            ),
        ),
        ScreenUpdate::Remote => (
            ContextView { active: Some(kept_on_screen(remote)), ..context },
            ask(
                Request::CheckMoveDue {
                    remote: kept_on_screen(remote),
                    dragging: context.buttons.any(),
                },
            ),
        ),
    }
}

/// The step once it is known whether the position may be sent.
pub open spec fn on_move_checked(remote: ActiveTarget, due: bool) -> ReactionView {
    if due {
        ask(Request::SendMove { remote })
    } else {
        nothing()
    }
}

/// The step once the position was sent, or could not be.
pub open spec fn on_move_sent(context: ContextView, sent: bool) -> (ContextView, ReactionView) {
    if sent {
        (context, nothing())
    } else {
        (
            ContextView {
                active: None,
                pressed_keys: Seq::empty(),
                buttons: HeldButtons::none(),
                ..context
            },
            perform(
                seq![
                    Effect::SetRemoteActive { active: false },
                    Effect::ClearClipboardTarget,
                    Effect::ResetMoveTimer,
                    Effect::ResetButtonMask,
                ],
            ),
        )
    }
}

/// The step once it is known whether the local pointer crosses.
pub open spec fn on_crossing_checked(crossing: Option<Crossing>, dx: i64, dy: i64) -> ReactionView {
    match crossing {
        Some(crossing) => ask(
            Request::SendEntryMove { remote: crossing.remote, anchor: crossing.anchor, dx, dy },
        ),
        None => perform(seq![Effect::EmitRelative { dx: to_i32(dx as int), dy: to_i32(dy as int) }]),
    }
}

/// The step once the first position on a remote machine was sent, or could not be.
///
/// A machine that cannot be reached is not crossed to, so the movement is left to this machine.
pub open spec fn on_entry_sent(
    context: ContextView,
    remote: ActiveTarget,
    anchor: Point,
    dx: i64,
    dy: i64,
    sent: bool,
) -> (ContextView, ReactionView) {
    if sent {
        (
            ContextView {
                active: Some(remote),
                just_crossed: true,
                cursor: anchor,
                buttons: HeldButtons::none(),
                ..context
            },
            perform(
                seq![
                    Effect::MarkMoveSent,
                    Effect::ResetButtonMask,
                    Effect::SetRemoteActive { active: true },
                    Effect::SetClipboardTarget { remote },
                ],
            ),
        )
    } else {
        (
            ContextView { buttons: HeldButtons::none(), ..context },
            perform(
                seq![
                    Effect::ResetMoveTimer,
                    Effect::ResetButtonMask,
                    Effect::EmitRelative { dx: to_i32(dx as int), dy: to_i32(dy as int) },
                ],
            ),
        )
    }
}

/// The step on a mouse button.
pub open spec fn on_mouse_button(
    context: ContextView,
    button: MouseButton,
    down: bool,
) -> ReactionView {
    match context.active {
        Some(remote) => ask(Request::SendButtonMove { remote, button, down }),
        None => perform(seq![Effect::EmitButton { button, down }]),
    }
}

/// The step once the position of a button was sent, or could not be.
pub open spec fn on_button_move_sent(
    remote: ActiveTarget,
    button: MouseButton,
    down: bool,
    sent: bool,
) -> ReactionView {
    if sent {
        ReactionView {
            effects: seq![Effect::MarkMoveSent],
            request: Some(Request::SendButton { target: remote.target, button, down }),
        }
    } else {
        nothing()
    }
}

/// The step once a button was sent, or could not be.
pub open spec fn on_button_sent(
    context: ContextView,
    button: MouseButton,
    down: bool,
    sent: bool,
) -> (ContextView, ReactionView) {
    if sent {
        (
            ContextView { buttons: context.buttons.after(button, down), ..context },
            perform(seq![Effect::UpdateButtonMask { button, down }]),
        )
    } else {
        (context, nothing())
    }
}

/// The step on a wheel movement.
pub open spec fn on_scroll(context: ContextView, delta_x: i32, delta_y: i32) -> ReactionView {
    match context.active {
        Some(remote) => ask(Request::SendScrollMove { remote, delta_x, delta_y }),
        None => perform(seq![Effect::EmitScroll { delta_x, delta_y }]),
    }
}

/// The step once the position of a wheel movement was sent, or could not be.
pub open spec fn on_scroll_move_sent(
    remote: ActiveTarget,
    delta_x: i32,
    delta_y: i32,
    sent: bool,
) -> ReactionView {
    if sent {
        perform(
            seq![
                Effect::MarkMoveSent,
                Effect::SendScroll { target: remote.target, delta_x, delta_y },
            ],
        )
    } else {
        nothing()
    }
}

/// The step on a key.
pub open spec fn on_key(context: ContextView, key_code: u16, down: bool) -> ReactionView {
    match context.active {
        Some(remote) => ask(Request::SendKey { target: remote.target, key_code, down }),
        None => perform(seq![Effect::EmitKeyCode { key_code, down }]),
    }
}

/// The step once a key was sent, or could not be.
pub open spec fn on_key_sent(key_code: u16, down: bool, sent: bool) -> ReactionView {
    if sent {
        ask(Request::TrackKey { key_code, down })
    } else {
        nothing()
    }
}

/// The step once the keys that are held on the remote machine are known.
pub open spec fn on_keys_tracked(
    context: ContextView,
    pressed_keys: Seq<u16>,
) -> (ContextView, ReactionView) {
    (ContextView { pressed_keys, ..context }, nothing())
}

/// The step when the capture stops.
pub open spec fn on_stop(context: ContextView) -> (ContextView, ReactionView) {
    (
        ContextView {
            active: None,
            just_crossed: false,
            pressed_keys: Seq::empty(),
            buttons: HeldButtons::none(),
            ..context
        },
        perform(
            (match context.active {
                Some(remote) => key_releases(remote.target, context.pressed_keys).push(
                    Effect::ReleaseRemoteButtons { target: remote.target },
                ),
                None => seq![Effect::ResetButtonMask],
            }) + seq![
                Effect::SetRemoteActive { active: false },
                Effect::ResetMoveTimer,
                Effect::ClearClipboardTarget,
            ],
        ),
    )
}

/// Effects of one.
fn one(effect: Effect) -> (effects: Vec<Effect>)
    ensures
        effects@ == seq![effect],
{
    let mut effects: Vec<Effect> = Vec::new();
    effects.push(effect);
    effects
}

impl Reaction {
    /// Nothing is to be done.
    fn nothing() -> (reaction: Self)
        ensures
            reaction@ == nothing(),
    {
        Reaction { effects: Vec::new(), request: None }
    }

    /// Only effects are to be carried out.
    fn perform(effects: Vec<Effect>) -> (reaction: Self)
        ensures
            reaction@ == perform(effects@),
    {
        Reaction { effects, request: None }
    }

    /// Only a request is to be carried out.
    fn ask(request: Request) -> (reaction: Self)
        ensures
            reaction@ == ask(request),
    {
        Reaction { effects: Vec::new(), request: Some(request) }
    }
}

impl CaptureContext {
    /// Nothing is controlled yet, and the local pointer is at the given position.
    pub fn new(cursor: Point) -> (context: Self)
        ensures
            context@ == (ContextView {
                active: None,
                just_crossed: false,
                cursor,
                pressed_keys: Seq::empty(),
                buttons: HeldButtons::none(),
            }),
    {
        CaptureContext {
            active: None,
            just_crossed: false,
            cursor,
            pressed_keys: Vec::new(),
            buttons: HeldButtons::new(),
        }
    }
}

/// Tells a movement that is no movement of the user's: just after the pointer has crossed an
/// edge, one that leads clearly back across it comes from warping the pointer to its anchor.
pub fn should_ignore_initial_anchor_warp_delta(
    edge: Edge,
    dx: i64,
    dy: i64,
    rule: CrossingRule,
) -> (ignore: bool)
    ensures
        ignore == is_anchor_warp(edge, dx as int, dy as int, rule),
{
    let (back, along): (i128, i128) = match edge {
        Edge::Right => (-(dx as i128), dy as i128),
        Edge::Left => (dx as i128, dy as i128),
        Edge::Bottom => (-(dy as i128), dx as i128),
        Edge::Top => (dy as i128, dx as i128),
    };
    assert(RULE_PARTS as i128 == 1_000_000_000);
    let unit: i128 = RULE_PARTS as i128;
    let across: i128 = if back < 0 {
        -back
    } else {
        back
    };
    let sideways: i128 = if along < 0 {
        -along
    } else {
        along
    };
    let dominance: i128 = rule.axis_dominance as i128;
    assert(-0x4000_0000_0000_0000_0000_0000_0000_0000 <= sideways * dominance
        <= 0x4000_0000_0000_0000_0000_0000_0000_0000) by (nonlinear_arith)
        requires
            0 <= sideways <= 0x8000_0000_0000_0000,
            -0x8000_0000_0000_0000 <= dominance <= 0x8000_0000_0000_0000,
    ;
    back * unit >= rule.min_delta as i128 && across * unit >= sideways * dominance
}

/// The nearest 32-bit number.
fn saturate(value: i64) -> (nearest: i32)
    ensures
        nearest == to_i32(value as int),
{
    if value < i32::MIN as i64 {
        i32::MIN
    } else if value > i32::MAX as i64 {
        i32::MAX
    } else {
        value as i32
    }
}

/// Keeps a coordinate on the pixels of a screen, of which there is at least one.
fn keep_coordinate(value: i128, pixels: i32) -> (kept: i128)
    requires
        pixels >= 1,
    ensures
        kept == clamp(value as int, 0, subpixels(pixels - 1)),
{
    let last: i128 = (pixels as i128 - 1) * SUBPIXELS;
    if value < 0 {
        0
    } else if value > last {
        last
    } else {
        value
    }
}

/// Whether a movement can be handled: where it moves the local pointer, there must be a place
/// on the screens for it.
pub open spec fn can_move(context: ContextView, layout: LayoutState, dx: i64, dy: i64) -> bool {
    context.active is None && (dx != 0 || dy != 0) ==> can_clamp(
        layout,
        moved_point(context.cursor, dx, dy),
    )
}

/// Finds out whether a movement can be handled, as [`handle_mouse_move`] requires.
pub fn mouse_move_can_be_handled(
    context: &CaptureContext,
    native_layout: &LayoutState,
    dx: i64,
    dy: i64,
) -> (possible: bool)
    ensures
        possible == can_move(context@, *native_layout, dx, dy),
{
    if context.active.is_none() && (dx != 0 || dy != 0) {
        cursor_can_be_clamped(native_layout, move_point(context.cursor, dx, dy))
    } else {
        true
    }
}

/// Handles a movement of the mouse by a number of pixels.
pub fn handle_mouse_move(
    context: &mut CaptureContext,
    native_layout: &LayoutState,
    rule: CrossingRule,
    dx: i64,
    dy: i64,
) -> (reaction: Reaction)
    requires
        can_move(old(context)@, *native_layout, dx, dy),
    ensures
        (final(context)@, reaction@) == on_mouse_move(
            old(context)@,
            *native_layout,
            rule,
            dx,
            dy,
        ),
{
    if dx == 0 && dy == 0 {
        return Reaction::nothing();
    }
    if let Some(active) = context.active {
        let just_crossed = context.just_crossed;
        context.just_crossed = false;
        if just_crossed && should_ignore_initial_anchor_warp_delta(
            active.target.edge,
            dx,
            dy,
            rule,
        ) {
            return Reaction::nothing();
        }
        let remote = ActiveTarget { at: move_point(active.at, dx, dy), ..active };
        context.active = Some(remote);
        return Reaction::ask(Request::UpdateScreen { remote, dx, dy });
    }
    let cursor = clamp_cursor(native_layout, move_point(context.cursor, dx, dy));
    context.cursor = cursor;
    Reaction::ask(Request::FindCrossing { cursor, dx, dy })
}

/// Adds the effects that let go of every key that is held on a remote machine, and forgets
/// those keys.
fn release_forwarded_keys_linux(
    pressed_keys: &mut Vec<u16>,
    target: InputTarget,
    effects: &mut Vec<Effect>,
)
    ensures
        final(effects)@ == old(effects)@ + key_releases(target, old(pressed_keys)@),
        final(pressed_keys)@ == Seq::<u16>::empty(),
{
    let ghost before = effects@;
    let ghost keys = pressed_keys@;
    let mut i: usize = 0;
    while i < pressed_keys.len()
        invariant
            i <= pressed_keys@.len(),
            pressed_keys@ == keys,
            effects@ == before + key_releases(target, keys.take(i as int)),
        decreases pressed_keys@.len() - i,
    {
        effects.push(Effect::SendKey { target, key_code: pressed_keys[i], down: false });
        assert(key_releases(target, keys.take(i + 1)) == key_releases(
            target,
            keys.take(i as int),
        ).push(effects@.last()));
        i = i + 1;
    }
    assert(keys.take(i as int) == keys);
    *pressed_keys = Vec::new();
}

/// Goes on from [`Request::UpdateScreen`], given the target as it is now.
pub fn screen_updated(
    context: &mut CaptureContext,
    remote: ActiveTarget,
    update: ScreenUpdate,
) -> (reaction: Reaction)
    requires
        update is Remote ==> remote.current_screen.width >= 1 && remote.current_screen.height >= 1,
    ensures
        (final(context)@, reaction@) == on_screen_updated(old(context)@, remote, update),
{
    match update {
        ScreenUpdate::Returned { cursor } => {
            let mut effects: Vec<Effect> = Vec::new();
            effects.push(Effect::SendCursorPark { remote });
            effects.push(Effect::SetRemoteActive { active: false });
            context.active = None;
            release_forwarded_keys_linux(&mut context.pressed_keys, remote.target, &mut effects);
            effects.push(Effect::ReleaseRemoteButtons { target: remote.target });
            context.buttons = HeldButtons::new();
            effects.push(Effect::ResetMoveTimer);
            context.cursor = cursor;
            assert(effects@ == on_screen_updated(old(context)@, remote, update).1.effects);
            Reaction::perform(effects)
        },
        ScreenUpdate::Remote => {
            let kept = ActiveTarget {
                at: Point {
                    x: keep_coordinate(remote.at.x, remote.current_screen.width),
                    y: keep_coordinate(remote.at.y, remote.current_screen.height),
                },
                ..remote
            };
            context.active = Some(kept);
            Reaction::ask(
                Request::CheckMoveDue { remote: kept, dragging: context.buttons.is_any_held() },
            )
        },
    }
}

/// Goes on from [`Request::CheckMoveDue`].
pub fn move_checked(remote: ActiveTarget, due: bool) -> (reaction: Reaction)
    ensures
        reaction@ == on_move_checked(remote, due),
{
    if due {
        Reaction::ask(Request::SendMove { remote })
    } else {
        Reaction::nothing()
    }
}

/// Goes on from [`Request::SendMove`]: a machine that cannot be reached is given up.
pub fn move_sent(context: &mut CaptureContext, sent: bool) -> (reaction: Reaction)
    ensures
        (final(context)@, reaction@) == on_move_sent(old(context)@, sent),
{
    if sent {
        return Reaction::nothing();
    }
    context.active = None;
    context.pressed_keys = Vec::new();
    context.buttons = HeldButtons::new();
    let mut effects: Vec<Effect> = Vec::new();
    effects.push(Effect::SetRemoteActive { active: false });
    effects.push(Effect::ClearClipboardTarget);
    effects.push(Effect::ResetMoveTimer);
    effects.push(Effect::ResetButtonMask);
    assert(effects@ == on_move_sent(old(context)@, sent).1.effects);
    Reaction::perform(effects)
}

/// Goes on from [`Request::FindCrossing`]: a movement that does not cross is left to this
/// machine.
pub fn crossing_checked(crossing: Option<Crossing>, dx: i64, dy: i64) -> (reaction: Reaction)
    ensures
        reaction@ == on_crossing_checked(crossing, dx, dy),
{
    match crossing {
        Some(crossing) => Reaction::ask(
            Request::SendEntryMove { remote: crossing.remote, anchor: crossing.anchor, dx, dy },
        ),
        None => Reaction::perform(
            one(Effect::EmitRelative { dx: saturate(dx), dy: saturate(dy) }),
        ),
    }
}

/// Goes on from [`Request::SendEntryMove`]: the machine is controlled once it was reached, and
/// until then the movement is left to this machine.
pub fn entry_sent(
    context: &mut CaptureContext,
    remote: ActiveTarget,
    anchor: Point,
    dx: i64,
    dy: i64,
    sent: bool,
) -> (reaction: Reaction)
    ensures
        (final(context)@, reaction@) == on_entry_sent(
            old(context)@,
            remote,
            anchor,
            dx,
            dy,
            sent,
        ),
{
    let mut effects: Vec<Effect> = Vec::new();
    context.buttons = HeldButtons::new();
    if sent {
        effects.push(Effect::MarkMoveSent);
        effects.push(Effect::ResetButtonMask);
        effects.push(Effect::SetRemoteActive { active: true });
        effects.push(Effect::SetClipboardTarget { remote });
        context.cursor = anchor;
        context.active = Some(remote);
        context.just_crossed = true;
    } else {
        effects.push(Effect::ResetMoveTimer);
        effects.push(Effect::ResetButtonMask);
        effects.push(Effect::EmitRelative { dx: saturate(dx), dy: saturate(dy) });
    }
    assert(effects@ == on_entry_sent(old(context)@, remote, anchor, dx, dy, sent).1.effects);
    Reaction::perform(effects)
}

/// Handles a mouse button that goes down or up.
pub fn handle_mouse_button(
    context: &CaptureContext,
    button: MouseButton,
    down: bool,
) -> (reaction: Reaction)
    ensures
        reaction@ == on_mouse_button(context@, button, down),
{
    match context.active {
        Some(remote) => Reaction::ask(Request::SendButtonMove { remote, button, down }),
        None => Reaction::perform(one(Effect::EmitButton { button, down })),
    }
}

/// Goes on from [`Request::SendButtonMove`].
pub fn button_move_sent(
    remote: ActiveTarget,
    button: MouseButton,
    down: bool,
    sent: bool,
) -> (reaction: Reaction)
    ensures
        reaction@ == on_button_move_sent(remote, button, down, sent),
{
    if sent {
        Reaction {
            effects: one(Effect::MarkMoveSent),
            request: Some(Request::SendButton { target: remote.target, button, down }),
        }
    } else {
        Reaction::nothing()
    }
}

/// Goes on from [`Request::SendButton`].
pub fn button_sent(
    context: &mut CaptureContext,
    button: MouseButton,
    down: bool,
    sent: bool,
) -> (reaction: Reaction)
    ensures
        (final(context)@, reaction@) == on_button_sent(old(context)@, button, down, sent),
{
    if sent {
        context.buttons.note(button, down);
        Reaction::perform(one(Effect::UpdateButtonMask { button, down }))
    } else {
        Reaction::nothing()
    }
}

/// Handles a wheel movement, given as travel on the wire.
pub fn handle_scroll(context: &CaptureContext, delta_x: i32, delta_y: i32) -> (reaction: Reaction)
    ensures
        reaction@ == on_scroll(context@, delta_x, delta_y),
{
    match context.active {
        Some(remote) => Reaction::ask(Request::SendScrollMove { remote, delta_x, delta_y }),
        None => Reaction::perform(one(Effect::EmitScroll { delta_x, delta_y })),
    }
}

/// Goes on from [`Request::SendScrollMove`].
pub fn scroll_move_sent(
    remote: ActiveTarget,
    delta_x: i32,
    delta_y: i32,
    sent: bool,
) -> (reaction: Reaction)
    ensures
        reaction@ == on_scroll_move_sent(remote, delta_x, delta_y, sent),
{
    if sent {
        let mut effects: Vec<Effect> = one(Effect::MarkMoveSent);
        effects.push(Effect::SendScroll { target: remote.target, delta_x, delta_y });
        assert(effects@ == on_scroll_move_sent(remote, delta_x, delta_y, sent).effects);
        Reaction::perform(effects)
    } else {
        Reaction::nothing()
    }
}

/// Handles a key, given by its virtual-key code, that goes down or up.
pub fn handle_key(context: &CaptureContext, key_code: u16, down: bool) -> (reaction: Reaction)
    ensures
        reaction@ == on_key(context@, key_code, down),
{
    match context.active {
        Some(remote) => Reaction::ask(
            Request::SendKey { target: remote.target, key_code, down },
        ),
        None => Reaction::perform(one(Effect::EmitKeyCode { key_code, down })),
    }
}

/// Goes on from [`Request::SendKey`].
pub fn key_sent(key_code: u16, down: bool, sent: bool) -> (reaction: Reaction)
    ensures
        reaction@ == on_key_sent(key_code, down, sent),
{
    if sent {
        Reaction::ask(Request::TrackKey { key_code, down })
    } else {
        Reaction::nothing()
    }
}

/// Goes on from [`Request::TrackKey`], given the keys that are held on the remote machine now.
pub fn keys_tracked(context: &mut CaptureContext, pressed_keys: Vec<u16>) -> (reaction: Reaction)
    ensures
        final(context)@ == (ContextView { pressed_keys: pressed_keys@, ..old(context)@ }),
        reaction@ == nothing(),
        (final(context)@, reaction@) == on_keys_tracked(old(context)@, pressed_keys@),
{
    context.pressed_keys = pressed_keys;
    Reaction::nothing()
}

/// Gives the remote machine back, for good: everything that is held on it is let go of.
pub fn release_linux_remote_control(context: &mut CaptureContext) -> (reaction: Reaction)
    ensures
        (final(context)@, reaction@) == on_stop(old(context)@),
{
    let mut effects: Vec<Effect> = Vec::new();
    if let Some(active) = context.active {
        context.active = None;
        release_forwarded_keys_linux(&mut context.pressed_keys, active.target, &mut effects);
        effects.push(Effect::ReleaseRemoteButtons { target: active.target });
    } else {
        effects.push(Effect::ResetButtonMask);
        context.pressed_keys = Vec::new();
    }
    context.buttons = HeldButtons::new();
    effects.push(Effect::SetRemoteActive { active: false });
    context.just_crossed = false;
    effects.push(Effect::ResetMoveTimer);
    effects.push(Effect::ClearClipboardTarget);
    assert(effects@ == on_stop(old(context)@).1.effects);
    Reaction::perform(effects)
}

/// No movement is nothing to act on.
pub proof fn law_no_movement_is_nothing(
    context: ContextView,
    layout: LayoutState,
    rule: CrossingRule,
)
    ensures
        ({
            let (after, reaction) = on_mouse_move(context, layout, rule, 0, 0);
            &&& after == context
            &&& reaction.effects.len() == 0
            &&& reaction.request is None
        }),
{
}

/// A movement counts as a warp just where it leads back across the edge by the least movement, and
/// far enough for the way along the edge.
pub proof fn law_warps_lead_back_across_the_edge(edge: Edge, dx: i64, dy: i64, rule: CrossingRule)
    ensures
        ({
            let wide = distance(dx as int, 0);
            let high = distance(dy as int, 0);
            is_anchor_warp(edge, dx as int, dy as int, rule) <==> match edge {
                Edge::Right => dx * RULE_PARTS <= -rule.min_delta && wide * RULE_PARTS >= high
                    * rule.axis_dominance,
                Edge::Left => dx * RULE_PARTS >= rule.min_delta && wide * RULE_PARTS >= high
                    * rule.axis_dominance,
                Edge::Bottom => dy * RULE_PARTS <= -rule.min_delta && high * RULE_PARTS >= wide
                    * rule.axis_dominance,
                Edge::Top => dy * RULE_PARTS >= rule.min_delta && high * RULE_PARTS >= wide
                    * rule.axis_dominance,
            }
        }),
{
    assert(abs(dx as int) == distance(dx as int, 0) && abs(-dx) == distance(dx as int, 0));
    assert(abs(dy as int) == distance(dy as int, 0) && abs(-dy) == distance(dy as int, 0));
}

/// Just after a crossing, a warp back is swallowed: the remote pointer stays where it is, nothing
/// is done, and the next movement counts.
pub proof fn law_first_warp_is_swallowed(
    context: ContextView,
    layout: LayoutState,
    rule: CrossingRule,
    remote: ActiveTarget,
    dx: i64,
    dy: i64,
)
    requires
        context.active == Some(remote),
        context.just_crossed,
        dx != 0 || dy != 0,
        is_anchor_warp(remote.target.edge, dx as int, dy as int, rule),
    ensures
        ({
            let (after, reaction) = on_mouse_move(context, layout, rule, dx, dy);
            &&& after.active == context.active
            &&& !after.just_crossed
            &&& after.cursor == context.cursor
            &&& after.pressed_keys == context.pressed_keys
            &&& after.buttons == context.buttons
            &&& reaction.effects.len() == 0
            &&& reaction.request is None
        }),
{
}

/// While a remote machine is controlled, every movement but a warp moves its pointer by just that
/// movement, and the remote screens are consulted about it. Nothing else changes.
pub proof fn law_remote_pointer_follows_the_mouse(
    context: ContextView,
    layout: LayoutState,
    rule: CrossingRule,
    remote: ActiveTarget,
    dx: i64,
    dy: i64,
)
    requires
        context.active == Some(remote),
        dx != 0 || dy != 0,
        !context.just_crossed || !is_anchor_warp(remote.target.edge, dx as int, dy as int, rule),
    ensures
        ({
            let (after, reaction) = on_mouse_move(context, layout, rule, dx, dy);
            let moved = after.active->0;
            &&& after.active is Some
            &&& moved.target == remote.target
            &&& moved.current_screen == remote.current_screen
            &&& is_moved_by(remote.at.x, moved.at.x, dx)
            &&& is_moved_by(remote.at.y, moved.at.y, dy)
            &&& !after.just_crossed
            &&& after.cursor == context.cursor
            &&& after.pressed_keys == context.pressed_keys
            &&& after.buttons == context.buttons
            &&& reaction.effects.len() == 0
            &&& reaction.request == Some(Request::UpdateScreen { remote: moved, dx, dy })
        }),
{
}

/// While no remote machine is controlled, every movement moves the local pointer by just that
/// movement, as far as the screens allow, and it is found out whether the pointer crosses. Nothing
/// else changes.
pub proof fn law_local_pointer_follows_the_mouse(
    context: ContextView,
    layout: LayoutState,
    rule: CrossingRule,
    to: Point,
    dx: i64,
    dy: i64,
)
    requires
        context.active is None,
        dx != 0 || dy != 0,
        is_moved_by(context.cursor.x, to.x, dx),
        is_moved_by(context.cursor.y, to.y, dy),
    ensures
        ({
            let (after, reaction) = on_mouse_move(context, layout, rule, dx, dy);
            &&& after.cursor == clamped_cursor(layout, to)
            &&& after.active is None
            &&& after.just_crossed == context.just_crossed
            &&& after.pressed_keys == context.pressed_keys
            &&& after.buttons == context.buttons
            &&& reaction.effects.len() == 0
            &&& reaction.request == Some(Request::FindCrossing { cursor: after.cursor, dx, dy })
        }),
{
}

/// Only a movement of the local pointer can be impossible, and only where the screens cannot bound
/// the pointer.
pub proof fn law_only_unbounded_movements_are_impossible(
    context: ContextView,
    layout: LayoutState,
    to: Point,
    dx: i64,
    dy: i64,
)
    requires
        is_moved_by(context.cursor.x, to.x, dx),
        is_moved_by(context.cursor.y, to.y, dy),
    ensures
        context.active is Some ==> can_move(context, layout, dx, dy),
        can_move(context, layout, 0, 0),
        context.active is None && (dx != 0 || dy != 0) ==> (can_move(context, layout, dx, dy)
            <==> can_clamp(layout, to)),
{
}

/// Whether a coordinate is the nearest to another one on a screen of a number of pixels, which
/// reaches from the first pixel to the last.
pub open spec fn is_nearest_on_screen(kept: int, from: int, pixels: int) -> bool {
    let last = (pixels - 1) * SUBPIXELS;
    &&& 0 <= kept <= last
    &&& forall|place: int|
        0 <= place <= last ==> distance(kept, from) <= #[trigger] distance(place, from)
    &&& 0 <= from <= last ==> kept == from
}

/// A remote pointer that stays on its machine is left where it is on its screen. From off the
/// screen it goes to the nearest place on it. That is the position that may be sent, and it counts
/// as dragged just where a button is held. Nothing else changes.
pub proof fn law_remote_pointer_goes_to_the_nearest_place(
    context: ContextView,
    remote: ActiveTarget,
)
    requires
        remote.current_screen.width >= 1,
        remote.current_screen.height >= 1,
    ensures
        ({
            let (after, reaction) = on_screen_updated(context, remote, ScreenUpdate::Remote);
            let kept = after.active->0;
            let buttons = context.buttons;
            &&& after.active is Some
            &&& kept.target == remote.target
            &&& kept.current_screen == remote.current_screen
            &&& is_nearest_on_screen(
                kept.at.x as int,
                remote.at.x as int,
                remote.current_screen.width as int,
            )
            &&& is_nearest_on_screen(
                kept.at.y as int,
                remote.at.y as int,
                remote.current_screen.height as int,
            )
            &&& after.just_crossed == context.just_crossed
            &&& after.cursor == context.cursor
            &&& after.pressed_keys == context.pressed_keys
            &&& after.buttons == context.buttons
            &&& reaction.effects.len() == 0
            &&& reaction.request == Some(
                Request::CheckMoveDue {
                    remote: kept,
                    dragging: buttons.left || buttons.right || buttons.middle,
                },
            )
        }),
{
}

/// When the pointer comes back, it goes on where it came back to, and no machine is controlled any
/// more. The remote pointer is parked first. The application is told, each held key goes up in
/// turn, the buttons are let go of, and positions may be sent at once after the next crossing.
pub proof fn law_coming_back_ends_control(context: ContextView, remote: ActiveTarget, to: Point)
    ensures
        ({
            let (after, reaction) = on_screen_updated(
                context,
                remote,
                ScreenUpdate::Returned { cursor: to },
            );
            let effects = reaction.effects;
            let keys = context.pressed_keys;
            &&& after.active is None
            &&& after.cursor == to
            &&& after.just_crossed == context.just_crossed
            &&& after.pressed_keys.len() == 0
            &&& !after.buttons.left && !after.buttons.right && !after.buttons.middle
            &&& reaction.request is None
            &&& effects.len() == keys.len() + 4
            &&& effects[0] == (Effect::SendCursorPark { remote })
            &&& effects[1] == (Effect::SetRemoteActive { active: false })
            &&& forall|i: int|
                2 <= i < keys.len() + 2 ==> #[trigger] effects[i] == (Effect::SendKey {
                    target: remote.target,
                    key_code: keys[i - 2],
                    down: false,
                })
            &&& effects[keys.len() + 2int] == (Effect::ReleaseRemoteButtons { target: remote.target })
            &&& effects[keys.len() + 3int] == Effect::ResetMoveTimer
        }),
{
}

/// A position is sent just where it may be, and it is the one that was asked about.
pub proof fn law_due_positions_are_sent(remote: ActiveTarget, due: bool)
    ensures
        on_move_checked(remote, due).effects.len() == 0,
        due ==> on_move_checked(remote, due).request == Some(Request::SendMove { remote }),
        !due ==> on_move_checked(remote, due).request is None,
{
}

/// A position that was sent changes nothing. One that could not be ends control: the machine is
/// given up without a word to it, and all that was noted of it is forgotten.
pub proof fn law_unreachable_machine_is_given_up(context: ContextView, sent: bool)
    ensures
        ({
            let (after, reaction) = on_move_sent(context, sent);
            &&& reaction.request is None
            &&& after.cursor == context.cursor
            &&& after.just_crossed == context.just_crossed
            &&& sent ==> after == context && reaction.effects.len() == 0
            &&& !sent ==> {
                &&& after.active is None
                &&& after.pressed_keys.len() == 0
                &&& !after.buttons.left && !after.buttons.right && !after.buttons.middle
                &&& reaction.effects.len() == 4
                &&& reaction.effects.contains(Effect::SetRemoteActive { active: false })
                &&& reaction.effects.contains(Effect::ClearClipboardTarget)
                &&& reaction.effects.contains(Effect::ResetMoveTimer)
                &&& reaction.effects.contains(Effect::ResetButtonMask)
            }
        }),
{
    if !sent {
        let effects = on_move_sent(context, sent).1.effects;
        assert(effects[0] == (Effect::SetRemoteActive { active: false }));
        assert(effects[1] == Effect::ClearClipboardTarget);
        assert(effects[2] == Effect::ResetMoveTimer);
        assert(effects[3] == Effect::ResetButtonMask);
    }
}

/// Whether a number is the nearest to another one that fits into 32 bits.
pub open spec fn is_nearest_i32(near: i32, value: int) -> bool {
    &&& value > i32::MAX ==> near == i32::MAX
    &&& value < i32::MIN ==> near == i32::MIN
    &&& i32::MIN <= value <= i32::MAX ==> near == value
}

/// Every crossing that is found is followed, over whatever edge and with whatever movement: the
/// machine is to be sent the first position, and nothing is done before that. A movement that does
/// not cross is left to this machine, as far as one event can tell it.
pub proof fn law_every_crossing_is_followed(crossing: Option<Crossing>, dx: i64, dy: i64)
    ensures
        ({
            let reaction = on_crossing_checked(crossing, dx, dy);
            match crossing {
                Some(Crossing { remote, anchor }) => {
                    &&& reaction.effects.len() == 0
                    &&& reaction.request == Some(Request::SendEntryMove { remote, anchor, dx, dy })
                },
                None => {
                    &&& reaction.request is None
                    &&& reaction.effects.len() == 1
                    &&& reaction.effects[0] matches Effect::EmitRelative { dx: right, dy: down }
                        && is_nearest_i32(right, dx as int) && is_nearest_i32(down, dy as int)
                },
            }
        }),
{
}

/// A machine that was reached is controlled from then on: the local pointer waits at its anchor,
/// no button is held, the application is told, and the clipboard is shared with that machine.
pub proof fn law_reached_machine_is_controlled(
    context: ContextView,
    remote: ActiveTarget,
    anchor: Point,
    dx: i64,
    dy: i64,
)
    ensures
        ({
            let (after, reaction) = on_entry_sent(context, remote, anchor, dx, dy, true);
            &&& after.active == Some(remote)
            &&& after.just_crossed
            &&& after.cursor == anchor
            &&& after.pressed_keys == context.pressed_keys
            &&& !after.buttons.left && !after.buttons.right && !after.buttons.middle
            &&& reaction.request is None
            &&& reaction.effects.len() == 4
            &&& reaction.effects.contains(Effect::MarkMoveSent)
            &&& reaction.effects.contains(Effect::ResetButtonMask)
            &&& reaction.effects.contains(Effect::SetRemoteActive { active: true })
            &&& reaction.effects.contains(Effect::SetClipboardTarget { remote })
        }),
{
    let effects = on_entry_sent(context, remote, anchor, dx, dy, true).1.effects;
    assert(effects[0] == Effect::MarkMoveSent);
    assert(effects[1] == Effect::ResetButtonMask);
    assert(effects[2] == (Effect::SetRemoteActive { active: true }));
    assert(effects[3] == (Effect::SetClipboardTarget { remote }));
}

/// A machine that was not reached is not controlled: everything stays as it is, and the movement
/// is left to this machine, as far as one event can tell it.
pub proof fn law_unreached_machine_is_not_controlled(
    context: ContextView,
    remote: ActiveTarget,
    anchor: Point,
    dx: i64,
    dy: i64,
)
    ensures
        ({
            let (after, reaction) = on_entry_sent(context, remote, anchor, dx, dy, false);
            &&& after.active == context.active
            &&& after.just_crossed == context.just_crossed
            &&& after.cursor == context.cursor
            &&& after.pressed_keys == context.pressed_keys
            &&& !after.buttons.left && !after.buttons.right && !after.buttons.middle
            &&& reaction.request is None
            &&& reaction.effects.len() == 3
            &&& reaction.effects.contains(Effect::ResetMoveTimer)
            &&& reaction.effects.contains(Effect::ResetButtonMask)
            &&& reaction.effects.last() matches Effect::EmitRelative { dx: right, dy: down }
                && is_nearest_i32(right, dx as int) && is_nearest_i32(down, dy as int)
        }),
{
    let effects = on_entry_sent(context, remote, anchor, dx, dy, false).1.effects;
    assert(effects[0] == Effect::ResetMoveTimer);
    assert(effects[1] == Effect::ResetButtonMask);
}

/// Wherever a crossing is found and the machine is reached, a movement of the local pointer ends
/// with that machine being controlled, whatever the movement and the edge.
pub proof fn law_crossing_takes_control(
    context: ContextView,
    layout: LayoutState,
    rule: CrossingRule,
    crossing: Crossing,
    dx: i64,
    dy: i64,
)
    requires
        context.active is None,
        dx != 0 || dy != 0,
    ensures
        ({
            let (moved, first) = on_mouse_move(context, layout, rule, dx, dy);
            &&& first.request matches Some(Request::FindCrossing { dx: right, dy: down, .. }) && {
                let second = on_crossing_checked(Some(crossing), right, down);
                second.request matches Some(
                    Request::SendEntryMove { remote, anchor, dx: far, dy: deep },
                ) && {
                    let (after, third) = on_entry_sent(moved, remote, anchor, far, deep, true);
                    &&& after.active == Some(crossing.remote)
                    &&& after.cursor == crossing.anchor
                    &&& third.request is None
                }
            }
        }),
{
}

/// A mouse button goes to the machine that is controlled, after the position that it is about, and
/// otherwise stays here. Either way it is that button, going the way it goes.
pub proof fn law_buttons_go_where_control_is(context: ContextView, button: MouseButton, down: bool)
    ensures
        ({
            let reaction = on_mouse_button(context, button, down);
            match context.active {
                Some(remote) => {
                    &&& reaction.effects.len() == 0
                    &&& reaction.request == Some(Request::SendButtonMove { remote, button, down })
                },
                None => {
                    &&& reaction.request is None
                    &&& reaction.effects.len() == 1
                    &&& reaction.effects[0] == (Effect::EmitButton { button, down })
                },
            }
        }),
{
}

/// Once the position of a button was sent, that button is to be sent to the same machine. Without
/// its position it is dropped.
pub proof fn law_buttons_follow_their_position(
    remote: ActiveTarget,
    button: MouseButton,
    down: bool,
    sent: bool,
)
    ensures
        ({
            let reaction = on_button_move_sent(remote, button, down, sent);
            &&& !sent ==> reaction.effects.len() == 0 && reaction.request is None
            &&& sent ==> reaction.effects.len() == 1 && reaction.effects[0] == Effect::MarkMoveSent
                && reaction.request == Some(
                Request::SendButton { target: remote.target, button, down },
            )
        }),
{
}

/// Whether a button is held.
pub open spec fn is_held(buttons: HeldButtons, button: MouseButton) -> bool {
    match button {
        MouseButton::Left => buttons.left,
        MouseButton::Right => buttons.right,
        MouseButton::Middle => buttons.middle,
    }
}

/// A button that was sent is held just where it went down, and the other buttons stay as they are.
/// One that could not be sent changes nothing.
pub proof fn law_sent_buttons_are_noted(
    context: ContextView,
    button: MouseButton,
    down: bool,
    sent: bool,
    other: MouseButton,
)
    ensures
        ({
            let (after, reaction) = on_button_sent(context, button, down, sent);
            &&& is_held(after.buttons, other) == (if sent && other == button {
                down
            } else {
                is_held(context.buttons, other)
            })
            &&& after.active == context.active
            &&& after.just_crossed == context.just_crossed
            &&& after.cursor == context.cursor
            &&& after.pressed_keys == context.pressed_keys
            &&& reaction.request is None
            &&& !sent ==> reaction.effects.len() == 0
            &&& sent ==> reaction.effects.len() == 1 && reaction.effects[0] == (
            Effect::UpdateButtonMask { button, down })
        }),
{
}

/// The wheels turn on the machine that is controlled, after the position that they are about, and
/// otherwise here. Either way they turn as far as they were turned.
pub proof fn law_wheels_go_where_control_is(context: ContextView, delta_x: i32, delta_y: i32)
    ensures
        ({
            let reaction = on_scroll(context, delta_x, delta_y);
            match context.active {
                Some(remote) => {
                    &&& reaction.effects.len() == 0
                    &&& reaction.request == Some(
                        Request::SendScrollMove { remote, delta_x, delta_y },
                    )
                },
                None => {
                    &&& reaction.request is None
                    &&& reaction.effects.len() == 1
                    &&& reaction.effects[0] == (Effect::EmitScroll { delta_x, delta_y })
                },
            }
        }),
{
}

/// Once the position of a wheel movement was sent, the movement is sent to the same machine.
/// Without its position it is dropped.
pub proof fn law_wheels_follow_their_position(
    remote: ActiveTarget,
    delta_x: i32,
    delta_y: i32,
    sent: bool,
)
    ensures
        ({
            let reaction = on_scroll_move_sent(remote, delta_x, delta_y, sent);
            &&& reaction.request is None
            &&& !sent ==> reaction.effects.len() == 0
            &&& sent ==> reaction.effects.len() == 2 && reaction.effects[0] == Effect::MarkMoveSent
                && reaction.effects[1] == (Effect::SendScroll {
                target: remote.target,
                delta_x,
                delta_y,
            })
        }),
{
}

/// A key goes to the machine that is controlled, and otherwise stays here. Either way it is that
/// key, going the way it goes.
pub proof fn law_keys_go_where_control_is(context: ContextView, key_code: u16, down: bool)
    ensures
        ({
            let reaction = on_key(context, key_code, down);
            match context.active {
                Some(remote) => {
                    &&& reaction.effects.len() == 0
                    &&& reaction.request matches Some(
                        Request::SendKey { target, key_code: sent, down: goes_down },
                    ) && target == remote.target && sent == key_code && goes_down == down
                },
                None => {
                    &&& reaction.request is None
                    &&& reaction.effects.len() == 1
                    &&& reaction.effects[0] == (Effect::EmitKeyCode { key_code, down })
                },
            }
        }),
{
}

/// The held keys are worked out anew for each key that was sent, and only for those.
pub proof fn law_sent_keys_are_tracked(key_code: u16, down: bool, sent: bool)
    ensures
        on_key_sent(key_code, down, sent).effects.len() == 0,
        sent ==> on_key_sent(key_code, down, sent).request == Some(
            Request::TrackKey { key_code, down },
        ),
        !sent ==> on_key_sent(key_code, down, sent).request is None,
{
}

/// The keys that are held are those that were worked out. Nothing else changes.
pub proof fn law_tracked_keys_are_held(context: ContextView, pressed_keys: Seq<u16>)
    ensures
        ({
            let (after, reaction) = on_keys_tracked(context, pressed_keys);
            &&& after.pressed_keys == pressed_keys
            &&& after.active == context.active
            &&& after.just_crossed == context.just_crossed
            &&& after.cursor == context.cursor
            &&& after.buttons == context.buttons
            &&& reaction.effects.len() == 0
            &&& reaction.request is None
        }),
{
}

/// A capture starts in control of no remote machine and with nothing held, at the given position.
pub proof fn law_capture_starts_local(cursor: Point, context: CaptureContext)
    requires
        call_ensures(CaptureContext::new, (cursor,), context),
    ensures
        context@.active is None,
        !context@.just_crossed,
        context@.cursor == cursor,
        context@.pressed_keys.len() == 0,
        forall|button: MouseButton| !#[trigger] is_held(context@.buttons, button),
{
}

/// When the capture stops, no machine is controlled and nothing is held any more. A machine that
/// was controlled is told first: each held key goes up in turn, and then the buttons do.
pub proof fn law_stopping_ends_control(context: ContextView)
    ensures
        ({
            let (after, reaction) = on_stop(context);
            let effects = reaction.effects;
            let n = effects.len();
            &&& after.active is None
            &&& !after.just_crossed
            &&& after.cursor == context.cursor
            &&& after.pressed_keys.len() == 0
            &&& !after.buttons.left && !after.buttons.right && !after.buttons.middle
            &&& reaction.request is None
            &&& n >= 4
            &&& effects[n - 3] == (Effect::SetRemoteActive { active: false })
            &&& effects[n - 2] == Effect::ResetMoveTimer
            &&& effects[n - 1] == Effect::ClearClipboardTarget
            &&& match context.active {
                Some(remote) => {
                    &&& n == context.pressed_keys.len() + 4
                    &&& effects[n - 4] == (Effect::ReleaseRemoteButtons { target: remote.target })
                    &&& forall|i: int|
                        0 <= i < context.pressed_keys.len() ==> #[trigger] effects[i] == (
                        Effect::SendKey {
                            target: remote.target,
                            key_code: context.pressed_keys[i],
                            down: false,
                        })
                },
                None => n == 4 && effects[0] == Effect::ResetButtonMask,
            }
        }),
{
}

/// What an effect on this machine writes is what the effect is about, on the device that can write
/// it; every other effect writes nothing.
pub proof fn law_local_effects_reach_their_device(effect: Effect)
    ensures
        match effect {
            Effect::EmitRelative { dx, dy } => effect.report() matches Some(report)
                && report.device is Mouse && travel(report.events, REL_X) == dx && travel(
                report.events,
                REL_Y,
            ) == dy && report == relative_report(dx, dy),
            Effect::EmitButton { button, down } => effect.report() matches Some(report)
                && report.device is Mouse && is_press(
                report.events,
                match button {
                    MouseButton::Left => BTN_LEFT,
                    MouseButton::Right => BTN_RIGHT,
                    MouseButton::Middle => BTN_MIDDLE,
                },
                down,
            ),
            Effect::EmitScroll { delta_x, delta_y } => effect.report() matches Some(report)
                && report.device is Mouse && is_notches_of(
                travel(report.events, REL_WHEEL),
                delta_y as int,
            ) && is_notches_of(travel(report.events, REL_HWHEEL), delta_x as int) && report
                == scroll_report(delta_x, delta_y),
            Effect::EmitKey { code, down } => effect.report() matches Some(report)
                && report.device is Keyboard && is_press(report.events, code, down),
            Effect::EmitKeyCode { key_code, down } => match evdev_key(key_code) {
                Some(code) => effect.report() matches Some(report) && report.device is Keyboard
                    && is_press(report.events, code, down),
                None => effect.report() is None,
            },
            _ => effect.report() is None,
        },
{
    match effect {
        Effect::EmitRelative { dx, dy } => {
            law_report_moves_by_its_deltas(dx, dy);
        },
        Effect::EmitScroll { delta_x, delta_y } => {
            law_wheels_turn_by_whole_notches(delta_x, delta_y);
        },
        _ => {},
    }
}

} // verus!

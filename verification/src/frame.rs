//! Frames: what the grabbed devices have to say between two looks at them.

use vstd::prelude::*;

use crate::capture::{handle_key, CaptureContext, Effect, Reaction};
#[allow(unused_imports)]
use crate::capture::{nothing, on_key, perform, ActiveTarget, ContextView, ReactionView, Request};
use crate::codes::{BTN_LEFT, BTN_MIDDLE, BTN_RIGHT, REL_HWHEEL, REL_WHEEL, REL_X, REL_Y};
#[allow(unused_imports)]
use crate::codes::{EV_KEY, EV_REL};
use crate::events::{destructure, EventSummary, InputEvent, MouseButton, SCROLL_WHEEL_UNIT};
#[allow(unused_imports)]
use crate::events::{is_press, law_presses_go_to_their_device, summary, travel};
use crate::keymap::evdev_key_to_windows_vk;
#[allow(unused_imports)]
use crate::keymap::{is_one_way_key, law_key_round_trip, windows_vk};
#[allow(unused_imports)]
use crate::layout::clamp;

verus! {

/// What a frame has gathered so far.
#[derive(Clone, Copy, Debug, PartialEq, Eq)]
pub struct PendingInput {
    /// The movement of the pointer, in pixels.
    pub dx: i64,
    pub dy: i64,
    /// The button that changed last, and whether it went down.
    pub button: Option<(MouseButton, bool)>,
    /// The travel of the wheels on the wire.
    pub scroll_x: i32,
    pub scroll_y: i32,
}

/// Something that the user did in a frame.
#[derive(Clone, Copy, Debug, PartialEq, Eq, Structural)]
pub enum UserInput {
    /// The mouse moved by a number of pixels.
    Move { dx: i64, dy: i64 },
    /// A mouse button went down or up.
    Button { button: MouseButton, down: bool },
    /// The wheels turned, given as travel on the wire.
    Scroll { delta_x: i32, delta_y: i32 },
}

/// A frame that has gathered nothing.
pub open spec fn empty_frame() -> PendingInput {
    PendingInput { dx: 0, dy: 0, button: None, scroll_x: 0, scroll_y: 0 }
}

/// What a frame comes to: the movement first, then the button, then the wheels, as far as there
/// are any.
pub open spec fn frame_inputs(pending: PendingInput) -> Seq<UserInput> {
    (if pending.dx != 0 || pending.dy != 0 {
        seq![UserInput::Move { dx: pending.dx, dy: pending.dy }]
    } else {
        Seq::empty()
    }) + (match pending.button {
        Some((button, down)) => seq![UserInput::Button { button, down }],
        None => Seq::empty(),
    }) + (if pending.scroll_x != 0 || pending.scroll_y != 0 {
        seq![UserInput::Scroll { delta_x: pending.scroll_x, delta_y: pending.scroll_y }]
    } else {
        Seq::empty()
    })
}

/// A sum, as far as movements reach.
pub open spec fn add_motion(sum: i64, value: i32) -> i64 {
    clamp(sum + value, i64::MIN as int, i64::MAX as int) as i64
}

/// The mouse button of an evdev code.
pub open spec fn button_of(code: u16) -> Option<MouseButton> {
    if code == BTN_LEFT {
        Some(MouseButton::Left)
    } else if code == BTN_RIGHT {
        Some(MouseButton::Right)
    } else if code == BTN_MIDDLE {
        Some(MouseButton::Middle)
    } else {
        None
    }
}

/// What a frame has gathered once an event is added to it.
///
/// Keys do not wait for the end of the frame, so they leave it as it is.
pub open spec fn gathered(pending: PendingInput, event: InputEvent) -> PendingInput {
    match summary(event) {
        EventSummary::RelativeAxis { axis, value } => if axis == REL_X {
            PendingInput { dx: add_motion(pending.dx, value), ..pending }
        } else if axis == REL_Y {
            PendingInput { dy: add_motion(pending.dy, value), ..pending }
        } else if axis == REL_WHEEL {
            PendingInput {
                scroll_y: (pending.scroll_y + value * SCROLL_WHEEL_UNIT) as i32,
                ..pending
            }
        } else if axis == REL_HWHEEL {
            PendingInput {
                scroll_x: (pending.scroll_x + value * SCROLL_WHEEL_UNIT) as i32,
                ..pending
            }
        } else {
            pending
        },
        EventSummary::Key { code, value } => match button_of(code) {
            Some(button) => PendingInput { button: Some((button, value == 1)), ..pending },
            None => pending,
        },
        EventSummary::Other => pending,
    }
}

/// Whether a wheel travel can be added to another.
pub open spec fn travel_fits(sum: i32, value: i32) -> bool {
    &&& i32::MIN <= value * SCROLL_WHEEL_UNIT <= i32::MAX
    &&& i32::MIN <= sum + value * SCROLL_WHEEL_UNIT <= i32::MAX
}

/// Whether an event can be added to a frame: the wheels must not turn further than can be told.
pub open spec fn can_gather(pending: PendingInput, event: InputEvent) -> bool {
    match summary(event) {
        EventSummary::RelativeAxis { axis, value } => {
            &&& axis == REL_WHEEL ==> travel_fits(pending.scroll_y, value)
            &&& axis == REL_HWHEEL ==> travel_fits(pending.scroll_x, value)
        },
        _ => true,
    }
}

/// The step on an event: keys are handled at once, everything else waits for the end of the
/// frame. A key without a virtual-key code is left to this machine, unless a remote machine is
/// being controlled.
///
/// Only the value 1 is a press. Every other value counts as a release, that of an automatic
/// repeat among them.
pub open spec fn on_event(context: ContextView, event: InputEvent) -> ReactionView {
    match summary(event) {
        EventSummary::Key { code, value } => if button_of(code) is Some {
            nothing()
        } else if let Some(key_code) = windows_vk(code) {
            on_key(context, key_code, value == 1)
        } else if context.active is None {
            perform(seq![Effect::EmitKey { code, down: value == 1 }])
        } else {
            nothing()
        },
        _ => nothing(),
    }
}

/// Adds to a movement, as far as movements reach.
fn add_to_motion(sum: i64, value: i32) -> (total: i64)
    ensures
        total == add_motion(sum, value),
{
    let total: i128 = sum as i128 + value as i128;
    if total < i64::MIN as i128 {
        i64::MIN
    } else if total > i64::MAX as i128 {
        i64::MAX
    } else {
        total as i64
    }
}

/// Finds out whether a wheel travel can be added to another.
fn travel_can_be_added(sum: i32, value: i32) -> (possible: bool)
    ensures
        possible == travel_fits(sum, value),
{
    assert(SCROLL_WHEEL_UNIT as i64 == 120);
    let travel: i64 = value as i64 * SCROLL_WHEEL_UNIT as i64;
    let total: i64 = sum as i64 + travel;
    travel >= i32::MIN as i64 && travel <= i32::MAX as i64 && total >= i32::MIN as i64 && total
        <= i32::MAX as i64
}

impl PendingInput {
    /// A frame that has gathered nothing.
    pub fn new() -> (pending: Self)
        ensures
            pending == empty_frame(),
    {
        PendingInput { dx: 0, dy: 0, button: None, scroll_x: 0, scroll_y: 0 }
    }

    /// Finds out whether an event can be added, as [`handle_evdev_event`] requires.
    pub fn can_take(&self, event: InputEvent) -> (possible: bool)
        ensures
            possible == can_gather(*self, event),
    {
        match destructure(event) {
            EventSummary::RelativeAxis { axis, value } => if axis == REL_WHEEL {
                travel_can_be_added(self.scroll_y, value)
            } else if axis == REL_HWHEEL {
                travel_can_be_added(self.scroll_x, value)
            } else {
                true
            },
            _ => true,
        }
    }

    /// Ends the frame, and begins the next.
    pub fn take_frame(&mut self) -> (inputs: Vec<UserInput>)
        ensures
            *final(self) == empty_frame(),
            inputs@ == frame_inputs(*old(self)),
    {
        let mut inputs: Vec<UserInput> = Vec::new();
        if self.dx != 0 || self.dy != 0 {
            inputs.push(UserInput::Move { dx: self.dx, dy: self.dy });
        }
        if let Some((button, down)) = self.button {
            inputs.push(UserInput::Button { button, down });
        }
        if self.scroll_x != 0 || self.scroll_y != 0 {
            inputs.push(UserInput::Scroll { delta_x: self.scroll_x, delta_y: self.scroll_y });
        }
        assert(inputs@ == frame_inputs(*self));
        *self = PendingInput::new();
        inputs
    }
}

/// Handles an event of a grabbed device.
///
/// Movements, buttons and wheels are gathered until the end of the frame. Keys are handled at
/// once.
pub fn handle_evdev_event(
    context: &CaptureContext,
    event: InputEvent,
    pending: &mut PendingInput,
) -> (reaction: Reaction)
    requires
        can_gather(*old(pending), event),
    ensures
        *final(pending) == gathered(*old(pending), event),
        reaction@ == on_event(context@, event),
{
    match destructure(event) {
        EventSummary::RelativeAxis { axis, value } => {
            if axis == REL_X {
                pending.dx = add_to_motion(pending.dx, value);
            } else if axis == REL_Y {
                pending.dy = add_to_motion(pending.dy, value);
            } else if axis == REL_WHEEL {
                pending.scroll_y = pending.scroll_y + value * SCROLL_WHEEL_UNIT;
            } else if axis == REL_HWHEEL {
                pending.scroll_x = pending.scroll_x + value * SCROLL_WHEEL_UNIT;
            }
        },
        EventSummary::Key { code, value } => {
            let down = value == 1;
            if code == BTN_LEFT {
                pending.button = Some((MouseButton::Left, down));
            } else if code == BTN_RIGHT {
                pending.button = Some((MouseButton::Right, down));
            } else if code == BTN_MIDDLE {
                pending.button = Some((MouseButton::Middle, down));
            } else if let Some(key_code) = evdev_key_to_windows_vk(code) {
                return handle_key(context, key_code, down);
            } else if context.active.is_none() {
                let mut effects: Vec<Effect> = Vec::new();
                effects.push(Effect::EmitKey { code, down });
                assert(effects@ == seq![Effect::EmitKey { code, down }]);
                return Reaction { effects, request: None };
            }
        },
        EventSummary::Other => {},
    }
    Reaction { effects: Vec::new(), request: None }
}

/// What a frame has gathered after a number of events.
pub open spec fn gathered_all(events: Seq<InputEvent>) -> PendingInput
    decreases events.len(),
{
    if events.len() == 0 {
        empty_frame()
    } else {
        gathered(gathered_all(events.drop_last()), events.last())
    }
}

/// Whether the way along an axis stays within reach from event to event.
pub open spec fn travel_stays_in_reach(events: Seq<InputEvent>, axis: u16) -> bool {
    forall|n: int|
        0 <= n <= events.len() ==> i64::MIN <= #[trigger] travel(events.take(n), axis) <= i64::MAX
}

/// A way that stays within reach has an end within reach, and so does the way before the last
/// event.
proof fn lemma_reach_of_earlier(events: Seq<InputEvent>, axis: u16)
    requires
        events.len() > 0,
        travel_stays_in_reach(events, axis),
    ensures
        i64::MIN <= travel(events, axis) <= i64::MAX,
        travel_stays_in_reach(events.drop_last(), axis),
{
    let earlier = events.drop_last();
    assert(events.take(events.len() as int) == events);
    assert forall|n: int| 0 <= n <= earlier.len() implies i64::MIN <= #[trigger] travel(
        earlier.take(n),
        axis,
    ) <= i64::MAX by {
        assert(earlier.take(n) == events.take(n));
    }
}

/// A frame's movement on each axis is the sum of the movements that the devices told, whatever
/// else they tell in between, as long as the sum stays within reach.
pub proof fn law_frame_adds_up_motion(events: Seq<InputEvent>)
    ensures
        travel_stays_in_reach(events, REL_X) ==> gathered_all(events).dx == travel(events, REL_X),
        travel_stays_in_reach(events, REL_Y) ==> gathered_all(events).dy == travel(events, REL_Y),
    decreases events.len(),
{
    if events.len() > 0 {
        law_frame_adds_up_motion(events.drop_last());
        if travel_stays_in_reach(events, REL_X) {
            lemma_reach_of_earlier(events, REL_X);
        }
        if travel_stays_in_reach(events, REL_Y) {
            lemma_reach_of_earlier(events, REL_Y);
        }
    }
}

/// No event moves a pointer before the frame ends: all that an event can lead to at once is a
/// key, on this machine or on the remote one.
pub proof fn law_events_only_gather_motion(context: ContextView, event: InputEvent)
    ensures
        forall|i: int|
            0 <= i < on_event(context, event).effects.len() ==> {
                let effect = #[trigger] on_event(context, event).effects[i];
                effect is EmitKey || effect is EmitKeyCode
            },
        on_event(context, event).request is None || on_event(context, event).request matches Some(
            Request::SendKey { .. },
        ),
        summary(event) is RelativeAxis ==> on_event(context, event) == nothing(),
{
}

/// Whether each of a number of events can be added to the frame in its turn.
pub open spec fn can_gather_all(events: Seq<InputEvent>) -> bool
    decreases events.len(),
{
    events.len() == 0 || (can_gather_all(events.drop_last()) && can_gather(
        gathered_all(events.drop_last()),
        events.last(),
    ))
}

/// A frame's wheel travel is the sum of the notches that the devices told, put on the wire.
pub proof fn law_frame_adds_up_wheels(events: Seq<InputEvent>)
    requires
        can_gather_all(events),
    ensures
        gathered_all(events).scroll_x == travel(events, REL_HWHEEL) * SCROLL_WHEEL_UNIT,
        gathered_all(events).scroll_y == travel(events, REL_WHEEL) * SCROLL_WHEEL_UNIT,
    decreases events.len(),
{
    if events.len() > 0 {
        law_frame_adds_up_wheels(events.drop_last());
    }
}

/// Whether a code is that of a mouse button.
pub open spec fn is_code_of(code: u16, button: MouseButton) -> bool {
    match button {
        MouseButton::Left => code == BTN_LEFT,
        MouseButton::Right => code == BTN_RIGHT,
        MouseButton::Middle => code == BTN_MIDDLE,
    }
}

/// Whether an event is about a mouse button.
pub open spec fn is_button_event(event: InputEvent) -> bool {
    event.kind == EV_KEY && (event.code == BTN_LEFT || event.code == BTN_RIGHT || event.code
        == BTN_MIDDLE)
}

/// Whether an event is about a relative axis.
pub open spec fn is_about_axis(event: InputEvent, axis: u16) -> bool {
    event.kind == EV_REL && event.code == axis
}

/// Whether a change of a button is the one that an event tells: only the value 1 is a press.
pub open spec fn is_change_of(change: (MouseButton, bool), event: InputEvent) -> bool {
    &&& is_code_of(event.code, change.0)
    &&& change.1 <==> event.value == 1
}

/// Each event is gathered where it belongs, and changes nothing else of the frame: movements and
/// wheels add up on their own axis, and the latest change of a button counts.
pub proof fn law_events_are_gathered_where_they_belong(pending: PendingInput, event: InputEvent)
    requires
        can_gather(pending, event),
    ensures
        ({
            let after = gathered(pending, event);
            &&& if is_about_axis(event, REL_X) {
                i64::MIN <= pending.dx + event.value <= i64::MAX ==> after.dx == pending.dx
                    + event.value
            } else {
                after.dx == pending.dx
            }
            &&& if is_about_axis(event, REL_Y) {
                i64::MIN <= pending.dy + event.value <= i64::MAX ==> after.dy == pending.dy
                    + event.value
            } else {
                after.dy == pending.dy
            }
            &&& after.scroll_y - pending.scroll_y == (if is_about_axis(event, REL_WHEEL) {
                event.value * SCROLL_WHEEL_UNIT
            } else {
                0
            })
            &&& after.scroll_x - pending.scroll_x == (if is_about_axis(event, REL_HWHEEL) {
                event.value * SCROLL_WHEEL_UNIT
            } else {
                0
            })
            &&& if is_button_event(event) {
                after.button matches Some(change) && is_change_of(change, event)
            } else {
                after.button == pending.button
            }
        }),
{
}

/// A movement that is too far to be told is told as far as possible, in its own direction.
pub proof fn law_far_movements_reach_the_end(pending: PendingInput, event: InputEvent)
    ensures
        ({
            let after = gathered(pending, event);
            &&& is_about_axis(event, REL_X) && pending.dx + event.value > i64::MAX ==> after.dx
                == i64::MAX
            &&& is_about_axis(event, REL_X) && pending.dx + event.value < i64::MIN ==> after.dx
                == i64::MIN
            &&& is_about_axis(event, REL_Y) && pending.dy + event.value > i64::MAX ==> after.dy
                == i64::MAX
            &&& is_about_axis(event, REL_Y) && pending.dy + event.value < i64::MIN ==> after.dy
                == i64::MIN
        }),
{
}

/// Only wheels that turn further than can be told are refused; every other event can be gathered.
pub proof fn law_only_far_wheels_are_refused(pending: PendingInput, event: InputEvent)
    ensures
        !is_about_axis(event, REL_WHEEL) && !is_about_axis(event, REL_HWHEEL) ==> can_gather(
            pending,
            event,
        ),
        is_about_axis(event, REL_WHEEL) ==> (can_gather(pending, event) <==> i32::MIN <= event.value
            * SCROLL_WHEEL_UNIT <= i32::MAX && i32::MIN <= pending.scroll_y + event.value
            * SCROLL_WHEEL_UNIT <= i32::MAX),
        is_about_axis(event, REL_HWHEEL) ==> (can_gather(pending, event) <==> i32::MIN
            <= event.value * SCROLL_WHEEL_UNIT <= i32::MAX && i32::MIN <= pending.scroll_x
            + event.value * SCROLL_WHEEL_UNIT <= i32::MAX),
{
}

/// The way along an axis that a number of inputs adds up to.
pub open spec fn input_travel(inputs: Seq<UserInput>, axis: u16) -> int
    decreases inputs.len(),
{
    if inputs.len() == 0 {
        0
    } else {
        input_travel(inputs.drop_last(), axis) + match inputs.last() {
            UserInput::Move { dx, dy } => if axis == REL_X {
                dx as int
            } else if axis == REL_Y {
                dy as int
            } else {
                0
            },
            UserInput::Button { .. } => 0,
            UserInput::Scroll { delta_x, delta_y } => if axis == REL_HWHEEL {
                delta_x as int
            } else if axis == REL_WHEEL {
                delta_y as int
            } else {
                0
            },
        }
    }
}

/// The place of an input in its frame.
pub open spec fn rank(input: UserInput) -> int {
    match input {
        UserInput::Move { .. } => 0,
        UserInput::Button { .. } => 1,
        UserInput::Scroll { .. } => 2,
    }
}

/// Whether one of some inputs is a given change of a button.
pub open spec fn presses(inputs: Seq<UserInput>, change: (MouseButton, bool)) -> bool {
    exists|i: int|
        0 <= i < inputs.len() && (#[trigger] inputs[i] matches UserInput::Button { button, down }
            && button == change.0 && down == change.1)
}

/// A frame comes to all that it gathered and to nothing else: the movement, then the change of a
/// button, then the wheels, each once and only if there is any.
pub proof fn law_frame_comes_to_all_it_gathered(pending: PendingInput)
    ensures
        ({
            let inputs = frame_inputs(pending);
            &&& input_travel(inputs, REL_X) == pending.dx
            &&& input_travel(inputs, REL_Y) == pending.dy
            &&& input_travel(inputs, REL_HWHEEL) == pending.scroll_x
            &&& input_travel(inputs, REL_WHEEL) == pending.scroll_y
            &&& forall|change: (MouseButton, bool)| #[trigger]
                presses(inputs, change) <==> pending.button == Some(change)
            &&& forall|i: int, j: int|
                0 <= i < j < inputs.len() ==> rank(#[trigger] inputs[i]) < rank(
                    #[trigger] inputs[j],
                )
            &&& forall|i: int|
                0 <= i < inputs.len() ==> match #[trigger] inputs[i] {
                    UserInput::Move { dx, dy } => dx != 0 || dy != 0,
                    UserInput::Button { .. } => true,
                    UserInput::Scroll { delta_x, delta_y } => delta_x != 0 || delta_y != 0,
                }
        }),
{
    reveal_with_fuel(input_travel, 4);
    let moves: Seq<UserInput> = if pending.dx != 0 || pending.dy != 0 {
        seq![UserInput::Move { dx: pending.dx, dy: pending.dy }]
    } else {
        Seq::empty()
    };
    let buttons: Seq<UserInput> = match pending.button {
        Some((button, down)) => seq![UserInput::Button { button, down }],
        None => Seq::empty(),
    };
    let wheels: Seq<UserInput> = if pending.scroll_x != 0 || pending.scroll_y != 0 {
        seq![UserInput::Scroll { delta_x: pending.scroll_x, delta_y: pending.scroll_y }]
    } else {
        Seq::empty()
    };
    let inputs = frame_inputs(pending);
    assert(inputs == moves + buttons + wheels);
    if wheels.len() > 0 {
        assert(inputs.drop_last() == moves + buttons);
    } else {
        assert(inputs == moves + buttons);
    }
    if buttons.len() > 0 {
        assert((moves + buttons).drop_last() == moves);
        assert(inputs[moves.len() as int] == buttons[0]);
    } else {
        assert(moves + buttons == moves);
    }
    if moves.len() > 0 {
        assert(moves.drop_last() == Seq::<UserInput>::empty());
    }
}

/// Whatever the devices tell in a frame, none of it is lost: what the frame comes to moves the
/// pointer and turns the wheels just as far as the events do.
pub proof fn law_frame_loses_no_travel(events: Seq<InputEvent>)
    ensures
        ({
            let inputs = frame_inputs(gathered_all(events));
            &&& travel_stays_in_reach(events, REL_X) ==> input_travel(inputs, REL_X) == travel(
                events,
                REL_X,
            )
            &&& travel_stays_in_reach(events, REL_Y) ==> input_travel(inputs, REL_Y) == travel(
                events,
                REL_Y,
            )
            &&& can_gather_all(events) ==> input_travel(inputs, REL_WHEEL) == travel(
                events,
                REL_WHEEL,
            ) * SCROLL_WHEEL_UNIT
            &&& can_gather_all(events) ==> input_travel(inputs, REL_HWHEEL) == travel(
                events,
                REL_HWHEEL,
            ) * SCROLL_WHEEL_UNIT
        }),
{
    law_frame_comes_to_all_it_gathered(gathered_all(events));
    law_frame_adds_up_motion(events);
    if can_gather_all(events) {
        law_frame_adds_up_wheels(events);
    }
}

/// The last change of a button in a frame is what the frame comes to, and a frame without one
/// comes to none.
pub proof fn law_last_button_change_counts(events: Seq<InputEvent>, last: int)
    requires
        -1 <= last < events.len(),
        last >= 0 ==> is_button_event(events[last]),
        forall|i: int| last < i < events.len() ==> !is_button_event(#[trigger] events[i]),
    ensures
        ({
            let inputs = frame_inputs(gathered_all(events));
            &&& last >= 0 ==> exists|change: (MouseButton, bool)| #[trigger]
                presses(inputs, change) && is_change_of(change, events[last])
            &&& forall|change: (MouseButton, bool)| #[trigger]
                presses(inputs, change) ==> last >= 0 && is_change_of(change, events[last])
        }),
{
    lemma_last_button_change(events, last);
    law_frame_comes_to_all_it_gathered(gathered_all(events));
    if last >= 0 {
        assert(presses(frame_inputs(gathered_all(events)), gathered_all(events).button->0));
    }
}

/// What a frame has gathered of the buttons is the last change of one.
proof fn lemma_last_button_change(events: Seq<InputEvent>, last: int)
    requires
        -1 <= last < events.len(),
        last >= 0 ==> is_button_event(events[last]),
        forall|i: int| last < i < events.len() ==> !is_button_event(#[trigger] events[i]),
    ensures
        match gathered_all(events).button {
            Some(change) => last >= 0 && is_change_of(change, events[last]),
            None => last == -1,
        },
    decreases events.len(),
{
    if events.len() > 0 && last < events.len() - 1 {
        let earlier = events.drop_last();
        assert forall|i: int| last < i < earlier.len() implies !is_button_event(
            #[trigger] earlier[i],
        ) by {
            assert(earlier[i] == events[i]);
        }
        lemma_last_button_change(earlier, last);
        assert(!is_button_event(events[events.len() - 1]));
    }
}

/// While a remote machine is controlled, a key of the keyboard leads to one thing: that machine is
/// to be sent the virtual-key code of the key, as going down just where the key is pressed. A key
/// without such a code leads to nothing.
pub proof fn law_remote_keys_are_forwarded(
    context: ContextView,
    remote: ActiveTarget,
    event: InputEvent,
)
    requires
        context.active == Some(remote),
        event.kind == EV_KEY,
        !is_button_event(event),
    ensures
        ({
            let reaction = on_event(context, event);
            &&& reaction.effects.len() == 0
            &&& reaction.request is Some <==> windows_vk(event.code) is Some
            &&& windows_vk(event.code) matches Some(vk) ==> (reaction.request matches Some(
                Request::SendKey { target, key_code, down },
            ) && target == remote.target && key_code == vk && (down <==> event.value == 1))
        }),
{
}

/// While no remote machine is controlled, a key of the keyboard leads to one thing: it goes to
/// this machine, by its virtual-key code where it has one, as going down just where it is pressed.
pub proof fn law_local_keys_stay_here(context: ContextView, event: InputEvent)
    requires
        context.active is None,
        event.kind == EV_KEY,
        !is_button_event(event),
    ensures
        ({
            let reaction = on_event(context, event);
            &&& reaction.request is None
            &&& reaction.effects.len() == 1
            &&& match windows_vk(event.code) {
                Some(vk) => reaction.effects[0] matches Effect::EmitKeyCode { key_code, down }
                    && key_code == vk && (down <==> event.value == 1),
                None => reaction.effects[0] matches Effect::EmitKey { code, down } && code
                    == event.code && (down <==> event.value == 1),
            }
            &&& !is_one_way_key(event.code) ==> (reaction.effects[0].report() matches Some(report)
                && report.device is Keyboard && is_press(
                report.events,
                event.code,
                event.value == 1,
            ))
        }),
{
    law_presses_go_to_their_device(MouseButton::Left, event.code, event.value == 1);
    if windows_vk(event.code) is Some && !is_one_way_key(event.code) {
        law_key_round_trip(event.code);
    }
}

/// Only keys are acted on at once: every other event waits for the end of the frame.
pub proof fn law_only_keys_act_at_once(context: ContextView, event: InputEvent)
    requires
        event.kind != EV_KEY || is_button_event(event),
    ensures
        on_event(context, event).effects.len() == 0,
        on_event(context, event).request is None,
{
}

} // verus!

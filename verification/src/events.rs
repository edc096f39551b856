//! Input events, and the reports that are written to the virtual devices.

use vstd::prelude::*;

use crate::codes::{
    BTN_LEFT, BTN_MIDDLE, BTN_RIGHT, EV_KEY, EV_REL, EV_SYN, REL_HWHEEL, REL_WHEEL, REL_X, REL_Y,
    SYN_REPORT,
};
use crate::keymap::windows_vk_to_evdev_key;
#[allow(unused_imports)]
use crate::keymap::evdev_key;

verus! {

/// Wheel travel on the wire per notch of the wheel.
pub const SCROLL_WHEEL_UNIT: i32 = 120;

/// One event of the Linux input protocol, without its time stamp.
#[derive(Clone, Copy, Debug, PartialEq, Eq, Structural)]
pub struct InputEvent {
    /// The event type, such as `EV_KEY`.
    pub kind: u16,
    pub code: u16,
    pub value: i32,
}

/// What an input event is about.
#[derive(Clone, Copy, Debug, PartialEq, Eq, Structural)]
pub enum EventSummary {
    RelativeAxis { axis: u16, value: i32 },
    Key { code: u16, value: i32 },
    Other,
}

/// A mouse button that is carried on the wire.
#[derive(Clone, Copy, Debug, PartialEq, Eq, Structural)]
pub enum MouseButton {
    Left,
    Right,
    Middle,
}

/// The virtual device that a report is written to.
#[derive(Clone, Copy, Debug, PartialEq, Eq, Structural)]
pub enum VirtualDevice {
    Mouse,
    Keyboard,
}

/// The events that are written to a virtual device in one go; with no events, nothing is.
#[derive(Debug)]
pub struct Report {
    pub device: VirtualDevice,
    pub events: Vec<InputEvent>,
}

/// The mathematical content of a [`Report`].
pub struct ReportView {
    pub device: VirtualDevice,
    pub events: Seq<InputEvent>,
}

impl View for Report {
    type V = ReportView;

    open spec fn view(&self) -> ReportView {
        ReportView { device: self.device, events: self.events@ }
    }
}

/// What an event is about, by its type.
pub open spec fn summary(event: InputEvent) -> EventSummary {
    if event.kind == EV_REL {
        EventSummary::RelativeAxis { axis: event.code, value: event.value }
    } else if event.kind == EV_KEY {
        EventSummary::Key { code: event.code, value: event.value }
    } else {
        EventSummary::Other
    }
}

/// Calls `evdev::InputEvent::destructure` on an event of the given type, code and value.
///
/// The contract claims that `evdev` goes by the event type alone: relative events come out with
/// their axis and value, key events with their key and value, and events of every other type
/// as neither of the two.
#[verifier::external_body]
pub(crate) fn destructure(event: InputEvent) -> (what: EventSummary)
    ensures
        what == summary(event),
{
    match evdev::InputEvent::new(event.kind, event.code, event.value).destructure() {
        evdev::EventSummary::RelativeAxis(_, axis, value) => {
            EventSummary::RelativeAxis { axis: axis.0, value }
        },
        evdev::EventSummary::Key(_, key, value) => EventSummary::Key { code: key.0, value },
        _ => EventSummary::Other,
    }
}

/// The event that ends a report.
pub open spec fn report_end() -> InputEvent {
    InputEvent { kind: EV_SYN, code: SYN_REPORT, value: 0 }
}

/// The event of an axis that moved, or nothing where it did not.
pub open spec fn axis_event(axis: u16, moved: bool, value: int) -> Seq<InputEvent> {
    if moved {
        seq![InputEvent { kind: EV_REL, code: axis, value: value as i32 }]
    } else {
        Seq::empty()
    }
}

/// A report of the mouse that holds the given events, or no report where there are none.
pub open spec fn mouse_report(events: Seq<InputEvent>) -> ReportView {
    ReportView {
        device: VirtualDevice::Mouse,
        events: if events.len() == 0 {
            events
        } else {
            events.push(report_end())
        },
    }
}

/// The report of a pointer movement.
pub open spec fn relative_report(dx: i32, dy: i32) -> ReportView {
    mouse_report(axis_event(REL_X, dx != 0, dx as int) + axis_event(REL_Y, dy != 0, dy as int))
}

/// Division that drops the remainder, towards zero.
pub open spec fn div_toward_zero(value: int, unit: int) -> int
    recommends
        unit > 0,
{
    if value >= 0 {
        value / unit
    } else {
        -((-value) / unit)
    }
}

/// Whole notches in a wheel travel.
pub open spec fn notches(travel: i32) -> int {
    div_toward_zero(travel as int, SCROLL_WHEEL_UNIT as int)
}

/// The report of a wheel movement, the vertical wheel first.
pub open spec fn scroll_report(delta_x: i32, delta_y: i32) -> ReportView {
    mouse_report(
        axis_event(REL_WHEEL, delta_y != 0, notches(delta_y)) + axis_event(
            REL_HWHEEL,
            delta_x != 0,
            notches(delta_x),
        ),
    )
}

/// The evdev code of a mouse button.
pub open spec fn button_code(button: MouseButton) -> u16 {
    match button {
        MouseButton::Left => BTN_LEFT,
        MouseButton::Right => BTN_RIGHT,
        MouseButton::Middle => BTN_MIDDLE,
    }
}

/// The events of a key or button that goes down or up.
pub open spec fn press_events(code: u16, down: bool) -> Seq<InputEvent> {
    seq![
        InputEvent {
            kind: EV_KEY,
            code,
            value: if down {
                1
            } else {
                0
            },
        },
        report_end(),
    ]
}

/// The report of a mouse button that goes down or up.
pub open spec fn button_report(button: MouseButton, down: bool) -> ReportView {
    ReportView { device: VirtualDevice::Mouse, events: press_events(button_code(button), down) }
}

/// The report of a key that goes down or up.
pub open spec fn key_report(code: u16, down: bool) -> ReportView {
    ReportView { device: VirtualDevice::Keyboard, events: press_events(code, down) }
}

/// Ends a report, unless it holds nothing.
fn end_report(events: &mut Vec<InputEvent>)
    ensures
        final(events)@ == mouse_report(old(events)@).events,
{
    if events.len() != 0 {
        events.push(InputEvent { kind: EV_SYN, code: SYN_REPORT, value: 0 });
    }
}

/// Reports a pointer movement; a movement of nothing is an empty report.
pub fn reemit_relative(dx: i32, dy: i32) -> (report: Report)
    ensures
        report@ == relative_report(dx, dy),
{
    let mut events: Vec<InputEvent> = Vec::new();
    if dx != 0 {
        events.push(InputEvent { kind: EV_REL, code: REL_X, value: dx });
    }
    if dy != 0 {
        events.push(InputEvent { kind: EV_REL, code: REL_Y, value: dy });
    }
    assert(events@ == axis_event(REL_X, dx != 0, dx as int) + axis_event(
        REL_Y,
        dy != 0,
        dy as int,
    ));
    end_report(&mut events);
    Report { device: VirtualDevice::Mouse, events }
}

/// Reports a mouse button that goes down or up.
pub fn reemit_button(button: MouseButton, down: bool) -> (report: Report)
    ensures
        report@ == button_report(button, down),
{
    let code: u16 = match button {
        MouseButton::Left => BTN_LEFT,
        MouseButton::Right => BTN_RIGHT,
        MouseButton::Middle => BTN_MIDDLE,
    };
    Report { device: VirtualDevice::Mouse, events: press(code, down) }
}

/// Reports a wheel movement, given as travel on the wire, in whole notches.
pub fn reemit_scroll(delta_x: i32, delta_y: i32) -> (report: Report)
    ensures
        report@ == scroll_report(delta_x, delta_y),
{
    let mut events: Vec<InputEvent> = Vec::new();
    if delta_y != 0 {
        events.push(
            InputEvent { kind: EV_REL, code: REL_WHEEL, value: delta_y / SCROLL_WHEEL_UNIT },
        );
    }
    if delta_x != 0 {
        events.push(
            InputEvent { kind: EV_REL, code: REL_HWHEEL, value: delta_x / SCROLL_WHEEL_UNIT },
        );
    }
    assert(events@ == axis_event(REL_WHEEL, delta_y != 0, notches(delta_y)) + axis_event(
        REL_HWHEEL,
        delta_x != 0,
        notches(delta_x),
    ));
    end_report(&mut events);
    Report { device: VirtualDevice::Mouse, events }
}

/// Reports a key, given by its evdev code, that goes down or up.
pub fn reemit_key(code: u16, down: bool) -> (report: Report)
    ensures
        report@ == key_report(code, down),
{
    Report { device: VirtualDevice::Keyboard, events: press(code, down) }
}

/// Reports a key, given by its virtual-key code, that goes down or up; a code that stands for
/// no key is not reported.
pub fn reemit_key_code(key_code: u16, down: bool) -> (report: Option<Report>)
    ensures
        match (report, evdev_key(key_code)) {
            (Some(report), Some(code)) => report@ == key_report(code, down),
            (None, None) => true,
            _ => false,
        },
{
    match windows_vk_to_evdev_key(key_code) {
        Some(code) => Some(reemit_key(code, down)),
        None => None,
    }
}

/// The events of a key or button that goes down or up.
fn press(code: u16, down: bool) -> (events: Vec<InputEvent>)
    ensures
        events@ == press_events(code, down),
{
    let value: i32 = if down {
        1
    } else {
        0
    };
    let mut events: Vec<InputEvent> = Vec::new();
    events.push(InputEvent { kind: EV_KEY, code, value });
    events.push(InputEvent { kind: EV_SYN, code: SYN_REPORT, value: 0 });
    events
}

/// The way that events go along an axis.
pub open spec fn travel(events: Seq<InputEvent>, axis: u16) -> int
    decreases events.len(),
{
    if events.len() == 0 {
        0
    } else {
        travel(events.drop_last(), axis) + match summary(events.last()) {
            EventSummary::RelativeAxis { axis: moved, value } => if moved == axis {
                value as int
            } else {
                0
            },
            _ => 0,
        }
    }
}

/// The report of a movement moves the pointer by just that movement.
pub proof fn law_report_moves_by_its_deltas(dx: i32, dy: i32)
    ensures
        travel(relative_report(dx, dy).events, REL_X) == dx,
        travel(relative_report(dx, dy).events, REL_Y) == dy,
{
    reveal_with_fuel(travel, 4);
    let moves = axis_event(REL_X, dx != 0, dx as int) + axis_event(REL_Y, dy != 0, dy as int);
    let events = relative_report(dx, dy).events;
    if dx != 0 || dy != 0 {
        assert(events.drop_last() == moves);
        if dx != 0 && dy != 0 {
            assert(moves.drop_last() == axis_event(REL_X, true, dx as int));
            assert(moves.drop_last().drop_last().len() == 0);
        } else {
            assert(moves.drop_last().len() == 0);
        }
    } else {
        assert(events.len() == 0);
    }
}

/// Notches of the wheels that are put on the wire come back from it unchanged.
pub proof fn law_notches_survive_the_wire(notches_x: i32, notches_y: i32, dx: i32, dy: i32)
    requires
        dx == notches_x * SCROLL_WHEEL_UNIT,
        dy == notches_y * SCROLL_WHEEL_UNIT,
    ensures
        scroll_report(dx, dy) == mouse_report(
            axis_event(REL_WHEEL, notches_y != 0, notches_y as int) + axis_event(
                REL_HWHEEL,
                notches_x != 0,
                notches_x as int,
            ),
        ),
{
}

/// The report of a wheel movement turns the wheels by the whole notches in it.
pub proof fn law_report_turns_by_its_notches(delta_x: i32, delta_y: i32)
    ensures
        travel(scroll_report(delta_x, delta_y).events, REL_WHEEL) == notches(delta_y),
        travel(scroll_report(delta_x, delta_y).events, REL_HWHEEL) == notches(delta_x),
{
    reveal_with_fuel(travel, 4);
    let vertical = axis_event(REL_WHEEL, delta_y != 0, notches(delta_y));
    let turns = vertical + axis_event(REL_HWHEEL, delta_x != 0, notches(delta_x));
    let events = scroll_report(delta_x, delta_y).events;
    if delta_x != 0 || delta_y != 0 {
        assert(events.drop_last() == turns);
        if delta_x != 0 && delta_y != 0 {
            assert(turns.drop_last() == vertical);
            assert(turns.drop_last().drop_last().len() == 0);
        } else {
            assert(turns.drop_last().len() == 0);
        }
    } else {
        assert(events.len() == 0);
    }
}

/// Whether events make up one whole report: there are none, or the last one, and no other, ends
/// the report.
pub open spec fn is_whole(events: Seq<InputEvent>) -> bool {
    events.len() > 0 ==> {
        &&& events.last() == (InputEvent { kind: EV_SYN, code: SYN_REPORT, value: 0 })
        &&& forall|i: int| 0 <= i < events.len() - 1 ==> (#[trigger] events[i]).kind != EV_SYN
    }
}

/// Whether one of some events is about an axis.
pub open spec fn tells_of(events: Seq<InputEvent>, axis: u16) -> bool {
    exists|i: int|
        0 <= i < events.len() && (#[trigger] events[i]).kind == EV_REL && events[i].code == axis
}

/// A movement is written to the virtual mouse as one whole report that tells of each axis once,
/// the horizontal one first, and only of those that move. Nothing is written where nothing moves.
pub proof fn law_movement_goes_to_the_mouse(dx: i32, dy: i32)
    ensures
        ({
            let report = relative_report(dx, dy);
            let events = report.events;
            &&& report.device is Mouse
            &&& is_whole(events)
            &&& events.len() == 0 <==> dx == 0 && dy == 0
            &&& forall|i: int|
                0 <= i < events.len() - 1 ==> (#[trigger] events[i]).kind == EV_REL
                    && events[i].value == (if events[i].code == REL_X {
                    dx
                } else {
                    dy
                })
            &&& forall|i: int, j: int|
                0 <= i < j < events.len() - 1 ==> (#[trigger] events[i]).code < (
                #[trigger] events[j]).code
            &&& tells_of(events, REL_X) <==> dx != 0
            &&& tells_of(events, REL_Y) <==> dy != 0
            &&& forall|axis: u16| #[trigger]
                tells_of(events, axis) ==> axis == REL_X || axis == REL_Y
        }),
{
    let events = relative_report(dx, dy).events;
    if dx != 0 {
        assert(events[0] == (InputEvent { kind: EV_REL, code: REL_X, value: dx }));
    }
    if dy != 0 {
        let i: int = if dx != 0 {
            1
        } else {
            0
        };
        assert(events[i] == (InputEvent { kind: EV_REL, code: REL_Y, value: dy }));
    }
}

/// A wheel movement is written to the virtual mouse as one whole report that tells of each wheel
/// once, the vertical one first, and only of those that turn.
pub proof fn law_wheels_go_to_the_mouse(delta_x: i32, delta_y: i32)
    ensures
        ({
            let report = scroll_report(delta_x, delta_y);
            let events = report.events;
            &&& report.device is Mouse
            &&& is_whole(events)
            &&& events.len() == 0 <==> delta_x == 0 && delta_y == 0
            &&& forall|i: int|
                0 <= i < events.len() - 1 ==> (#[trigger] events[i]).kind == EV_REL
            &&& forall|i: int, j: int|
                0 <= i < j < events.len() - 1 ==> (#[trigger] events[i]).code > (
                #[trigger] events[j]).code
            &&& tells_of(events, REL_WHEEL) <==> delta_y != 0
            &&& tells_of(events, REL_HWHEEL) <==> delta_x != 0
            &&& forall|axis: u16| #[trigger]
                tells_of(events, axis) ==> axis == REL_WHEEL || axis == REL_HWHEEL
        }),
{
    let events = scroll_report(delta_x, delta_y).events;
    if delta_y != 0 {
        assert(events[0].code == REL_WHEEL && events[0].kind == EV_REL);
    }
    if delta_x != 0 {
        let i: int = if delta_y != 0 {
            1
        } else {
            0
        };
        assert(events[i].code == REL_HWHEEL && events[i].kind == EV_REL);
    }
}

/// Whether a number of notches is that of a wheel travel, but for a rest of less than a notch in
/// the same direction.
pub open spec fn is_notches_of(notches: int, travel: int) -> bool {
    if travel >= 0 {
        0 <= travel - notches * SCROLL_WHEEL_UNIT < SCROLL_WHEEL_UNIT
    } else {
        -SCROLL_WHEEL_UNIT < travel - notches * SCROLL_WHEEL_UNIT <= 0
    }
}

/// The wheels turn by the notches of their own travel: what is dropped is less than a notch.
pub proof fn law_wheels_turn_by_whole_notches(delta_x: i32, delta_y: i32)
    ensures
        ({
            let events = scroll_report(delta_x, delta_y).events;
            &&& is_notches_of(travel(events, REL_WHEEL), delta_y as int)
            &&& is_notches_of(travel(events, REL_HWHEEL), delta_x as int)
        }),
{
    law_report_turns_by_its_notches(delta_x, delta_y);
}

/// Whether events are those of one key or button that goes down or up, as one whole report.
pub open spec fn is_press(events: Seq<InputEvent>, code: u16, down: bool) -> bool {
    &&& events.len() == 2
    &&& is_whole(events)
    &&& events[0].kind == EV_KEY
    &&& events[0].code == code
    &&& events[0].value == 1 <==> down
    &&& events[0].value == 0 <==> !down
}

/// A mouse button goes to the virtual mouse and a key to the virtual keyboard, each under its own
/// code, going down or up as it was told to.
pub proof fn law_presses_go_to_their_device(button: MouseButton, code: u16, down: bool)
    ensures
        button_report(button, down).device is Mouse,
        is_press(
            button_report(button, down).events,
            match button {
                MouseButton::Left => BTN_LEFT,
                MouseButton::Right => BTN_RIGHT,
                MouseButton::Middle => BTN_MIDDLE,
            },
            down,
        ),
        key_report(code, down).device is Keyboard,
        is_press(key_report(code, down).events, code, down),
{
}

} // verus!

//! Injection: what a machine that is being controlled writes to its virtual devices.

use vstd::prelude::*;

use crate::events::{
    reemit_button, reemit_key, reemit_relative, reemit_scroll, MouseButton, Report,
};
#[allow(unused_imports)]
use crate::codes::{BTN_LEFT, BTN_MIDDLE, BTN_RIGHT, REL_HWHEEL, REL_WHEEL, REL_X, REL_Y};
#[allow(unused_imports)]
use crate::events::{
    button_report, is_notches_of, is_press, key_report, law_presses_go_to_their_device,
    law_report_moves_by_its_deltas, law_wheels_turn_by_whole_notches, relative_report,
    scroll_report, travel, ReportView,
};
use crate::keymap::windows_vk_to_evdev_key;
#[allow(unused_imports)]
use crate::keymap::evdev_key;

verus! {

/// What has been injected so far.
#[derive(Debug)]
pub struct Injector {
    /// The position of the last injected movement.
    pub last_x: i32,
    pub last_y: i32,
    /// The virtual-key codes of the keys that are held down, in the order they went down.
    pub held: Vec<u16>,
}

/// A list of keys without one of them.
pub open spec fn without(keys: Seq<u16>, key_code: u16) -> Seq<u16> {
    keys.filter(|key: u16| key != key_code)
}

/// The keys that are held once a key went down or up.
pub open spec fn held_after(held: Seq<u16>, key_code: u16, down: bool) -> Seq<u16> {
    if !down {
        without(held, key_code)
    } else if held.contains(key_code) {
        held
    } else {
        held.push(key_code)
    }
}

/// The reports that let go of keys, in order; a code that stands for no key is skipped.
pub open spec fn release_reports(held: Seq<u16>) -> Seq<ReportView>
    decreases held.len(),
{
    if held.len() == 0 {
        Seq::empty()
    } else {
        let earlier = release_reports(held.drop_last());
        match evdev_key(held.last()) {
            Some(code) => earlier.push(key_report(code, false)),
            None => earlier,
        }
    }
}

/// The contents of reports.
pub open spec fn report_views(reports: Seq<Report>) -> Seq<ReportView> {
    reports.map_values(|report: Report| report@)
}

impl Injector {
    /// No key is held twice, and every held key can be let go of.
    pub open spec fn wf(self) -> bool {
        &&& self.held@.no_duplicates()
        &&& forall|i: int| 0 <= i < self.held@.len() ==> evdev_key(#[trigger] self.held@[i]) is Some
    }

    /// Nothing has been injected, and the position counts as the origin.
    pub fn new() -> (injector: Self)
        ensures
            injector.wf(),
            injector.last_x == 0,
            injector.last_y == 0,
            injector.held@ == Seq::<u16>::empty(),
    {
        Injector { last_x: 0, last_y: 0, held: Vec::new() }
    }
}

/// Moves the pointer to a position.
///
/// The virtual mouse is relative, so the report is about the way from the last injected
/// position. The button that is held during the movement makes no difference.
pub fn inject_mouse_move(
    injector: &mut Injector,
    x: i32,
    y: i32,
    _drag_button: Option<MouseButton>,
) -> (report: Report)
    requires
        i32::MIN <= x - old(injector).last_x <= i32::MAX,
        i32::MIN <= y - old(injector).last_y <= i32::MAX,
    ensures
        report@ == relative_report(
            (x - old(injector).last_x) as i32,
            (y - old(injector).last_y) as i32,
        ),
        report@.device is Mouse,
        travel(report@.events, REL_X) == x - old(injector).last_x,
        travel(report@.events, REL_Y) == y - old(injector).last_y,
        final(injector).last_x == x,
        final(injector).last_y == y,
        final(injector).held == old(injector).held,
{
    let dx: i32 = x - injector.last_x;
    let dy: i32 = y - injector.last_y;
    injector.last_x = x;
    injector.last_y = y;
    proof {
        law_report_moves_by_its_deltas(dx, dy);
    }
    reemit_relative(dx, dy)
}

/// Presses or releases a mouse button, wherever the pointer is.
pub fn inject_mouse_button(button: MouseButton, down: bool, _x: i32, _y: i32) -> (report: Report)
    ensures
        report@ == button_report(button, down),
{
    reemit_button(button, down)
}

/// Turns the wheels, given as travel on the wire.
pub fn inject_scroll(delta_x: i32, delta_y: i32) -> (report: Report)
    ensures
        report@ == scroll_report(delta_x, delta_y),
{
    reemit_scroll(delta_x, delta_y)
}

/// Takes a key out of a list of keys.
fn remove_key(keys: &mut Vec<u16>, key_code: u16)
    ensures
        final(keys)@ == without(old(keys)@, key_code),
{
    let ghost all = keys@;
    let mut kept: Vec<u16> = Vec::new();
    let mut i: usize = 0;
    assert(without(all.take(0), key_code) == Seq::<u16>::empty()) by {
        reveal(Seq::filter);
    }
    while i < keys.len()
        invariant
            i <= keys@.len(),
            keys@ == all,
            kept@ == without(all.take(i as int), key_code),
        decreases keys@.len() - i,
    {
        assert(all.take(i + 1).drop_last() == all.take(i as int));
        proof {
            reveal(Seq::filter);
        }
        if keys[i] != key_code {
            kept.push(keys[i]);
        }
        i = i + 1;
    }
    assert(all.take(i as int) == all);
    *keys = kept;
}

/// Finds out whether a key is in a list of keys.
fn has_key(keys: &Vec<u16>, key_code: u16) -> (found: bool)
    ensures
        found == keys@.contains(key_code),
{
    let mut i: usize = 0;
    while i < keys.len()
        invariant
            i <= keys@.len(),
            forall|j: int| 0 <= j < i ==> keys@[j] != key_code,
        decreases keys@.len() - i,
    {
        if keys[i] == key_code {
            return true;
        }
        i = i + 1;
    }
    false
}

/// Presses or releases a key, given by its virtual-key code, and keeps track of what is held.
///
/// A code that stands for no key is dropped: there is no report, and nothing is held for it.
pub fn inject_key(injector: &mut Injector, key_code: u16, down: bool) -> (report: Option<Report>)
    ensures
        match evdev_key(key_code) {
            Some(code) => {
                &&& report matches Some(report) && report@ == key_report(code, down)
                &&& report matches Some(report) && report@.device is Keyboard && is_press(
                    report@.events,
                    code,
                    down,
                )
                &&& final(injector).held@ == held_after(old(injector).held@, key_code, down)
            },
            None => report is None && final(injector).held == old(injector).held,
        },
        final(injector).last_x == old(injector).last_x,
        final(injector).last_y == old(injector).last_y,
        old(injector).wf() ==> final(injector).wf(),
{
    let code = match windows_vk_to_evdev_key(key_code) {
        Some(code) => code,
        None => return None,
    };
    if down {
        if !has_key(&injector.held, key_code) {
            injector.held.push(key_code);
        }
    } else {
        remove_key(&mut injector.held, key_code);
        proof {
            if old(injector).wf() {
                lemma_filter_keys(old(injector).held@, key_code);
            }
        }
    }
    Some(reemit_key(code, down))
}

/// Lets go of every key that is held.
pub fn release_injected_keys(injector: &mut Injector) -> (reports: Vec<Report>)
    ensures
        report_views(reports@) == release_reports(old(injector).held@),
        final(injector).held@ == Seq::<u16>::empty(),
        final(injector).last_x == old(injector).last_x,
        final(injector).last_y == old(injector).last_y,
        final(injector).wf(),
{
    let mut reports: Vec<Report> = Vec::new();
    let ghost held = injector.held@;
    let mut i: usize = 0;
    assert(report_views(reports@) == release_reports(held.take(0)));
    while i < injector.held.len()
        invariant
            i <= injector.held@.len(),
            injector.held@ == held,
            injector.last_x == old(injector).last_x,
            injector.last_y == old(injector).last_y,
            report_views(reports@) == release_reports(held.take(i as int)),
        decreases injector.held@.len() - i,
    {
        assert(held.take(i + 1).drop_last() == held.take(i as int));
        if let Some(code) = windows_vk_to_evdev_key(injector.held[i]) {
            let ghost before = reports@;
            let report = reemit_key(code, false);
            reports.push(report);
            assert(report_views(reports@) == report_views(before).push(key_report(code, false)));
        }
        i = i + 1;
    }
    assert(held.take(i as int) == held);
    injector.held = Vec::new();
    reports
}

/// Taking a key out of a list keeps all the other keys, once each if they were there once each.
proof fn lemma_filter_keys(keys: Seq<u16>, key_code: u16)
    ensures
        ({
            let rest = without(keys, key_code);
            &&& forall|key: u16| #[trigger]
                rest.contains(key) <==> keys.contains(key) && key != key_code
            &&& forall|i: int| 0 <= i < rest.len() ==> keys.contains(#[trigger] rest[i])
            &&& keys.no_duplicates() ==> rest.no_duplicates()
            &&& !keys.contains(key_code) ==> rest == keys
        }),
    decreases keys.len(),
{
    reveal(Seq::filter);
    let rest = without(keys, key_code);
    if keys.len() > 0 {
        let shorter = keys.drop_last();
        let last = keys.last();
        lemma_filter_keys(shorter, key_code);
        assert(keys == shorter.push(last));
        let rest_of_shorter = without(shorter, key_code);
        assert forall|key: u16| #[trigger]
            rest.contains(key) <==> keys.contains(key) && key != key_code by {
            assert(rest_of_shorter.contains(key) <==> shorter.contains(key) && key != key_code);
            if shorter.contains(key) {
                assert(keys[shorter.index_of(key)] == key);
            }
            if keys.contains(key) {
                let i = keys.index_of(key);
                assert(i == keys.len() - 1 || shorter[i] == key);
            }
            if rest_of_shorter.contains(key) {
                assert(rest[rest_of_shorter.index_of(key)] == key);
            }
            if rest.contains(key) {
                let i = rest.index_of(key);
                assert(i == rest_of_shorter.len() || rest_of_shorter[i] == key);
            }
            if last != key_code {
                assert(rest[rest.len() - 1] == last);
            }
            assert(keys[keys.len() - 1] == last);
        }
        assert forall|i: int| 0 <= i < rest.len() implies keys.contains(#[trigger] rest[i]) by {
            assert(rest.contains(rest[i]));
        }
        if keys.no_duplicates() {
            assert(shorter.no_duplicates());
            if last != key_code && rest_of_shorter.contains(last) {
                assert(shorter.contains(last));
                let i = shorter.index_of(last);
                assert(keys[i] == keys[keys.len() - 1]);
            }
            assert(!(last != key_code && rest_of_shorter.contains(last)));
            assert(rest.no_duplicates()) by {
                assert forall|i: int, j: int| 0 <= i < j < rest.len() implies rest[i] != rest[j] by {
                    if j < rest_of_shorter.len() {
                        assert(rest[i] == rest_of_shorter[i] && rest[j] == rest_of_shorter[j]);
                    } else {
                        assert(rest[i] == rest_of_shorter[i]);
                        assert(rest_of_shorter.contains(rest[i]));
                    }
                }
            }
        }
        if !keys.contains(key_code) {
            assert(last != key_code) by {
                assert(keys[keys.len() - 1] == last);
            }
            assert(!shorter.contains(key_code)) by {
                if shorter.contains(key_code) {
                    assert(keys[shorter.index_of(key_code)] == key_code);
                }
            }
            assert(rest == keys);
        }
    } else {
        assert(rest == keys);
    }
}

/// A key is held from the time it goes down until it goes up, whatever other keys do.
pub proof fn law_held_until_released(held: Seq<u16>, key_code: u16, down: bool, other: u16)
    ensures
        held_after(held, key_code, down).contains(key_code) <==> down,
        other != key_code ==> (held_after(held, key_code, down).contains(other)
            <==> held.contains(other)),
{
    lemma_filter_keys(held, key_code);
    if down && !held.contains(key_code) {
        let after = held.push(key_code);
        assert(after[held.len() as int] == key_code);
        if held.contains(other) {
            assert(after[held.index_of(other)] == other);
        }
        if after.contains(other) && other != key_code {
            assert(held[after.index_of(other)] == other);
        }
    }
}

/// A key that goes down and up again leaves the held keys as they were.
pub proof fn law_press_and_release(held: Seq<u16>, key_code: u16)
    requires
        !held.contains(key_code),
    ensures
        held_after(held_after(held, key_code, true), key_code, false) == held,
{
    reveal(Seq::filter);
    lemma_filter_keys(held, key_code);
    assert(held.push(key_code).drop_last() == held);
}

/// Letting go of the held keys reports each of them, in order, as going up.
pub proof fn law_every_held_key_is_released(injector: Injector)
    requires
        injector.wf(),
    ensures
        release_reports(injector.held@).len() == injector.held@.len(),
        forall|i: int|
            0 <= i < injector.held@.len() ==> #[trigger] release_reports(injector.held@)[i]
                == key_report(evdev_key(injector.held@[i])->0, false),
{
    lemma_release_reports(injector.held@);
}

/// Where every key can be let go of, there is one report for each.
proof fn lemma_release_reports(held: Seq<u16>)
    requires
        forall|i: int| 0 <= i < held.len() ==> evdev_key(#[trigger] held[i]) is Some,
    ensures
        release_reports(held).len() == held.len(),
        forall|i: int|
            0 <= i < held.len() ==> #[trigger] release_reports(held)[i] == key_report(
                evdev_key(held[i])->0,
                false,
            ),
    decreases held.len(),
{
    if held.len() > 0 {
        let earlier = held.drop_last();
        assert forall|i: int| 0 <= i < earlier.len() implies evdev_key(
            #[trigger] earlier[i],
        ) is Some by {
            assert(earlier[i] == held[i]);
        }
        lemma_release_reports(earlier);
        assert(evdev_key(held[held.len() - 1]) is Some);
    }
}

/// The position before step `i` of a path that starts at `start`.
pub open spec fn position_before(start: (i32, i32), path: Seq<(i32, i32)>, i: int) -> (i32, i32) {
    if i == 0 {
        start
    } else {
        path[i - 1]
    }
}

/// The way along an axis that the reports of a path add up to.
pub open spec fn path_travel(start: (i32, i32), path: Seq<(i32, i32)>, axis: u16) -> int
    decreases path.len(),
{
    if path.len() == 0 {
        0
    } else {
        let from = position_before(start, path, path.len() - 1);
        let to = path.last();
        path_travel(start, path.drop_last(), axis) + travel(
            relative_report((to.0 - from.0) as i32, (to.1 - from.1) as i32).events,
            axis,
        )
    }
}

/// However the pointer is led to a position, the reports add up to the way from where it
/// started.
pub proof fn law_injected_moves_add_up(start: (i32, i32), path: Seq<(i32, i32)>)
    requires
        path.len() > 0,
        forall|i: int|
            0 <= i < path.len() ==> {
                let from = position_before(start, path, i);
                &&& i32::MIN <= (#[trigger] path[i]).0 - from.0 <= i32::MAX
                &&& i32::MIN <= path[i].1 - from.1 <= i32::MAX
            },
    ensures
        path_travel(start, path, REL_X) == path.last().0 - start.0,
        path_travel(start, path, REL_Y) == path.last().1 - start.1,
    decreases path.len(),
{
    let from = position_before(start, path, path.len() - 1);
    let to = path.last();
    assert(to == path[path.len() - 1]);
    law_report_moves_by_its_deltas((to.0 - from.0) as i32, (to.1 - from.1) as i32);
    let shorter = path.drop_last();
    if path.len() > 1 {
        assert forall|i: int| 0 <= i < shorter.len() implies {
            let before = position_before(start, shorter, i);
            &&& i32::MIN <= (#[trigger] shorter[i]).0 - before.0 <= i32::MAX
            &&& i32::MIN <= shorter[i].1 - before.1 <= i32::MAX
        } by {
            assert(shorter[i] == path[i]);
            assert(position_before(start, shorter, i) == position_before(start, path, i));
        }
        law_injected_moves_add_up(start, shorter);
        assert(shorter.last() == from);
    } else {
        assert(path_travel(start, shorter, REL_X) == 0 && path_travel(start, shorter, REL_Y) == 0);
    }
}

/// A key that goes down is held last, after those that were held, and at most once.
pub proof fn law_pressed_keys_are_held_in_order(held: Seq<u16>, key_code: u16)
    ensures
        ({
            let after = held_after(held, key_code, true);
            &&& held.contains(key_code) ==> after == held
            &&& !held.contains(key_code) ==> after.len() == held.len() + 1 && after.last()
                == key_code && after.drop_last() == held
        }),
{
    if !held.contains(key_code) {
        assert(held.push(key_code).drop_last() == held);
    }
}

/// A key that goes up leaves the other keys held in the order they went down.
pub proof fn law_released_keys_leave_the_order(before: Seq<u16>, key_code: u16, after: Seq<u16>)
    requires
        !before.contains(key_code),
        !after.contains(key_code),
    ensures
        held_after(before + seq![key_code] + after, key_code, false) == before + after,
{
    let differs = |key: u16| key != key_code;
    Seq::filter_distributes_over_add(before + seq![key_code], after, differs);
    Seq::filter_distributes_over_add(before, seq![key_code], differs);
    lemma_filter_keys(before, key_code);
    lemma_filter_keys(after, key_code);
    assert(without(seq![key_code], key_code) == Seq::<u16>::empty()) by {
        lemma_filter_keys(seq![key_code], key_code);
        let rest = without(seq![key_code], key_code);
        if rest.len() > 0 {
            assert(rest.contains(rest[0]));
        }
    }
    assert(before + Seq::<u16>::empty() == before);
}

/// Whether a report lets go of the key of a virtual-key code on the virtual keyboard.
pub open spec fn lets_go_of(report: ReportView, key_code: u16) -> bool {
    evdev_key(key_code) matches Some(code) && report.device is Keyboard && is_press(
        report.events,
        code,
        false,
    )
}

/// Letting go of keys lets go of each of them that there is a key for, and of no other.
pub proof fn law_all_held_keys_go_up(held: Seq<u16>)
    ensures
        forall|i: int|
            0 <= i < held.len() && evdev_key(#[trigger] held[i]) is Some ==> exists|j: int|
                0 <= j < release_reports(held).len() && lets_go_of(
                    #[trigger] release_reports(held)[j],
                    held[i],
                ),
        forall|j: int|
            0 <= j < release_reports(held).len() ==> exists|i: int|
                0 <= i < held.len() && lets_go_of(
                    #[trigger] release_reports(held)[j],
                    #[trigger] held[i],
                ),
        release_reports(held).len() <= held.len(),
    decreases held.len(),
{
    if held.len() > 0 {
        let earlier = held.drop_last();
        let reports = release_reports(held);
        let some = release_reports(earlier);
        law_all_held_keys_go_up(earlier);
        if let Some(code) = evdev_key(held.last()) {
            law_presses_go_to_their_device(MouseButton::Left, code, false);
            assert(lets_go_of(reports[some.len() as int], held[held.len() - 1]));
        }
        assert forall|i: int|
            0 <= i < held.len() && evdev_key(#[trigger] held[i]) is Some implies exists|j: int|
            0 <= j < reports.len() && lets_go_of(#[trigger] reports[j], held[i]) by {
            if i < earlier.len() {
                assert(earlier[i] == held[i]);
                let j = choose|j: int|
                    0 <= j < some.len() && lets_go_of(#[trigger] some[j], earlier[i]);
                assert(reports[j] == some[j]);
            }
        }
        assert forall|j: int| 0 <= j < reports.len() implies exists|i: int|
            0 <= i < held.len() && lets_go_of(#[trigger] reports[j], #[trigger] held[i]) by {
            if j < some.len() {
                assert(reports[j] == some[j]);
                let i = choose|i: int|
                    0 <= i < earlier.len() && lets_go_of(some[j], #[trigger] earlier[i]);
                assert(held[i] == earlier[i]);
            }
        }
    }
}

/// A button that is sent goes to the virtual mouse, wherever the pointer is.
pub proof fn law_injected_buttons_go_to_the_mouse(
    button: MouseButton,
    down: bool,
    x: i32,
    y: i32,
    report: Report,
)
    requires
        call_ensures(inject_mouse_button, (button, down, x, y), report),
    ensures
        report@.device is Mouse,
        is_press(
            report@.events,
            match button {
                MouseButton::Left => BTN_LEFT,
                MouseButton::Right => BTN_RIGHT,
                MouseButton::Middle => BTN_MIDDLE,
            },
            down,
        ),
{
    law_presses_go_to_their_device(button, 0, down);
}

/// A wheel movement that is sent turns the wheels of the virtual mouse by its whole notches.
pub proof fn law_injected_wheels_turn(delta_x: i32, delta_y: i32, report: Report)
    requires
        call_ensures(inject_scroll, (delta_x, delta_y), report),
    ensures
        report@.device is Mouse,
        is_notches_of(travel(report@.events, REL_WHEEL), delta_y as int),
        is_notches_of(travel(report@.events, REL_HWHEEL), delta_x as int),
{
    law_wheels_turn_by_whole_notches(delta_x, delta_y);
}

} // verus!

//! What holds of the capture as a whole, whatever the user, the network and the layout do.
//!
//! A conversation is a series of steps. It begins with something that happens on the grabbed
//! devices, and goes on for as long as a step ends in a request.

use vstd::prelude::*;

#[allow(unused_imports)]
use crate::capture::{
    key_releases, on_button_move_sent, on_button_sent, on_crossing_checked, on_entry_sent,
    on_key_sent, on_keys_tracked, on_mouse_button, on_mouse_move, on_move_checked, on_move_sent,
    on_screen_updated, on_scroll, on_scroll_move_sent, on_stop, to_i32, ActiveTarget, ContextView,
    Crossing, CrossingRule, Effect, HeldButtons, ReactionView, Request, ScreenUpdate,
};
#[allow(unused_imports)]
use crate::codes::{REL_HWHEEL, REL_WHEEL, REL_X, REL_Y};
#[allow(unused_imports)]
use crate::events::{
    key_report, law_report_moves_by_its_deltas, law_report_turns_by_its_notches, press_events,
    relative_report, travel, InputEvent, MouseButton,
};
#[allow(unused_imports)]
use crate::frame::{
    button_of, can_gather_all, gathered, gathered_all, law_frame_adds_up_motion,
    law_frame_adds_up_wheels, on_event, travel_stays_in_reach, PendingInput,
};
#[allow(unused_imports)]
use crate::keymap::{is_one_way_key, law_key_round_trip, windows_vk};
#[allow(unused_imports)]
use crate::layout::{subpixels, LayoutState, Point};

verus! {

/// What makes the capture take a step.
pub enum Stimulus {
    /// The mouse moved.
    Move { dx: i64, dy: i64 },
    /// A mouse button changed.
    Button { button: MouseButton, down: bool },
    /// The wheels turned.
    Scroll { delta_x: i32, delta_y: i32 },
    /// A device told of an event.
    Event { event: InputEvent },
    /// The capture stops.
    Stop,
    /// The remote screens were consulted.
    ScreenUpdated { remote: ActiveTarget, update: ScreenUpdate },
    /// It is known whether the position may be sent.
    MoveChecked { remote: ActiveTarget, due: bool },
    /// The position was sent, or could not be.
    MoveSent { sent: bool },
    /// It is known whether the local pointer crosses.
    CrossingChecked { crossing: Option<Crossing>, dx: i64, dy: i64 },
    /// The first position was sent, or could not be.
    EntrySent { remote: ActiveTarget, anchor: Point, dx: i64, dy: i64, sent: bool },
    /// The position of a button was sent, or could not be.
    ButtonMoveSent { remote: ActiveTarget, button: MouseButton, down: bool, sent: bool },
    /// A button was sent, or could not be.
    ButtonSent { button: MouseButton, down: bool, sent: bool },
    /// The position of a wheel movement was sent, or could not be.
    ScrollMoveSent { remote: ActiveTarget, delta_x: i32, delta_y: i32, sent: bool },
    /// A key was sent, or could not be.
    KeySent { key_code: u16, down: bool, sent: bool },
    /// The keys that are held on the remote machine are known.
    KeysTracked { pressed_keys: Seq<u16> },
}

/// The step that the capture takes.
pub open spec fn step(
    context: ContextView,
    layout: LayoutState,
    rule: CrossingRule,
    stimulus: Stimulus,
) -> (ContextView, ReactionView) {
    match stimulus {
        Stimulus::Move { dx, dy } => on_mouse_move(context, layout, rule, dx, dy),
        Stimulus::Button { button, down } => (context, on_mouse_button(context, button, down)),
        Stimulus::Scroll { delta_x, delta_y } => (context, on_scroll(context, delta_x, delta_y)),
        Stimulus::Event { event } => (context, on_event(context, event)),
        Stimulus::Stop => on_stop(context),
        Stimulus::ScreenUpdated { remote, update } => on_screen_updated(context, remote, update),
        Stimulus::MoveChecked { remote, due } => (context, on_move_checked(remote, due)),
        Stimulus::MoveSent { sent } => on_move_sent(context, sent),
        Stimulus::CrossingChecked { crossing, dx, dy } => (
            context,
            on_crossing_checked(crossing, dx, dy),
        ),
        Stimulus::EntrySent { remote, anchor, dx, dy, sent } => on_entry_sent(
            context,
            remote,
            anchor,
            dx,
            dy,
            sent,
        ),
        Stimulus::ButtonMoveSent { remote, button, down, sent } => (
            context,
            on_button_move_sent(remote, button, down, sent),
        ),
        Stimulus::ButtonSent { button, down, sent } => on_button_sent(
            context,
            button,
            down,
            sent,
        ),
        Stimulus::ScrollMoveSent { remote, delta_x, delta_y, sent } => (
            context,
            on_scroll_move_sent(remote, delta_x, delta_y, sent),
        ),
        Stimulus::KeySent { key_code, down, sent } => (context, on_key_sent(key_code, down, sent)),
        Stimulus::KeysTracked { pressed_keys } => on_keys_tracked(context, pressed_keys),
    }
}

/// Whether a stimulus is what the capture waits for: the answer to the open request, or
/// anything that happens by itself where no request is open.
pub open spec fn answers(stimulus: Stimulus, request: Option<Request>) -> bool {
    match stimulus {
        Stimulus::Move { .. }
        | Stimulus::Button { .. }
        | Stimulus::Scroll { .. }
        | Stimulus::Event { .. }
        | Stimulus::Stop => request is None,
        Stimulus::ScreenUpdated { .. } => request matches Some(Request::UpdateScreen { .. }),
        Stimulus::MoveChecked { remote, .. } => request matches Some(
            Request::CheckMoveDue { remote: asked, .. },
        ) && asked == remote,
        Stimulus::MoveSent { .. } => request matches Some(Request::SendMove { .. }),
        Stimulus::CrossingChecked { dx, dy, .. } => request matches Some(
            Request::FindCrossing { dx: asked_dx, dy: asked_dy, .. },
        ) && asked_dx == dx && asked_dy == dy,
        Stimulus::EntrySent { remote, anchor, dx, dy, .. } => request == Some(
            Request::SendEntryMove { remote, anchor, dx, dy },
        ),
        Stimulus::ButtonMoveSent { remote, button, down, .. } => request == Some(
            Request::SendButtonMove { remote, button, down },
        ),
        Stimulus::ButtonSent { button, down, .. } => request matches Some(
            Request::SendButton { button: asked, down: asked_down, .. },
        ) && asked == button && asked_down == down,
        Stimulus::ScrollMoveSent { remote, delta_x, delta_y, .. } => request == Some(
            Request::SendScrollMove { remote, delta_x, delta_y },
        ),
        Stimulus::KeySent { key_code, down, .. } => request matches Some(
            Request::SendKey { key_code: asked, down: asked_down, .. },
        ) && asked == key_code && asked_down == down,
        Stimulus::KeysTracked { .. } => request matches Some(Request::TrackKey { .. }),
    }
}

/// What holds of the capture between two steps, given the request that is open.
///
/// A crossing can only be recent, and keys and buttons can only be held, while a remote machine
/// is controlled. Each request is made either while one is controlled or while none is.
pub open spec fn inv(context: ContextView, request: Option<Request>) -> bool {
    &&& context.just_crossed ==> context.active is Some
    &&& context.pressed_keys.len() > 0 ==> context.active is Some
    &&& context.buttons.any() ==> context.active is Some
    &&& match request {
        None => true,
        Some(Request::UpdateScreen { .. })
        | Some(Request::CheckMoveDue { .. })
        | Some(Request::SendMove { .. }) => context.active is Some && !context.just_crossed,
        Some(Request::FindCrossing { .. })
        | Some(Request::SendEntryMove { .. }) => context.active is None,
        Some(Request::SendButtonMove { .. })
        | Some(Request::SendButton { .. })
        | Some(Request::SendScrollMove { .. })
        | Some(Request::SendKey { .. })
        | Some(Request::TrackKey { .. }) => context.active is Some,
    }
}

/// The number of answers that can still follow a request.
pub open spec fn answers_left(request: Option<Request>) -> nat {
    match request {
        None => 0,
        Some(Request::UpdateScreen { .. }) => 3,
        Some(Request::CheckMoveDue { .. })
        | Some(Request::FindCrossing { .. })
        | Some(Request::SendButtonMove { .. })
        | Some(Request::SendKey { .. }) => 2,
        Some(Request::SendMove { .. })
        | Some(Request::SendEntryMove { .. })
        | Some(Request::SendButton { .. })
        | Some(Request::SendScrollMove { .. })
        | Some(Request::TrackKey { .. }) => 1,
    }
}

/// Every step leaves the capture as it should be.
pub proof fn law_invariant_is_kept(
    context: ContextView,
    request: Option<Request>,
    layout: LayoutState,
    rule: CrossingRule,
    stimulus: Stimulus,
)
    requires
        inv(context, request),
        answers(stimulus, request),
    ensures
        ({
            let (after, reaction) = step(context, layout, rule, stimulus);
            inv(after, reaction.request)
        }),
{
}

/// Every conversation comes to an end: each answer leaves fewer to follow.
pub proof fn law_conversation_ends(
    context: ContextView,
    request: Option<Request>,
    layout: LayoutState,
    rule: CrossingRule,
    stimulus: Stimulus,
)
    requires
        request is Some,
        answers(stimulus, request),
    ensures
        answers_left(step(context, layout, rule, stimulus).1.request) < answers_left(request),
{
}

/// The rest of the application is told truly whether a remote machine is controlled, and it is
/// told whenever that changes.
pub proof fn law_remote_flag_is_true(
    context: ContextView,
    request: Option<Request>,
    layout: LayoutState,
    rule: CrossingRule,
    stimulus: Stimulus,
)
    requires
        inv(context, request),
        answers(stimulus, request),
    ensures
        ({
            let (after, reaction) = step(context, layout, rule, stimulus);
            &&& forall|i: int|
                0 <= i < reaction.effects.len() ==> (#[trigger] reaction.effects[i] matches
                    Effect::SetRemoteActive { active } ==> active == after.active is Some)
            &&& context.active is Some != after.active is Some ==> reaction.effects.contains(
                Effect::SetRemoteActive { active: after.active is Some },
            )
        }),
{
    let (after, reaction) = step(context, layout, rule, stimulus);
    let told = Effect::SetRemoteActive { active: after.active is Some };
    if context.active is Some != after.active is Some {
        match stimulus {
            Stimulus::ScreenUpdated { .. } => {
                assert(reaction.effects[1] == told);
            },
            Stimulus::MoveSent { .. } => {
                assert(reaction.effects[0] == told);
            },
            Stimulus::EntrySent { .. } => {
                assert(reaction.effects[2] == told);
            },
            Stimulus::Stop => {
                assert(reaction.effects[reaction.effects.len() - 3] == told);
            },
            _ => {},
        }
    }
}

/// What the rest of the application knows after some effects of whether a remote machine is
/// controlled, given what it knew before.
pub open spec fn known_after(effects: Seq<Effect>, before: bool) -> bool
    decreases effects.len(),
{
    if effects.len() == 0 {
        before
    } else {
        match effects.last() {
            Effect::SetRemoteActive { active } => active,
            _ => known_after(effects.drop_last(), before),
        }
    }
}

/// The buttons that are held on the remote machine after some effects, as the effects tell,
/// given those that were held before.
pub open spec fn buttons_after(effects: Seq<Effect>, before: HeldButtons) -> HeldButtons
    decreases effects.len(),
{
    if effects.len() == 0 {
        before
    } else {
        match effects.last() {
            Effect::UpdateButtonMask { button, down } => buttons_after(
                effects.drop_last(),
                before,
            ).after(button, down),
            Effect::ResetButtonMask | Effect::ReleaseRemoteButtons { .. } => HeldButtons::none(),
            _ => buttons_after(effects.drop_last(), before),
        }
    }
}

/// The buttons that the capture takes to be held are those that its effects tell of, so that a
/// position counts as dragged just while one of them is held.
pub proof fn law_buttons_follow_effects(
    context: ContextView,
    request: Option<Request>,
    layout: LayoutState,
    rule: CrossingRule,
    stimulus: Stimulus,
)
    requires
        inv(context, request),
        answers(stimulus, request),
    ensures
        ({
            let (after, reaction) = step(context, layout, rule, stimulus);
            &&& after.buttons == buttons_after(reaction.effects, context.buttons)
            &&& reaction.request matches Some(Request::CheckMoveDue { dragging, .. }) ==> dragging
                == after.buttons.any()
        }),
{
    reveal_with_fuel(buttons_after, 5);
    let (after, reaction) = step(context, layout, rule, stimulus);
    let effects = reaction.effects;
    match stimulus {
        Stimulus::ScreenUpdated { update: ScreenUpdate::Returned { .. }, .. } => {
            assert(effects.last() == Effect::ResetMoveTimer);
            assert(effects.drop_last().last() is ReleaseRemoteButtons);
        },
        Stimulus::Stop => {
            assert(effects.last() == Effect::ClearClipboardTarget);
            assert(effects.drop_last().last() == Effect::ResetMoveTimer);
            assert(effects.drop_last().drop_last().last() is SetRemoteActive);
            let first = effects.drop_last().drop_last().drop_last();
            assert(first.last() is ReleaseRemoteButtons || first.last() is ResetButtonMask);
        },
        _ => {},
    }
}

/// Where the capture is after a number of steps.
pub struct Progress {
    pub context: ContextView,
    pub request: Option<Request>,
    /// Whether the rest of the application takes a remote machine to be controlled.
    pub known_active: bool,
    /// The buttons that are held on the remote machine, as the effects have told.
    pub known_buttons: HeldButtons,
}

/// Where the capture is after a number of steps from its start, when nothing is controlled and
/// nothing is taken to be.
pub open spec fn run(
    cursor: Point,
    layout: LayoutState,
    rule: CrossingRule,
    stimuli: Seq<Stimulus>,
) -> Progress
    decreases stimuli.len(),
{
    if stimuli.len() == 0 {
        Progress {
            context: ContextView {
                active: None,
                just_crossed: false,
                cursor,
                pressed_keys: Seq::empty(),
                buttons: HeldButtons::none(),
            },
            request: None,
            known_active: false,
            known_buttons: HeldButtons::none(),
        }
    } else {
        let before = run(cursor, layout, rule, stimuli.drop_last());
        let (context, reaction) = step(before.context, layout, rule, stimuli.last());
        Progress {
            context,
            request: reaction.request,
            known_active: known_after(reaction.effects, before.known_active),
            known_buttons: buttons_after(reaction.effects, before.known_buttons),
        }
    }
}

/// Whether each stimulus is what the capture waits for in its turn.
pub open spec fn in_turn(
    cursor: Point,
    layout: LayoutState,
    rule: CrossingRule,
    stimuli: Seq<Stimulus>,
) -> bool
    decreases stimuli.len(),
{
    stimuli.len() == 0 || (in_turn(cursor, layout, rule, stimuli.drop_last()) && answers(
        stimuli.last(),
        run(cursor, layout, rule, stimuli.drop_last()).request,
    ))
}

/// Effects that tell only one thing leave that known, or what was known before.
proof fn lemma_known_after(effects: Seq<Effect>, before: bool, told: bool)
    requires
        forall|i: int|
            0 <= i < effects.len() ==> (#[trigger] effects[i] matches Effect::SetRemoteActive {
                active,
            } ==> active == told),
    ensures
        known_after(effects, before) == (if effects.contains(
            Effect::SetRemoteActive { active: told },
        ) {
            told
        } else {
            before
        }),
    decreases effects.len(),
{
    let tells = Effect::SetRemoteActive { active: told };
    if effects.len() > 0 {
        let earlier = effects.drop_last();
        assert forall|i: int| 0 <= i < earlier.len() implies (#[trigger] earlier[i] matches
            Effect::SetRemoteActive { active } ==> active == told) by {
            assert(earlier[i] == effects[i]);
        }
        lemma_known_after(earlier, before, told);
        assert(effects[effects.len() - 1] == effects.last());
        if earlier.contains(tells) {
            assert(effects[earlier.index_of(tells)] == tells);
        }
        if effects.contains(tells) && effects.last() != tells {
            assert(earlier[effects.index_of(tells)] == tells);
        }
    }
}

/// However a capture goes, it is always as it should be, and the rest of the application always
/// knows whether a remote machine is controlled and which buttons are held on it.
pub proof fn law_capture_stays_consistent(
    cursor: Point,
    layout: LayoutState,
    rule: CrossingRule,
    stimuli: Seq<Stimulus>,
)
    requires
        in_turn(cursor, layout, rule, stimuli),
    ensures
        ({
            let now = run(cursor, layout, rule, stimuli);
            &&& inv(now.context, now.request)
            &&& now.known_active == now.context.active is Some
            &&& now.known_buttons == now.context.buttons
        }),
    decreases stimuli.len(),
{
    if stimuli.len() > 0 {
        law_capture_stays_consistent(cursor, layout, rule, stimuli.drop_last());
        let before = run(cursor, layout, rule, stimuli.drop_last());
        let (after, reaction) = step(before.context, layout, rule, stimuli.last());
        law_invariant_is_kept(before.context, before.request, layout, rule, stimuli.last());
        law_remote_flag_is_true(before.context, before.request, layout, rule, stimuli.last());
        law_buttons_follow_effects(before.context, before.request, layout, rule, stimuli.last());
        lemma_known_after(reaction.effects, before.known_active, after.active is Some);
    }
}

/// While a remote machine is controlled, nothing that the user does reaches this machine.
pub proof fn law_remote_input_is_swallowed(
    context: ContextView,
    request: Option<Request>,
    layout: LayoutState,
    rule: CrossingRule,
    stimulus: Stimulus,
)
    requires
        inv(context, request),
        answers(stimulus, request),
        context.active is Some,
    ensures
        ({
            let reaction = step(context, layout, rule, stimulus).1;
            forall|i: int|
                0 <= i < reaction.effects.len() ==> !(#[trigger] reaction.effects[i]).is_local()
        }),
{
}

/// While no remote machine is controlled, what the user does stays on this machine: nothing is
/// sent, but for a movement that crosses to a remote machine.
pub proof fn law_local_input_stays_local(
    context: ContextView,
    request: Option<Request>,
    layout: LayoutState,
    rule: CrossingRule,
    stimulus: Stimulus,
)
    requires
        inv(context, request),
        answers(stimulus, request),
        context.active is None,
        !(stimulus is Stop),
        !(stimulus is EntrySent),
        !(stimulus matches Stimulus::CrossingChecked { crossing, .. } && crossing is Some),
    ensures
        ({
            let (after, reaction) = step(context, layout, rule, stimulus);
            &&& after.active is None
            &&& forall|i: int|
                0 <= i < reaction.effects.len() ==> (#[trigger] reaction.effects[i]).is_local()
            &&& reaction.request is None || reaction.request matches Some(
                Request::FindCrossing { .. },
            )
        }),
{
}

/// Control passes to a remote machine only when the pointer has crossed to it and the machine
/// has been reached, and it begins with nothing held there.
pub proof fn law_control_begins_with_a_crossing(
    context: ContextView,
    request: Option<Request>,
    layout: LayoutState,
    rule: CrossingRule,
    stimulus: Stimulus,
)
    requires
        inv(context, request),
        answers(stimulus, request),
        context.active is None,
        step(context, layout, rule, stimulus).0.active is Some,
    ensures
        ({
            let after = step(context, layout, rule, stimulus).0;
            &&& stimulus matches Stimulus::EntrySent { remote, sent, .. } && sent && after.active
                == Some(remote)
            &&& after.pressed_keys.len() == 0
            &&& !after.buttons.any()
        }),
{
}

/// When control comes back, nothing stays held on the remote machine: every key that is held
/// there is sent as going up, and the buttons are let go of. Only a machine that cannot be
/// reached any more is not told. In every case the keys and buttons are forgotten.
pub proof fn law_nothing_stays_held(
    context: ContextView,
    request: Option<Request>,
    layout: LayoutState,
    rule: CrossingRule,
    stimulus: Stimulus,
    i: int,
)
    requires
        inv(context, request),
        answers(stimulus, request),
        context.active is Some,
        step(context, layout, rule, stimulus).0.active is None,
    ensures
        ({
            let (after, reaction) = step(context, layout, rule, stimulus);
            let target = match stimulus {
                Stimulus::ScreenUpdated { remote, .. } => remote.target,
                _ => context.active->0.target,
            };
            &&& after.pressed_keys.len() == 0
            &&& !after.buttons.any()
            &&& stimulus is MoveSent || reaction.effects.contains(
                Effect::ReleaseRemoteButtons { target },
            )
            &&& stimulus is MoveSent || (0 <= i < context.pressed_keys.len()
                ==> reaction.effects.contains(
                Effect::SendKey { target, key_code: context.pressed_keys[i], down: false },
            ))
        }),
{
    let (after, reaction) = step(context, layout, rule, stimulus);
    let target = match stimulus {
        Stimulus::ScreenUpdated { remote, .. } => remote.target,
        _ => context.active->0.target,
    };
    let keys = context.pressed_keys;
    let releases = key_releases(target, keys);
    match stimulus {
        Stimulus::ScreenUpdated { .. } => {
            assert(reaction.effects[keys.len() + 2int] == (Effect::ReleaseRemoteButtons { target }));
            if 0 <= i < keys.len() {
                assert(reaction.effects[2 + i] == releases[i]);
            }
        },
        Stimulus::Stop => {
            assert(reaction.effects[keys.len() as int] == (Effect::ReleaseRemoteButtons { target }));
            if 0 <= i < keys.len() {
                assert(reaction.effects[i] == releases[i]);
            }
        },
        _ => {},
    }
}

/// At most the first movement after a crossing is ignored; every later one moves the remote
/// pointer.
pub proof fn law_only_first_movement_is_ignored(
    context: ContextView,
    layout: LayoutState,
    rule: CrossingRule,
    dx: i64,
    dy: i64,
)
    requires
        context.active is Some,
        dx != 0 || dy != 0,
    ensures
        ({
            let (after, reaction) = on_mouse_move(context, layout, rule, dx, dy);
            &&& !after.just_crossed
            &&& !context.just_crossed ==> reaction.request matches Some(
                Request::UpdateScreen { .. },
            )
        }),
{
}

/// The remote pointer is kept on the screen that it is on.
pub proof fn law_remote_pointer_stays_on_screen(context: ContextView, remote: ActiveTarget)
    requires
        remote.current_screen.width >= 1,
        remote.current_screen.height >= 1,
    ensures
        ({
            let after = on_screen_updated(context, remote, ScreenUpdate::Remote).0;
            let at = after.active->0.at;
            &&& after.active is Some
            &&& 0 <= at.x <= subpixels(remote.current_screen.width - 1)
            &&& 0 <= at.y <= subpixels(remote.current_screen.height - 1)
        }),
{
}

/// The movement that an open request may still turn into one of the local pointer.
pub open spec fn open_motion(request: Option<Request>) -> Option<(i64, i64)> {
    match request {
        Some(Request::FindCrossing { dx, dy, .. }) => Some((dx, dy)),
        Some(Request::SendEntryMove { dx, dy, .. }) => Some((dx, dy)),
        _ => None,
    }
}

/// While no remote machine is controlled, no movement gets lost: it is kept until either control
/// passes to a remote machine, or it is passed on to this machine.
pub proof fn law_no_local_movement_is_lost(
    context: ContextView,
    request: Option<Request>,
    layout: LayoutState,
    rule: CrossingRule,
    stimulus: Stimulus,
    dx: i64,
    dy: i64,
)
    requires
        inv(context, request),
        answers(stimulus, request),
        context.active is None,
        dx != 0 || dy != 0,
        stimulus == (Stimulus::Move { dx, dy }) || open_motion(request) == Some((dx, dy)),
    ensures
        ({
            let (after, reaction) = step(context, layout, rule, stimulus);
            ||| after.active is Some
            ||| open_motion(reaction.request) == Some((dx, dy))
            ||| reaction.effects.contains(
                Effect::EmitRelative { dx: to_i32(dx as int), dy: to_i32(dy as int) },
            )
        }),
{
    let reaction = step(context, layout, rule, stimulus).1;
    let passed_on = Effect::EmitRelative { dx: to_i32(dx as int), dy: to_i32(dy as int) };
    match stimulus {
        Stimulus::CrossingChecked { crossing, .. } => {
            if crossing is None {
                assert(reaction.effects[0] == passed_on);
            }
        },
        Stimulus::EntrySent { sent, .. } => {
            if !sent {
                assert(reaction.effects[2] == passed_on);
            }
        },
        _ => {},
    }
}

/// Whether just one of some effects is on this machine, and it moves the local pointer the way
/// that events go.
pub open spec fn passes_on(effects: Seq<Effect>, events: Seq<InputEvent>) -> bool {
    exists|i: int|
        {
            &&& 0 <= i < effects.len()
            &&& (#[trigger] effects[i]).report() matches Some(report) && travel(
                report.events,
                REL_X,
            ) == travel(events, REL_X) && travel(report.events, REL_Y) == travel(events, REL_Y)
            &&& forall|j: int|
                0 <= j < effects.len() && j != i ==> !(#[trigger] effects[j]).is_local()
        }
}

/// A movement of the local mouse is written to the virtual mouse just as the grabbed devices
/// told it, where it does not cross and where the machine that it crosses to cannot be reached,
/// unless it is further than one event can tell.
pub proof fn law_local_movement_is_passed_on(
    context: ContextView,
    events: Seq<InputEvent>,
    remote: ActiveTarget,
    anchor: Point,
)
    requires
        travel_stays_in_reach(events, REL_X),
        travel_stays_in_reach(events, REL_Y),
        i32::MIN <= travel(events, REL_X) <= i32::MAX,
        i32::MIN <= travel(events, REL_Y) <= i32::MAX,
    ensures
        ({
            let frame = gathered_all(events);
            let (after, unreached) = on_entry_sent(
                context,
                remote,
                anchor,
                frame.dx,
                frame.dy,
                false,
            );
            &&& passes_on(on_crossing_checked(None, frame.dx, frame.dy).effects, events)
            &&& passes_on(unreached.effects, events)
            &&& after.active == context.active
            &&& after.cursor == context.cursor
        }),
{
    law_frame_adds_up_motion(events);
    let frame = gathered_all(events);
    law_report_moves_by_its_deltas(frame.dx as i32, frame.dy as i32);
    let stays = on_crossing_checked(None, frame.dx, frame.dy).effects;
    let unreached = on_entry_sent(
        context,
        remote,
        anchor,
        frame.dx,
        frame.dy,
        false,
    ).1.effects;
    assert(stays[0].report() == Some(relative_report(frame.dx as i32, frame.dy as i32)));
    assert(unreached[2].report() == stays[0].report());
}

/// A key of the local keyboard that goes down or up is written to the virtual keyboard just as
/// the grabbed device told it, unless its virtual-key code does not lead back to it.
pub proof fn law_local_key_is_passed_on(context: ContextView, code: u16, down: bool)
    requires
        context.active is None,
        button_of(code) is None,
        !is_one_way_key(code),
    ensures
        ({
            let event = press_events(code, down)[0];
            let effects = on_event(context, event).effects;
            &&& effects.len() == 1
            &&& effects[0].report() == Some(key_report(code, down))
        }),
{
    if windows_vk(code) is Some {
        law_key_round_trip(code);
    }
}

/// A button of the local mouse that goes down or up is written to the virtual mouse just as the
/// grabbed device told it, if no other change follows in the same frame.
pub proof fn law_local_button_is_passed_on(
    context: ContextView,
    pending: PendingInput,
    code: u16,
    down: bool,
)
    requires
        context.active is None,
        button_of(code) is Some,
    ensures
        ({
            let event = press_events(code, down)[0];
            let changed = gathered(pending, event).button;
            &&& changed matches Some((button, pressed)) && {
                let effects = on_mouse_button(context, button, pressed).effects;
                &&& effects.len() == 1
                &&& effects[0].report() matches Some(report) && report.events == press_events(
                    code,
                    down,
                )
            }
        }),
{
}

/// The turns of the local wheels are written to the virtual mouse just as the grabbed devices
/// told them.
pub proof fn law_local_scroll_is_passed_on(context: ContextView, events: Seq<InputEvent>)
    requires
        context.active is None,
        can_gather_all(events),
    ensures
        ({
            let frame = gathered_all(events);
            let effects = on_scroll(context, frame.scroll_x, frame.scroll_y).effects;
            &&& effects.len() == 1
            &&& effects[0].report() matches Some(report) && travel(report.events, REL_WHEEL)
                == travel(events, REL_WHEEL) && travel(report.events, REL_HWHEEL) == travel(
                events,
                REL_HWHEEL,
            )
        }),
{
    law_frame_adds_up_wheels(events);
    let frame = gathered_all(events);
    law_report_turns_by_its_notches(frame.scroll_x, frame.scroll_y);
}

} // verus!

//! What input devices can do: the keys and axes that the virtual devices declare, and which
//! devices are grabbed.

use vstd::prelude::*;

use crate::codes::{
    BTN_LEFT, BTN_MIDDLE, BTN_RIGHT, KEY_CNT, KEY_ENTER, KEY_SPACE, REL_CNT, REL_HWHEEL, REL_WHEEL,
    REL_X, REL_Y,
};
#[allow(unused_imports)]
use crate::codes::{EV_KEY, EV_REL};
#[allow(unused_imports)]
use crate::events::{
    button_report, key_report, law_movement_goes_to_the_mouse, law_presses_go_to_their_device,
    law_wheels_go_to_the_mouse, relative_report, scroll_report, tells_of, InputEvent, MouseButton,
    ReportView, VirtualDevice,
};
use crate::keymap::supported_keyboard_codes;
#[allow(unused_imports)]
use crate::keymap::{evdev_key, is_supported_key, law_mapped_keys_are_supported};

verus! {

/// Lets `evdev::KeyCode` stand in signatures.
#[verifier::external_type_specification]
#[verifier::external_body]
pub struct ExKeyCode(evdev::KeyCode);

/// Lets `evdev::RelativeAxisCode` stand in signatures.
#[verifier::external_type_specification]
#[verifier::external_body]
pub struct ExRelativeAxisCode(evdev::RelativeAxisCode);

/// Lets `evdev::AttributeSetRef`, a borrowed set of keys or axes, stand in signatures.
#[verifier::external_type_specification]
#[verifier::external_body]
#[verifier::reject_recursive_types(T)]
pub struct ExAttributeSetRef<T>(evdev::AttributeSetRef<T>);

/// The codes of the keys in a borrowed set.
pub uninterp spec fn key_codes(keys: &evdev::AttributeSetRef<evdev::KeyCode>) -> Set<u16>;

/// The codes of the axes in a borrowed set.
pub uninterp spec fn axis_codes(axes: &evdev::AttributeSetRef<evdev::RelativeAxisCode>) -> Set<u16>;

/// Calls `evdev::AttributeSetRef::contains` on a set of keys.
///
/// The contract claims that it tells whether the key of that code is in the set, for every
/// code, also one that no device can declare.
#[verifier::external_body]
fn contains_key(keys: &evdev::AttributeSetRef<evdev::KeyCode>, code: u16) -> (found: bool)
    ensures
        found == key_codes(keys).contains(code),
{
    keys.contains(evdev::KeyCode(code))
}

/// Calls `evdev::AttributeSetRef::contains` on a set of axes.
///
/// The contract claims that it tells whether the axis of that code is in the set, for every
/// code, also one that no device can declare.
#[verifier::external_body]
fn contains_axis(axes: &evdev::AttributeSetRef<evdev::RelativeAxisCode>, code: u16) -> (found: bool)
    ensures
        found == axis_codes(axes).contains(code),
{
    axes.contains(evdev::RelativeAxisCode(code))
}

/// A set of keys that a virtual device declares.
///
/// It holds an `evdev::AttributeSet`, whose element bound is private to `evdev`, so the set
/// itself cannot stand in signatures.
#[verifier::external_body]
pub struct KeySet {
    keys: evdev::AttributeSet<evdev::KeyCode>,
}

/// A set of relative axes that a virtual device declares.
///
/// It holds an `evdev::AttributeSet`, as [`KeySet`] does.
#[verifier::external_body]
pub struct AxisSet {
    axes: evdev::AttributeSet<evdev::RelativeAxisCode>,
}

/// The codes of the keys in a [`KeySet`].
pub uninterp spec fn key_set_codes(keys: &KeySet) -> Set<u16>;

/// The codes of the axes in an [`AxisSet`].
pub uninterp spec fn axis_set_codes(axes: &AxisSet) -> Set<u16>;

impl View for KeySet {
    type V = Set<u16>;

    open spec fn view(&self) -> Set<u16> {
        key_set_codes(self)
    }
}

impl View for AxisSet {
    type V = Set<u16>;

    open spec fn view(&self) -> Set<u16> {
        axis_set_codes(self)
    }
}

impl KeySet {
    /// Calls `evdev::AttributeSet::new` for keys; the contract claims that the set is empty.
    #[verifier::external_body]
    fn new() -> (keys: Self)
        ensures
            key_set_codes(&keys) == Set::<u16>::empty(),
    {
        KeySet { keys: evdev::AttributeSet::new() }
    }

    /// Calls `evdev::AttributeSetRef::insert` on the set.
    ///
    /// The contract claims that the key is in the set afterwards, and that no other key comes or
    /// goes. The call panics for a code that no device can declare, which is left out.
    #[verifier::external_body]
    fn insert(&mut self, code: u16)
        requires
            code < KEY_CNT,
        ensures
            key_set_codes(final(self)) == key_set_codes(old(self)).insert(code),
    {
        self.keys.insert(evdev::KeyCode(code))
    }

    /// Borrows the set through the `Deref` of `evdev::AttributeSet`; the contract claims that
    /// the borrowed set holds the same keys.
    #[verifier::external_body]
    fn borrow_set(&self) -> (keys: &evdev::AttributeSetRef<evdev::KeyCode>)
        ensures
            key_codes(keys) == key_set_codes(self),
    {
        &self.keys
    }

    /// The set as the builder of a virtual device takes it.
    pub fn attributes(&self) -> (keys: &evdev::AttributeSetRef<evdev::KeyCode>)
        ensures
            key_codes(keys) == self@,
    {
        self.borrow_set()
    }
}

impl AxisSet {
    /// Calls `evdev::AttributeSet::new` for axes; the contract claims that the set is empty.
    #[verifier::external_body]
    fn new() -> (axes: Self)
        ensures
            axis_set_codes(&axes) == Set::<u16>::empty(),
    {
        AxisSet { axes: evdev::AttributeSet::new() }
    }

    /// Calls `evdev::AttributeSetRef::insert` on the set.
    ///
    /// The contract claims that the axis is in the set afterwards, and that no other axis comes
    /// or goes. The call panics for a code that no device can declare, which is left out.
    #[verifier::external_body]
    fn insert(&mut self, code: u16)
        requires
            code < REL_CNT,
        ensures
            axis_set_codes(final(self)) == axis_set_codes(old(self)).insert(code),
    {
        self.axes.insert(evdev::RelativeAxisCode(code))
    }

    /// Borrows the set through the `Deref` of `evdev::AttributeSet`; the contract claims that
    /// the borrowed set holds the same axes.
    #[verifier::external_body]
    fn borrow_set(&self) -> (axes: &evdev::AttributeSetRef<evdev::RelativeAxisCode>)
        ensures
            axis_codes(axes) == axis_set_codes(self),
    {
        &self.axes
    }

    /// The set as the builder of a virtual device takes it.
    pub fn attributes(&self) -> (axes: &evdev::AttributeSetRef<evdev::RelativeAxisCode>)
        ensures
            axis_codes(axes) == self@,
    {
        self.borrow_set()
    }
}

/// Whether a virtual device declares what an event is about: an axis, a button or a key.
pub open spec fn declares(device: VirtualDevice, event: InputEvent) -> bool {
    if event.kind == EV_REL {
        device is Mouse && (event.code == REL_X || event.code == REL_Y || event.code == REL_WHEEL
            || event.code == REL_HWHEEL)
    } else if event.kind == EV_KEY {
        match device {
            VirtualDevice::Mouse => event.code == BTN_LEFT || event.code == BTN_RIGHT || event.code
                == BTN_MIDDLE,
            VirtualDevice::Keyboard => is_supported_key(event.code),
        }
    } else {
        true
    }
}

/// The buttons that the virtual mouse declares.
pub fn mouse_keys() -> (keys: KeySet)
    ensures
        keys@ == set![BTN_LEFT, BTN_RIGHT, BTN_MIDDLE],
        forall|event: InputEvent|
            event.kind == EV_KEY ==> (#[trigger] declares(VirtualDevice::Mouse, event)
                <==> keys@.contains(event.code)),
{
    let mut keys = KeySet::new();
    keys.insert(BTN_LEFT);
    keys.insert(BTN_RIGHT);
    keys.insert(BTN_MIDDLE);
    keys
}

/// The axes that the virtual mouse declares.
pub fn mouse_axes() -> (axes: AxisSet)
    ensures
        axes@ == set![REL_X, REL_Y, REL_WHEEL, REL_HWHEEL],
        forall|event: InputEvent|
            event.kind == EV_REL ==> (#[trigger] declares(VirtualDevice::Mouse, event)
                <==> axes@.contains(event.code)),
{
    let mut axes = AxisSet::new();
    axes.insert(REL_X);
    axes.insert(REL_Y);
    axes.insert(REL_WHEEL);
    axes.insert(REL_HWHEEL);
    axes
}

/// The keys that the virtual keyboard declares.
pub fn keyboard_keys() -> (keys: KeySet)
    ensures
        forall|code: u16| #[trigger] keys@.contains(code) <==> is_supported_key(code),
        forall|event: InputEvent|
            event.kind == EV_KEY ==> (#[trigger] declares(VirtualDevice::Keyboard, event)
                <==> keys@.contains(event.code)),
{
    let codes = supported_keyboard_codes();
    let mut keys = KeySet::new();
    let mut i: usize = 0;
    while i < codes.len()
        invariant
            i <= codes@.len(),
            forall|j: int| 0 <= j < codes@.len() ==> #[trigger] codes@[j] < KEY_CNT,
            forall|code: u16| #[trigger]
                keys@.contains(code) <==> codes@.take(i as int).contains(code),
        decreases codes@.len() - i,
    {
        let ghost before = codes@.take(i as int);
        let ghost after = codes@.take(i + 1);
        assert(after == before.push(codes@[i as int]));
        let ghost inserted = keys@;
        keys.insert(codes[i]);
        assert forall|code: u16| #[trigger] keys@.contains(code) <==> after.contains(code) by {
            assert(inserted.contains(code) <==> before.contains(code));
            if before.contains(code) {
                assert(after[before.index_of(code)] == code);
            } else if after.contains(code) {
                let j = after.index_of(code);
                assert(j == i || before[j] == code);
            }
            assert(after[i as int] == codes@[i as int]);
        }
        i = i + 1;
    }
    assert(codes@.take(i as int) == codes@);
    keys
}

/// Whether a device with these axes and keys is a mouse: it moves on both axes and has a left
/// or a right button.
pub open spec fn mouse_like(
    axes: Option<&evdev::AttributeSetRef<evdev::RelativeAxisCode>>,
    keys: Option<&evdev::AttributeSetRef<evdev::KeyCode>>,
) -> bool {
    &&& axes matches Some(axes) && axis_codes(axes).contains(REL_X) && axis_codes(axes).contains(
        REL_Y,
    )
    &&& keys matches Some(keys) && (key_codes(keys).contains(BTN_LEFT) || key_codes(keys).contains(
        BTN_RIGHT,
    ))
}

/// Whether a device with these axes and keys is a keyboard: it has a space bar and an enter key,
/// and is not a mouse.
pub open spec fn keyboard_like(
    axes: Option<&evdev::AttributeSetRef<evdev::RelativeAxisCode>>,
    keys: Option<&evdev::AttributeSetRef<evdev::KeyCode>>,
) -> bool {
    &&& !mouse_like(axes, keys)
    &&& keys matches Some(keys) && key_codes(keys).contains(KEY_SPACE) && key_codes(keys).contains(
        KEY_ENTER,
    )
}

/// Tells a mouse by the axes and keys that the device supports.
pub fn is_mouse(
    axes: Option<&evdev::AttributeSetRef<evdev::RelativeAxisCode>>,
    keys: Option<&evdev::AttributeSetRef<evdev::KeyCode>>,
) -> (mouse: bool)
    ensures
        mouse == mouse_like(axes, keys),
{
    let moves = match axes {
        Some(axes) => contains_axis(axes, REL_X) && contains_axis(axes, REL_Y),
        None => false,
    };
    moves && match keys {
        Some(keys) => contains_key(keys, BTN_LEFT) || contains_key(keys, BTN_RIGHT),
        None => false,
    }
}

/// Tells a keyboard by the axes and keys that the device supports.
///
/// A mouse is never taken for a keyboard, so that the mouse interface of a combined dongle is
/// not grabbed twice.
pub fn is_keyboard(
    axes: Option<&evdev::AttributeSetRef<evdev::RelativeAxisCode>>,
    keys: Option<&evdev::AttributeSetRef<evdev::KeyCode>>,
) -> (keyboard: bool)
    ensures
        keyboard == keyboard_like(axes, keys),
{
    if is_mouse(axes, keys) {
        return false;
    }
    match keys {
        Some(keys) => contains_key(keys, KEY_SPACE) && contains_key(keys, KEY_ENTER),
        None => false,
    }
}

/// No device is grabbed both as a mouse and as a keyboard.
pub proof fn law_no_device_is_grabbed_twice(
    axes: Option<&evdev::AttributeSetRef<evdev::RelativeAxisCode>>,
    keys: Option<&evdev::AttributeSetRef<evdev::KeyCode>>,
)
    ensures
        !(mouse_like(axes, keys) && keyboard_like(axes, keys)),
{
}

/// Whether the device that a report is for declares all that the report tells of.
pub open spec fn can_be_written(report: ReportView) -> bool {
    forall|i: int|
        0 <= i < report.events.len() ==> declares(report.device, #[trigger] report.events[i])
}

/// Every report is for a device that declares all of it: movements, wheels and buttons are for the
/// virtual mouse, and the key of every virtual-key code is for the virtual keyboard.
pub proof fn law_reports_can_be_written(
    dx: i32,
    dy: i32,
    button: MouseButton,
    key_code: u16,
    down: bool,
)
    ensures
        can_be_written(relative_report(dx, dy)),
        can_be_written(scroll_report(dx, dy)),
        can_be_written(button_report(button, down)),
        evdev_key(key_code) matches Some(code) ==> can_be_written(key_report(code, down)),
{
    law_movement_goes_to_the_mouse(dx, dy);
    law_wheels_go_to_the_mouse(dx, dy);
    law_presses_go_to_their_device(button, 0, down);
    law_mapped_keys_are_supported(0, key_code);
    let moves = relative_report(dx, dy);
    assert forall|i: int| 0 <= i < moves.events.len() implies declares(
        moves.device,
        #[trigger] moves.events[i],
    ) by {
        if moves.events[i].kind == EV_REL {
            assert(tells_of(moves.events, moves.events[i].code));
        }
    }
    let turns = scroll_report(dx, dy);
    assert forall|i: int| 0 <= i < turns.events.len() implies declares(
        turns.device,
        #[trigger] turns.events[i],
    ) by {
        if turns.events[i].kind == EV_REL {
            assert(tells_of(turns.events, turns.events[i].code));
        }
    }
}

/// A device is a mouse just where it moves on both axes and has a left or a right button, whatever
/// else it has.
pub proof fn law_mice_move_and_click(
    axes: &evdev::AttributeSetRef<evdev::RelativeAxisCode>,
    keys: &evdev::AttributeSetRef<evdev::KeyCode>,
)
    ensures
        ({
            let moves = axis_codes(axes);
            let has = key_codes(keys);
            let mouse = mouse_like(Some(axes), Some(keys));
            &&& moves.contains(REL_X) && moves.contains(REL_Y) && has.contains(BTN_LEFT) ==> mouse
            &&& moves.contains(REL_X) && moves.contains(REL_Y) && has.contains(BTN_RIGHT) ==> mouse
            &&& mouse ==> moves.contains(REL_X) && moves.contains(REL_Y)
            &&& mouse ==> has.contains(BTN_LEFT) || has.contains(BTN_RIGHT)
            &&& !mouse_like(None, Some(keys))
            &&& !mouse_like(Some(axes), None)
            &&& !mouse_like(None, None)
        }),
{
}

/// A device that has a space bar and an enter key is grabbed, as a keyboard unless it is a mouse,
/// and no other device counts as a keyboard.
pub proof fn law_keyboards_have_space_and_enter(
    axes: Option<&evdev::AttributeSetRef<evdev::RelativeAxisCode>>,
    keys: &evdev::AttributeSetRef<evdev::KeyCode>,
)
    ensures
        ({
            let has = key_codes(keys);
            let keyboard = keyboard_like(axes, Some(keys));
            &&& has.contains(KEY_SPACE) && has.contains(KEY_ENTER) ==> keyboard != mouse_like(
                axes,
                Some(keys),
            )
            &&& keyboard ==> has.contains(KEY_SPACE) && has.contains(KEY_ENTER)
            &&& !keyboard_like(axes, None)
        }),
{
}

} // verus!

//! Screens, and the position of the pointer on them.
//!
//! Positions are fixed-point numbers, so that the centre of a screen of odd width, and whatever
//! lies between two pixels, is held exactly. From one pixel on they are at least as fine as
//! double-precision numbers, and they reach far beyond the last pixel that those tell from the
//! next.

use vstd::prelude::*;

verus! {

/// Parts that a pixel is divided into: as many as double-precision numbers tell apart from one to
/// two.
pub const SUBPIXELS: i128 = 0x10_0000_0000_0000;

/// A position, in parts of a pixel.
#[derive(Clone, Copy, Debug, PartialEq, Eq, Structural)]
pub struct Point {
    pub x: i128,
    pub y: i128,
}

/// A screen, in pixels of the layout that it belongs to.
#[derive(Clone, Copy, Debug, PartialEq, Eq, Structural)]
pub struct Screen {
    pub x: i32,
    pub y: i32,
    pub width: i32,
    pub height: i32,
    pub is_primary: bool,
}

/// A machine and its screens.
#[derive(Debug)]
pub struct Device {
    /// `"local"` for this machine.
    pub role: String,
    pub screens: Vec<Screen>,
}

/// The machines that share the keyboard and the mouse.
#[derive(Debug)]
pub struct LayoutState {
    pub devices: Vec<Device>,
}

/// The number of [`SUBPIXELS`] in a number of pixels.
pub open spec fn subpixels(pixels: int) -> int {
    pixels * SUBPIXELS
}

/// The nearest value between two bounds.
pub open spec fn clamp(value: int, low: int, high: int) -> int {
    if value < low {
        low
    } else if value > high {
        high
    } else {
        value
    }
}

/// A coordinate moved by a number of pixels, as far as coordinates reach.
pub open spec fn moved(coordinate: i128, pixels: i64) -> i128 {
    clamp(coordinate + subpixels(pixels as int), i128::MIN as int, i128::MAX as int) as i128
}

/// A position moved by a number of pixels on each axis.
pub open spec fn moved_point(from: Point, dx: i64, dy: i64) -> Point {
    Point { x: moved(from.x, dx), y: moved(from.y, dy) }
}

/// Moves a coordinate by a number of pixels; it stops where coordinates end.
pub(crate) fn move_coordinate(coordinate: i128, pixels: i64) -> (to: i128)
    ensures
        to == moved(coordinate, pixels),
{
    let by: i128 = pixels as i128 * SUBPIXELS;
    if by > 0 && coordinate > i128::MAX - by {
        i128::MAX
    } else if by < 0 && coordinate < i128::MIN - by {
        i128::MIN
    } else {
        coordinate + by
    }
}

/// Moves a position by a number of pixels on each axis.
pub(crate) fn move_point(from: Point, dx: i64, dy: i64) -> (to: Point)
    ensures
        to == moved_point(from, dx, dy),
{
    Point { x: move_coordinate(from.x, dx), y: move_coordinate(from.y, dy) }
}

/// Whether one coordinate lies a number of pixels from another, or at the end of the coordinates
/// where they do not reach that far.
pub open spec fn is_moved_by(from: i128, to: i128, pixels: i64) -> bool {
    let exact = from + pixels * SUBPIXELS;
    &&& i128::MIN <= exact <= i128::MAX ==> to == exact
    &&& exact > i128::MAX ==> to == i128::MAX
    &&& exact < i128::MIN ==> to == i128::MIN
}

/// A movement leads just as far as it says, wherever coordinates reach that far, and otherwise to
/// their end in its direction.
pub proof fn law_movement_is_exact(from: Point, dx: i64, dy: i64)
    ensures
        is_moved_by(from.x, moved_point(from, dx, dy).x, dx),
        is_moved_by(from.y, moved_point(from, dx, dy).y, dy),
{
}

impl Screen {
    /// The first column to the right of the screen.
    pub open spec fn right(self) -> int {
        self.x + self.width
    }

    /// The first row below the screen.
    pub open spec fn bottom(self) -> int {
        self.y + self.height
    }

    /// Whether the far edges are coordinates of the layout.
    pub open spec fn has_edges(self) -> bool {
        &&& i32::MIN <= self.right() <= i32::MAX
        &&& i32::MIN <= self.bottom() <= i32::MAX
    }

    /// Whether a position is on the screen.
    pub open spec fn holds(self, at: Point) -> bool {
        &&& subpixels(self.x as int) <= at.x < subpixels(self.right())
        &&& subpixels(self.y as int) <= at.y < subpixels(self.bottom())
    }

    /// The middle of the screen.
    pub open spec fn center(self) -> Point {
        Point {
            x: (subpixels(self.x as int) + subpixels(self.width as int) / 2) as i128,
            y: (subpixels(self.y as int) + subpixels(self.height as int) / 2) as i128,
        }
    }

    /// Whether a position is on the screen.
    fn is_under(&self, at: Point) -> (under: bool)
        ensures
            under == self.holds(at),
    {
        let left: i128 = self.x as i128 * SUBPIXELS;
        let right: i128 = (self.x as i128 + self.width as i128) * SUBPIXELS;
        let top: i128 = self.y as i128 * SUBPIXELS;
        let bottom: i128 = (self.y as i128 + self.height as i128) * SUBPIXELS;
        at.x >= left && at.x < right && at.y >= top && at.y < bottom
    }

    /// Whether the far edges are coordinates of the layout.
    fn edges_exist(&self) -> (exist: bool)
        ensures
            exist == self.has_edges(),
    {
        let right: i64 = self.x as i64 + self.width as i64;
        let bottom: i64 = self.y as i64 + self.height as i64;
        right >= i32::MIN as i64 && right <= i32::MAX as i64 && bottom >= i32::MIN as i64
            && bottom <= i32::MAX as i64
    }
}

/// The first machine of a layout whose role is `"local"`.
pub open spec fn first_local(devices: Seq<Device>) -> Option<Device>
    decreases devices.len(),
{
    if devices.len() == 0 {
        None
    } else if devices[0].role@ == "local"@ {
        Some(devices[0])
    } else {
        first_local(devices.drop_first())
    }
}

/// The machine whose screens bound the pointer: the local one, or else the first of all.
pub open spec fn bounding_device(devices: Seq<Device>) -> Option<Device> {
    match first_local(devices) {
        Some(device) => Some(device),
        None => if devices.len() == 0 {
            None
        } else {
            Some(devices[0])
        },
    }
}

/// The first primary screen.
pub open spec fn first_primary(screens: Seq<Screen>) -> Option<Screen>
    decreases screens.len(),
{
    if screens.len() == 0 {
        None
    } else if screens[0].is_primary {
        Some(screens[0])
    } else {
        first_primary(screens.drop_first())
    }
}

/// The screen that the pointer starts on: the local primary screen, or else the first local one.
pub open spec fn start_screen(devices: Seq<Device>) -> Option<Screen> {
    match first_local(devices) {
        Some(device) => match first_primary(device.screens@) {
            Some(screen) => Some(screen),
            None => if device.screens@.len() == 0 {
                None
            } else {
                Some(device.screens@[0])
            },
        },
        None => None,
    }
}

/// Whether one of the screens holds a position.
pub open spec fn any_holds(screens: Seq<Screen>, at: Point) -> bool {
    exists|i: int| 0 <= i < screens.len() && (#[trigger] screens[i]).holds(at)
}

/// The leftmost column of all the screens.
pub open spec fn union_left(screens: Seq<Screen>) -> int {
    screens.map_values(|screen: Screen| screen.x as int).min()
}

/// The first column to the right of all the screens.
pub open spec fn union_right(screens: Seq<Screen>) -> int {
    screens.map_values(|screen: Screen| screen.right()).max()
}

/// The topmost row of all the screens.
pub open spec fn union_top(screens: Seq<Screen>) -> int {
    screens.map_values(|screen: Screen| screen.y as int).min()
}

/// The first row below all the screens.
pub open spec fn union_bottom(screens: Seq<Screen>) -> int {
    screens.map_values(|screen: Screen| screen.bottom()).max()
}

/// A position brought into the rectangle around the screens: where a screen holds it, it stays,
/// and any other goes to the nearest one in the rectangle, whether or not a screen is there.
pub open spec fn clamped_to_screens(screens: Seq<Screen>, at: Point) -> Point {
    if screens.len() == 0 || any_holds(screens, at) {
        at
    } else {
        Point {
            x: clamp(
                at.x as int,
                subpixels(union_left(screens)),
                subpixels(union_right(screens) - 1),
            ) as i128,
            y: clamp(
                at.y as int,
                subpixels(union_top(screens)),
                subpixels(union_bottom(screens) - 1),
            ) as i128,
        }
    }
}

/// A position brought into the rectangle around the screens that bound the pointer.
pub open spec fn clamped_cursor(layout: LayoutState, at: Point) -> Point {
    match bounding_device(layout.devices@) {
        Some(device) => clamped_to_screens(device.screens@, at),
        None => at,
    }
}

/// Whether a position can be brought into the rectangle around the screens: the edges of the
/// screens up to the one that holds it exist, and where none holds it, the rectangle is not empty.
pub open spec fn screens_can_clamp(screens: Seq<Screen>, at: Point) -> bool {
    &&& forall|i: int|
        0 <= i < screens.len() && !any_holds(screens.take(i), at) ==> (
        #[trigger] screens[i]).has_edges()
    &&& screens.len() != 0 && !any_holds(screens, at) ==> {
        &&& union_left(screens) < union_right(screens)
        &&& union_top(screens) < union_bottom(screens)
    }
}

/// Whether a position can be brought into the rectangle around the screens that bound the
/// pointer.
pub open spec fn can_clamp(layout: LayoutState, at: Point) -> bool {
    match bounding_device(layout.devices@) {
        Some(device) => screens_can_clamp(device.screens@, at),
        None => true,
    }
}

/// Finds the first machine whose role is `"local"`.
fn find_local(devices: &Vec<Device>) -> (found: Option<usize>)
    ensures
        match found {
            Some(i) => i < devices@.len() && first_local(devices@) == Some(devices@[i as int]),
            None => first_local(devices@) is None,
        },
{
    let local = "local".to_string();
    let mut i: usize = 0;
    assert(devices@.skip(0) == devices@);
    while i < devices.len()
        invariant
            i <= devices@.len(),
            local@ == "local"@,
            first_local(devices@) == first_local(devices@.skip(i as int)),
        decreases devices@.len() - i,
    {
        assert(devices@.skip(i as int).drop_first() == devices@.skip(i + 1));
        if devices[i].role == local {
            return Some(i);
        }
        i = i + 1;
    }
    None
}

/// Finds the first primary screen.
fn find_primary(screens: &Vec<Screen>) -> (found: Option<Screen>)
    ensures
        found == first_primary(screens@),
{
    let mut i: usize = 0;
    assert(screens@.skip(0) == screens@);
    while i < screens.len()
        invariant
            i <= screens@.len(),
            first_primary(screens@) == first_primary(screens@.skip(i as int)),
        decreases screens@.len() - i,
    {
        assert(screens@.skip(i as int).drop_first() == screens@.skip(i + 1));
        if screens[i].is_primary {
            return Some(screens[i]);
        }
        i = i + 1;
    }
    None
}

/// The position that the pointer starts at: the middle of the local primary screen, or of the
/// first local screen where none is primary, or the origin where there is no local screen.
pub fn initial_cursor(native_layout: &LayoutState) -> (cursor: Point)
    ensures
        cursor == match start_screen(native_layout.devices@) {
            Some(screen) => screen.center(),
            None => Point { x: 0, y: 0 },
        },
{
    if let Some(i) = find_local(&native_layout.devices) {
        let screens = &native_layout.devices[i].screens;
        let start: Option<Screen> = match find_primary(screens) {
            Some(screen) => Some(screen),
            None => if screens.len() == 0 {
                None
            } else {
                Some(screens[0])
            },
        };
        if let Some(screen) = start {
            return Point {
                x: screen.x as i128 * SUBPIXELS + screen.width as i128 * (SUBPIXELS / 2),
                y: screen.y as i128 * SUBPIXELS + screen.height as i128 * (SUBPIXELS / 2),
            };
        }
    }
    Point { x: 0, y: 0 }
}

/// Finds the machine whose screens bound the pointer.
fn find_bounding_device(devices: &Vec<Device>) -> (found: Option<usize>)
    ensures
        match found {
            Some(i) => i < devices@.len() && bounding_device(devices@) == Some(devices@[i as int]),
            None => bounding_device(devices@) is None,
        },
{
    match find_local(devices) {
        Some(i) => Some(i),
        None => if devices.len() == 0 {
            None
        } else {
            Some(0)
        },
    }
}

/// The rectangle around screens, in pixels: `right` and `bottom` lie just outside of it.
struct Union {
    left: i64,
    right: i64,
    top: i64,
    bottom: i64,
}

/// Measures the rectangle around screens.
fn measure_union(screens: &Vec<Screen>) -> (union: Union)
    requires
        screens@.len() > 0,
    ensures
        union.left == union_left(screens@),
        union.right == union_right(screens@),
        union.top == union_top(screens@),
        union.bottom == union_bottom(screens@),
{
    let first = screens[0];
    let mut left: i64 = first.x as i64;
    let mut right: i64 = first.x as i64 + first.width as i64;
    let mut top: i64 = first.y as i64;
    let mut bottom: i64 = first.y as i64 + first.height as i64;
    let mut i: usize = 1;
    while i < screens.len()
        invariant
            1 <= i <= screens@.len(),
            exists|j: int| 0 <= j < i && left == (#[trigger] screens@[j]).x,
            exists|j: int| 0 <= j < i && right == (#[trigger] screens@[j]).right(),
            exists|j: int| 0 <= j < i && top == (#[trigger] screens@[j]).y,
            exists|j: int| 0 <= j < i && bottom == (#[trigger] screens@[j]).bottom(),
            forall|j: int|
                0 <= j < i ==> {
                    let screen = #[trigger] screens@[j];
                    &&& left <= screen.x
                    &&& screen.right() <= right
                    &&& top <= screen.y
                    &&& screen.bottom() <= bottom
                },
        decreases screens@.len() - i,
    {
        let screen = screens[i];
        let screen_right: i64 = screen.x as i64 + screen.width as i64;
        let screen_bottom: i64 = screen.y as i64 + screen.height as i64;
        if (screen.x as i64) < left {
            left = screen.x as i64;
        }
        if screen_right > right {
            right = screen_right;
        }
        if (screen.y as i64) < top {
            top = screen.y as i64;
        }
        if screen_bottom > bottom {
            bottom = screen_bottom;
        }
        i = i + 1;
    }
    proof {
        lemma_union_edges(screens@);
    }
    Union { left, right, top, bottom }
}

/// Clamps a coordinate to pixels `first` to `last`.
fn clamp_coordinate(value: i128, first: i64, last: i64) -> (nearest: i128)
    requires
        first <= last,
    ensures
        nearest == clamp(value as int, subpixels(first as int), subpixels(last as int)),
{
    let low: i128 = first as i128 * SUBPIXELS;
    let high: i128 = last as i128 * SUBPIXELS;
    if value < low {
        low
    } else if value > high {
        high
    } else {
        value
    }
}

/// Finds out whether one of the screens holds a position.
fn any_screen_under(screens: &Vec<Screen>, at: Point) -> (under: bool)
    ensures
        under == any_holds(screens@, at),
{
    let mut i: usize = 0;
    while i < screens.len()
        invariant
            i <= screens@.len(),
            forall|j: int| 0 <= j < i ==> !(#[trigger] screens@[j]).holds(at),
        decreases screens@.len() - i,
    {
        if screens[i].is_under(at) {
            return true;
        }
        i = i + 1;
    }
    false
}

/// Brings a position into the rectangle around the screens of the local machine.
///
/// A position on one of the screens stays where it is. Any other is moved to the nearest
/// position in the rectangle around all of them, which may lie between screens. Without a local
/// machine the first machine's screens count, and without screens the position is free.
pub fn clamp_cursor(native_layout: &LayoutState, at: Point) -> (cursor: Point)
    requires
        can_clamp(*native_layout, at),
    ensures
        cursor == clamped_cursor(*native_layout, at),
{
    if let Some(i) = find_bounding_device(&native_layout.devices) {
        let screens = &native_layout.devices[i].screens;
        if screens.len() == 0 || any_screen_under(screens, at) {
            return at;
        }
        let union = measure_union(screens);
        return Point {
            x: clamp_coordinate(at.x, union.left, union.right - 1),
            y: clamp_coordinate(at.y, union.top, union.bottom - 1),
        };
    }
    at
}

/// Finds out whether a position can be brought into the rectangle around the screens, as
/// [`clamp_cursor`] requires.
pub fn cursor_can_be_clamped(native_layout: &LayoutState, at: Point) -> (possible: bool)
    ensures
        possible == can_clamp(*native_layout, at),
{
    let screens = match find_bounding_device(&native_layout.devices) {
        Some(i) => &native_layout.devices[i].screens,
        None => return true,
    };
    let mut i: usize = 0;
    while i < screens.len()
        invariant
            i <= screens@.len(),
            !any_holds(screens@.take(i as int), at),
            forall|j: int| 0 <= j < i ==> (#[trigger] screens@[j]).has_edges(),
            bounding_device(native_layout.devices@) is Some,
            bounding_device(native_layout.devices@)->0.screens@ == screens@,
        decreases screens@.len() - i,
    {
        let screen = screens[i];
        if !screen.edges_exist() {
            assert(!screens@[i as int].has_edges());
            return false;
        }
        if screen.is_under(at) {
            assert(screens@[i as int].holds(at));
            assert forall|j: int|
                0 <= j < screens@.len() && !any_holds(screens@.take(j), at) implies (
            #[trigger] screens@[j]).has_edges() by {
                if j > i {
                    assert(screens@.take(j)[i as int].holds(at));
                }
            }
            return true;
        }
        assert(!any_holds(screens@.take(i + 1), at)) by {
            assert forall|j: int| 0 <= j < i + 1 implies !(#[trigger] screens@.take(i + 1)[j]).holds(
                at,
            ) by {
                if j < i {
                    assert(!screens@.take(i as int)[j].holds(at));
                }
            }
        }
        i = i + 1;
    }
    assert(screens@.take(i as int) == screens@);
    if screens.len() == 0 {
        return true;
    }
    let union = measure_union(screens);
    union.left < union.right && union.top < union.bottom
}

/// The rectangle around screens covers each of them, and each of its edges is that of a screen.
proof fn lemma_union_edges(screens: Seq<Screen>)
    requires
        screens.len() > 0,
    ensures
        forall|i: int|
            0 <= i < screens.len() ==> {
                let screen = #[trigger] screens[i];
                &&& union_left(screens) <= screen.x
                &&& screen.right() <= union_right(screens)
                &&& union_top(screens) <= screen.y
                &&& screen.bottom() <= union_bottom(screens)
            },
        exists|i: int| 0 <= i < screens.len() && union_left(screens) == (#[trigger] screens[i]).x,
        exists|i: int|
            0 <= i < screens.len() && union_right(screens) == (#[trigger] screens[i]).right(),
        exists|i: int| 0 <= i < screens.len() && union_top(screens) == (#[trigger] screens[i]).y,
        exists|i: int|
            0 <= i < screens.len() && union_bottom(screens) == (#[trigger] screens[i]).bottom(),
{
    let lefts = screens.map_values(|screen: Screen| screen.x as int);
    let rights = screens.map_values(|screen: Screen| screen.right());
    let tops = screens.map_values(|screen: Screen| screen.y as int);
    let bottoms = screens.map_values(|screen: Screen| screen.bottom());
    lefts.min_ensures();
    rights.max_ensures();
    tops.min_ensures();
    bottoms.max_ensures();
    assert forall|i: int| 0 <= i < screens.len() implies {
        let screen = #[trigger] screens[i];
        &&& union_left(screens) <= screen.x
        &&& screen.right() <= union_right(screens)
        &&& union_top(screens) <= screen.y
        &&& screen.bottom() <= union_bottom(screens)
    } by {
        assert(lefts[i] == screens[i].x && rights[i] == screens[i].right());
        assert(tops[i] == screens[i].y && bottoms[i] == screens[i].bottom());
    }
    assert(screens[lefts.index_of(lefts.min())].x == union_left(screens));
    assert(screens[rights.index_of(rights.max())].right() == union_right(screens));
    assert(screens[tops.index_of(tops.min())].y == union_top(screens));
    assert(screens[bottoms.index_of(bottoms.max())].bottom() == union_bottom(screens));
}

/// The pointer is kept in the rectangle around the screens that bound it.
pub proof fn law_cursor_stays_in_rectangle(layout: LayoutState, at: Point)
    requires
        can_clamp(layout, at),
        bounding_device(layout.devices@) matches Some(device) && device.screens@.len() > 0,
    ensures
        ({
            let screens = bounding_device(layout.devices@)->0.screens@;
            let cursor = clamped_cursor(layout, at);
            &&& subpixels(union_left(screens)) <= cursor.x < subpixels(union_right(screens))
            &&& subpixels(union_top(screens)) <= cursor.y < subpixels(union_bottom(screens))
        }),
{
    let screens = bounding_device(layout.devices@)->0.screens@;
    lemma_union_edges(screens);
}

/// A pointer that is on a screen is left where it is.
pub proof fn law_cursor_on_a_screen_is_kept(layout: LayoutState, at: Point)
    requires
        bounding_device(layout.devices@) matches Some(device) && any_holds(device.screens@, at),
    ensures
        clamped_cursor(layout, at) == at,
{
}

/// Bringing the pointer into the rectangle around the screens a second time does not move it.
pub proof fn law_clamping_is_idempotent(layout: LayoutState, at: Point)
    requires
        can_clamp(layout, at),
    ensures
        clamped_cursor(layout, clamped_cursor(layout, at)) == clamped_cursor(layout, at),
{
    if let Some(device) = bounding_device(layout.devices@) {
        if device.screens@.len() > 0 {
            lemma_union_edges(device.screens@);
        }
    }
}

/// Whether a machine is the first of a layout that is the local one.
pub open spec fn is_first_local(devices: Seq<Device>, d: int) -> bool {
    &&& 0 <= d < devices.len()
    &&& devices[d].role@ == "local"@
    &&& forall|i: int| 0 <= i < d ==> (#[trigger] devices[i]).role@ != "local"@
}

/// Whether a layout has no local machine.
pub open spec fn has_no_local(devices: Seq<Device>) -> bool {
    forall|i: int| 0 <= i < devices.len() ==> (#[trigger] devices[i]).role@ != "local"@
}

/// The local machine is found wherever it stands in the layout.
proof fn lemma_first_local(devices: Seq<Device>, d: int)
    ensures
        is_first_local(devices, d) ==> first_local(devices) == Some(devices[d]),
        has_no_local(devices) ==> first_local(devices) is None,
    decreases devices.len(),
{
    if devices.len() > 0 && devices[0].role@ != "local"@ {
        let rest = devices.drop_first();
        lemma_first_local(rest, d - 1);
        if is_first_local(devices, d) {
            assert(rest[d - 1] == devices[d]);
            assert forall|i: int| 0 <= i < d - 1 implies (#[trigger] rest[i]).role@ != "local"@ by {
                assert(rest[i] == devices[i + 1]);
            }
        }
        if has_no_local(devices) {
            assert forall|i: int| 0 <= i < rest.len() implies (#[trigger] rest[i]).role@
                != "local"@ by {
                assert(rest[i] == devices[i + 1]);
            }
        }
    }
}

/// The first primary screen is found wherever it stands among the screens.
proof fn lemma_first_primary(screens: Seq<Screen>, s: int)
    ensures
        0 <= s < screens.len() && screens[s].is_primary && (forall|i: int|
            0 <= i < s ==> !(#[trigger] screens[i]).is_primary) ==> first_primary(screens) == Some(
            screens[s],
        ),
        (forall|i: int| 0 <= i < screens.len() ==> !(#[trigger] screens[i]).is_primary)
            ==> first_primary(screens) is None,
    decreases screens.len(),
{
    if screens.len() > 0 && !screens[0].is_primary {
        let rest = screens.drop_first();
        lemma_first_primary(rest, s - 1);
        if 0 <= s < screens.len() && screens[s].is_primary && (forall|i: int|
            0 <= i < s ==> !(#[trigger] screens[i]).is_primary) {
            assert(rest[s - 1] == screens[s]);
            assert forall|i: int| 0 <= i < s - 1 implies !(#[trigger] rest[i]).is_primary by {
                assert(rest[i] == screens[i + 1]);
            }
        }
        if forall|i: int| 0 <= i < screens.len() ==> !(#[trigger] screens[i]).is_primary {
            assert forall|i: int| 0 <= i < rest.len() implies !(#[trigger] rest[i]).is_primary by {
                assert(rest[i] == screens[i + 1]);
            }
        }
    }
}

/// The pointer starts on the first primary screen of the local machine.
pub proof fn law_pointer_starts_on_the_primary_screen(devices: Seq<Device>, d: int, s: int)
    requires
        is_first_local(devices, d),
        0 <= s < devices[d].screens@.len(),
        devices[d].screens@[s].is_primary,
        forall|i: int| 0 <= i < s ==> !(#[trigger] devices[d].screens@[i]).is_primary,
    ensures
        start_screen(devices) == Some(devices[d].screens@[s]),
{
    lemma_first_local(devices, d);
    lemma_first_primary(devices[d].screens@, s);
}

/// Where no screen of the local machine is primary, the pointer starts on the first of them.
/// Without a local screen there is none to start on.
pub proof fn law_pointer_starts_on_the_first_screen(devices: Seq<Device>, d: int)
    ensures
        is_first_local(devices, d) && devices[d].screens@.len() > 0 && (forall|i: int|
            0 <= i < devices[d].screens@.len() ==> !(#[trigger] devices[d].screens@[i]).is_primary)
            ==> start_screen(devices) == Some(devices[d].screens@[0]),
        is_first_local(devices, d) && devices[d].screens@.len() == 0 ==> start_screen(
            devices,
        ) is None,
        has_no_local(devices) ==> start_screen(devices) is None,
{
    lemma_first_local(devices, d);
    lemma_first_primary(devices[d].screens@, 0);
}

/// The middle of a screen is as far from its left edge as from its right one, and as far from its
/// top as from its bottom.
pub proof fn law_middle_is_in_the_middle(screen: Screen)
    ensures
        screen.center().x - screen.x * SUBPIXELS == (screen.x + screen.width) * SUBPIXELS
            - screen.center().x,
        screen.center().y - screen.y * SUBPIXELS == (screen.y + screen.height) * SUBPIXELS
            - screen.center().y,
{
}

/// The pointer starts as far from the left edge of the screen it starts on as from the right one,
/// and as far from the top as from the bottom.
pub proof fn law_pointer_starts_in_the_middle(
    layout: LayoutState,
    cursor: Point,
    d: int,
    s: int,
)
    requires
        call_ensures(initial_cursor, (&layout,), cursor),
        is_first_local(layout.devices@, d),
        0 <= s < layout.devices@[d].screens@.len(),
        layout.devices@[d].screens@[s].is_primary || s == 0,
        forall|i: int| 0 <= i < s ==> !(#[trigger] layout.devices@[d].screens@[i]).is_primary,
        !layout.devices@[d].screens@[s].is_primary ==> forall|i: int|
            0 <= i < layout.devices@[d].screens@.len()
                ==> !(#[trigger] layout.devices@[d].screens@[i]).is_primary,
    ensures
        ({
            let screen = layout.devices@[d].screens@[s];
            &&& cursor.x - screen.x * SUBPIXELS == (screen.x + screen.width) * SUBPIXELS - cursor.x
            &&& cursor.y - screen.y * SUBPIXELS == (screen.y + screen.height) * SUBPIXELS - cursor.y
        }),
{
    if layout.devices@[d].screens@[s].is_primary {
        law_pointer_starts_on_the_primary_screen(layout.devices@, d, s);
    } else {
        law_pointer_starts_on_the_first_screen(layout.devices@, d);
    }
    law_middle_is_in_the_middle(layout.devices@[d].screens@[s]);
}

/// Without a local screen the pointer starts at the origin.
pub proof fn law_pointer_starts_at_the_origin(layout: LayoutState, cursor: Point, d: int)
    requires
        call_ensures(initial_cursor, (&layout,), cursor),
        has_no_local(layout.devices@) || (is_first_local(layout.devices@, d)
            && layout.devices@[d].screens@.len() == 0),
    ensures
        cursor.x == 0,
        cursor.y == 0,
{
    law_pointer_starts_on_the_first_screen(layout.devices@, d);
}

/// Whether a machine's screens are those that bound the pointer: it is the local one, or the
/// first of all where none is.
pub open spec fn bounds_pointer(devices: Seq<Device>, d: int) -> bool {
    is_first_local(devices, d) || (d == 0 && devices.len() > 0 && has_no_local(devices))
}

/// Whether a horizontal coordinate is from the first column of some screen on, and up to the last
/// column of some screen.
pub open spec fn in_columns(screens: Seq<Screen>, x: int) -> bool {
    &&& exists|i: int| 0 <= i < screens.len() && (#[trigger] screens[i]).x * SUBPIXELS <= x
    &&& exists|i: int|
        0 <= i < screens.len() && x <= ((#[trigger] screens[i]).x + screens[i].width - 1)
            * SUBPIXELS
}

/// Whether a vertical coordinate is from the first row of some screen on, and up to the last row
/// of some screen.
pub open spec fn in_rows(screens: Seq<Screen>, y: int) -> bool {
    &&& exists|i: int| 0 <= i < screens.len() && (#[trigger] screens[i]).y * SUBPIXELS <= y
    &&& exists|i: int|
        0 <= i < screens.len() && y <= ((#[trigger] screens[i]).y + screens[i].height - 1)
            * SUBPIXELS
}

/// Whether a position is on a screen: from its first column and row on, and before its far edges.
pub open spec fn is_on(at: Point, screen: Screen) -> bool {
    &&& screen.x * SUBPIXELS <= at.x < (screen.x + screen.width) * SUBPIXELS
    &&& screen.y * SUBPIXELS <= at.y < (screen.y + screen.height) * SUBPIXELS
}

/// How far one coordinate is from another.
pub open spec fn distance(a: int, b: int) -> int {
    if a < b {
        b - a
    } else {
        a - b
    }
}

/// The pointer stays where it is on a screen of the machine that bounds it, and without screens.
/// From anywhere else it goes as short a way as possible, on each axis, to the columns and rows of
/// that machine's screens.
pub proof fn law_pointer_goes_to_the_nearest_place(layout: LayoutState, d: int, at: Point)
    requires
        bounds_pointer(layout.devices@, d),
        can_clamp(layout, at),
    ensures
        ({
            let screens = layout.devices@[d].screens@;
            let cursor = clamped_cursor(layout, at);
            if screens.len() == 0 || exists|i: int|
                0 <= i < screens.len() && is_on(at, #[trigger] screens[i]) {
                cursor == at
            } else {
                &&& in_columns(screens, cursor.x as int)
                &&& in_rows(screens, cursor.y as int)
                &&& forall|x: int| #[trigger]
                    in_columns(screens, x) ==> distance(cursor.x as int, at.x as int) <= distance(
                        x,
                        at.x as int,
                    )
                &&& forall|y: int| #[trigger]
                    in_rows(screens, y) ==> distance(cursor.y as int, at.y as int) <= distance(
                        y,
                        at.y as int,
                    )
            }
        }),
{
    lemma_first_local(layout.devices@, d);
    let screens = layout.devices@[d].screens@;
    assert(bounding_device(layout.devices@) == Some(layout.devices@[d]));
    assert forall|i: int| 0 <= i < screens.len() implies screens[i].holds(at) == is_on(
        at,
        #[trigger] screens[i],
    ) by {}
    if screens.len() > 0 && !any_holds(screens, at) {
        lemma_union_edges(screens);
        let cursor = clamped_cursor(layout, at);
        let left = choose|i: int|
            0 <= i < screens.len() && union_left(screens) == (#[trigger] screens[i]).x;
        let right = choose|i: int|
            0 <= i < screens.len() && union_right(screens) == (#[trigger] screens[i]).right();
        let top = choose|i: int|
            0 <= i < screens.len() && union_top(screens) == (#[trigger] screens[i]).y;
        let bottom = choose|i: int|
            0 <= i < screens.len() && union_bottom(screens) == (#[trigger] screens[i]).bottom();
        assert(screens[left].x * SUBPIXELS <= cursor.x);
        assert(cursor.x <= (screens[right].x + screens[right].width - 1) * SUBPIXELS);
        assert(screens[top].y * SUBPIXELS <= cursor.y);
        assert(cursor.y <= (screens[bottom].y + screens[bottom].height - 1) * SUBPIXELS);
    }
}

/// Without machines the pointer is free.
pub proof fn law_pointer_is_free_without_machines(layout: LayoutState, at: Point)
    requires
        layout.devices@.len() == 0,
    ensures
        can_clamp(layout, at),
        clamped_cursor(layout, at) == at,
{
}

/// Whether the far edges of a screen are numbers of 32 bits.
pub open spec fn is_measurable(screen: Screen) -> bool {
    &&& i32::MIN <= screen.x + screen.width <= i32::MAX
    &&& i32::MIN <= screen.y + screen.height <= i32::MAX
}

/// Screens that have pixels and far edges bound the pointer wherever it is.
pub proof fn law_ordinary_screens_bound_the_pointer(layout: LayoutState, d: int, at: Point)
    requires
        bounds_pointer(layout.devices@, d),
        forall|i: int|
            0 <= i < layout.devices@[d].screens@.len() ==> {
                let screen = #[trigger] layout.devices@[d].screens@[i];
                screen.width >= 1 && screen.height >= 1 && is_measurable(screen)
            },
    ensures
        can_clamp(layout, at),
{
    lemma_first_local(layout.devices@, d);
    let screens = layout.devices@[d].screens@;
    if screens.len() > 0 {
        lemma_union_edges(screens);
        assert(is_measurable(screens[0]));
    }
}

/// Every screen up to the one that the pointer is on has far edges, or else the pointer cannot be
/// bounded.
pub proof fn law_bounding_needs_edges(layout: LayoutState, d: int, at: Point, i: int)
    requires
        bounds_pointer(layout.devices@, d),
        can_clamp(layout, at),
        0 <= i < layout.devices@[d].screens@.len(),
        forall|j: int| 0 <= j < i ==> !is_on(at, #[trigger] layout.devices@[d].screens@[j]),
    ensures
        is_measurable(layout.devices@[d].screens@[i]),
{
    lemma_first_local(layout.devices@, d);
    let screens = layout.devices@[d].screens@;
    assert forall|j: int| 0 <= j < screens.take(i).len() implies !(
    #[trigger] screens.take(i)[j]).holds(at) by {
        assert(screens.take(i)[j] == screens[j]);
        assert(!is_on(at, screens[j]));
    }
    assert(!any_holds(screens.take(i), at));
    assert(screens[i].has_edges());
}

} // verus!

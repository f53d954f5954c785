//! Placement of a note window against its neighbours and its monitor.
//!
//! Everything here is counted in physical pixels. A window snaps in one of
//! four directions until it meets the nearest edge that another window
//! offers, or the border of its monitor where no window is in the way.

use vstd::prelude::*;
use crate::geometry::{Position, Rect};

verus! {

/// Pixels kept free between a snapped window and what it snaps to.
pub const GAP: i32 = 20;

/// The side towards which a window snaps.
#[derive(Clone, Copy, Debug, PartialEq, Eq, Structural)]
pub enum Direction {
    Up,
    Down,
    Left,
    Right,
}

/// A display: its name, where the system reports one, and its area.
#[derive(Clone, Debug)]
pub struct Monitor {
    pub name: Option<String>,
    pub area: Rect,
}

/// Where a snap sends the window.
#[derive(Clone, Copy, Debug, PartialEq, Eq, Structural)]
pub enum SnapMove {
    /// The window sits on another monitor than the cursor: it goes to the
    /// top-left corner of the cursor's monitor, `GAP` pixels in.
    ToMonitor { x: i64, y: i64 },
    /// The window stays on its monitor and moves along one axis.
    Within { x: i64, y: i64 },
}

/// Length of the stretch that two intervals share; negative when they are apart.
pub open spec fn overlap_extent(start_1: int, len_1: int, start_2: int, len_2: int) -> int {
    let end_1 = start_1 + len_1;
    let end_2 = start_2 + len_2;
    let overlap_start = if start_1 >= start_2 { start_1 } else { start_2 };
    let overlap_end = if end_1 <= end_2 { end_1 } else { end_2 };
    overlap_end - overlap_start
}

/// Whether two intervals share more than `GAP` pixels.
pub fn window_overlap(start_1: i32, len_1: i32, start_2: i32, len_2: i32) -> (overlaps: bool)
    ensures
        overlaps == (overlap_extent(start_1 as int, len_1 as int, start_2 as int, len_2 as int)
            > GAP),
{
    let end_1: i64 = start_1 as i64 + len_1 as i64;
    let end_2: i64 = start_2 as i64 + len_2 as i64;
    let overlap_start: i64 = if start_1 >= start_2 { start_1 as i64 } else { start_2 as i64 };
    let overlap_end: i64 = if end_1 <= end_2 { end_1 } else { end_2 };
    overlap_end - overlap_start > GAP as i64
}

/// Whether `direction` runs along the horizontal axis.
pub open spec fn is_horizontal(direction: Direction) -> bool {
    direction == Direction::Left || direction == Direction::Right
}

/// Whether `direction` points towards smaller coordinates.
pub open spec fn is_backward(direction: Direction) -> bool {
    direction == Direction::Left || direction == Direction::Up
}

/// The coordinate of `window` that a snap in `direction` changes.
pub open spec fn moving_coordinate(direction: Direction, window: Rect) -> int {
    if is_horizontal(direction) { window.x as int } else { window.y as int }
}

/// The coordinate at which `window` rests against the outside of `other`,
/// `GAP` pixels away from it.
pub open spec fn outer_edge(direction: Direction, window: Rect, other: Rect) -> int {
    match direction {
        Direction::Left => other.x + other.width + GAP,
        Direction::Up => other.y + other.height + GAP,
        Direction::Right => other.x - (window.width + GAP),
        Direction::Down => other.y - (window.height + GAP),
    }
}

/// The coordinate at which the far side of `window` lines up with the far
/// side of `other`.
pub open spec fn inner_edge(direction: Direction, window: Rect, other: Rect) -> int {
    match direction {
        Direction::Left => other.x as int,
        Direction::Up => other.y as int,
        Direction::Right => (other.x + other.width) - window.width,
        Direction::Down => (other.y + other.height) - window.height,
    }
}

/// Whether `other` lies in the path of `window`: across the direction of the
/// snap the two share more than `GAP` pixels.
pub open spec fn in_path(direction: Direction, window: Rect, other: Rect) -> bool {
    if is_horizontal(direction) {
        overlap_extent(other.y as int, other.height as int, window.y as int, window.height as int)
            > GAP
    } else {
        overlap_extent(other.x as int, other.width as int, window.x as int, window.width as int)
            > GAP
    }
}

/// Whether `other` offers `edge` to a snap of `window`.
///
/// A partial snap takes both edges of every window. A full snap takes the
/// outer edge of the windows in its path.
pub open spec fn offers_edge(
    direction: Direction,
    partial: bool,
    window: Rect,
    other: Rect,
    edge: int,
) -> bool {
    if partial {
        edge == outer_edge(direction, window, other) || edge == inner_edge(
            direction,
            window,
            other,
        )
    } else {
        in_path(direction, window, other) && edge == outer_edge(direction, window, other)
    }
}

/// Whether one of the first `count` windows of `others` offers `edge`.
pub open spec fn viable_among(
    direction: Direction,
    partial: bool,
    window: Rect,
    others: Seq<Rect>,
    count: int,
    edge: int,
) -> bool {
    exists|i: int|
        0 <= i < count && i < others.len() && offers_edge(
            direction,
            partial,
            window,
            #[trigger] others[i],
            edge,
        )
}

/// Whether `edge` lies strictly ahead of `current` in `direction`.
pub open spec fn ahead(direction: Direction, current: int, edge: int) -> bool {
    if is_backward(direction) { edge < current } else { edge > current }
}

/// Whether `edge` is reached no later than `rival` when moving in `direction`.
pub open spec fn no_farther(direction: Direction, edge: int, rival: int) -> bool {
    if is_backward(direction) { edge >= rival } else { edge <= rival }
}

/// Whether `edge` is the first edge ahead of `window` that one of the first
/// `count` windows of `others` offers.
pub open spec fn first_edge_among(
    direction: Direction,
    partial: bool,
    window: Rect,
    others: Seq<Rect>,
    count: int,
    edge: int,
) -> bool {
    let current = moving_coordinate(direction, window);
    &&& viable_among(direction, partial, window, others, count, edge)
    &&& ahead(direction, current, edge)
    &&& forall|rival: int|
        #[trigger] viable_among(direction, partial, window, others, count, rival) && ahead(
            direction,
            current,
            rival,
        ) ==> no_farther(direction, edge, rival)
}

/// Whether none of the first `count` windows of `others` offers an edge ahead
/// of `window`.
pub open spec fn no_edge_among(
    direction: Direction,
    partial: bool,
    window: Rect,
    others: Seq<Rect>,
    count: int,
) -> bool {
    forall|rival: int|
        #[trigger] viable_among(direction, partial, window, others, count, rival) ==> !ahead(
            direction,
            moving_coordinate(direction, window),
            rival,
        )
}

/// Where `window` comes to rest against the border of `monitor`.
pub open spec fn monitor_edge(direction: Direction, window: Rect, monitor: Rect) -> int {
    match direction {
        Direction::Left => monitor.x + GAP,
        Direction::Up => monitor.y + GAP,
        Direction::Right => ((monitor.x + monitor.width) - window.width) - GAP,
        Direction::Down => ((monitor.y + monitor.height) - window.height) - GAP,
    }
}

/// Whether `coordinate` is where a snap of `window` in `direction` ends: the
/// first edge ahead that another window offers, or the monitor's border when
/// there is none. Exactly one coordinate qualifies.
pub open spec fn is_snap_coordinate(
    direction: Direction,
    partial: bool,
    window: Rect,
    others: Seq<Rect>,
    monitor: Rect,
    coordinate: int,
) -> bool {
    let count = others.len() as int;
    if no_edge_among(direction, partial, window, others, count) {
        coordinate == monitor_edge(direction, window, monitor)
    } else {
        first_edge_among(direction, partial, window, others, count, coordinate)
    }
}

/// A snap has one outcome: two coordinates that both qualify as the end of
/// the same snap are the same coordinate.
pub proof fn snap_coordinate_unique(
    direction: Direction,
    partial: bool,
    window: Rect,
    others: Seq<Rect>,
    monitor: Rect,
    first: int,
    second: int,
)
    requires
        is_snap_coordinate(direction, partial, window, others, monitor, first),
        is_snap_coordinate(direction, partial, window, others, monitor, second),
    ensures
        first == second,
{
}

/// The name of a monitor as the comparison of two monitors sees it.
pub open spec fn monitor_name(monitor: Monitor) -> Option<Seq<char>> {
    match monitor.name {
        Some(name) => Some(name@),
        None => None,
    }
}

/// Whether `result` is what a snap of `window` must do.
pub open spec fn is_snap_move(
    direction: Direction,
    partial: bool,
    window: Rect,
    others: Seq<Rect>,
    current_monitor: Monitor,
    active_monitor: Monitor,
    result: SnapMove,
) -> bool {
    if monitor_name(current_monitor) != monitor_name(active_monitor) {
        result == (SnapMove::ToMonitor {
            x: (active_monitor.area.x + GAP) as i64,
            y: (active_monitor.area.y + GAP) as i64,
        })
    } else {
        match result {
            SnapMove::ToMonitor { .. } => false,
            SnapMove::Within { x, y } => {
                if is_horizontal(direction) {
                    y == window.y && is_snap_coordinate(
                        direction,
                        partial,
                        window,
                        others,
                        current_monitor.area,
                        x as int,
                    )
                } else {
                    x == window.x && is_snap_coordinate(
                        direction,
                        partial,
                        window,
                        others,
                        current_monitor.area,
                        y as int,
                    )
                }
            },
        }
    }
}

/// Computes [`moving_coordinate`].
fn moving_coordinate_of(direction: Direction, window: &Rect) -> (current: i64)
    ensures
        current == moving_coordinate(direction, *window),
{
    match direction {
        Direction::Left | Direction::Right => window.x as i64,
        Direction::Up | Direction::Down => window.y as i64,
    }
}

/// Computes [`outer_edge`].
fn outer_edge_of(direction: Direction, window: &Rect, other: &Rect) -> (edge: i64)
    ensures
        edge == outer_edge(direction, *window, *other),
{
    match direction {
        Direction::Left => other.x as i64 + other.width as i64 + GAP as i64,
        Direction::Up => other.y as i64 + other.height as i64 + GAP as i64,
        Direction::Right => other.x as i64 - (window.width as i64 + GAP as i64),
        Direction::Down => other.y as i64 - (window.height as i64 + GAP as i64),
    }
}

/// Computes [`inner_edge`].
fn inner_edge_of(direction: Direction, window: &Rect, other: &Rect) -> (edge: i64)
    ensures
        edge == inner_edge(direction, *window, *other),
{
    match direction {
        Direction::Left => other.x as i64,
        Direction::Up => other.y as i64,
        Direction::Right => (other.x as i64 + other.width as i64) - window.width as i64,
        Direction::Down => (other.y as i64 + other.height as i64) - window.height as i64,
    }
}

/// Computes [`in_path`].
fn in_path_of(direction: Direction, window: &Rect, other: &Rect) -> (facing: bool)
    ensures
        facing == in_path(direction, *window, *other),
{
    match direction {
        Direction::Left | Direction::Right => window_overlap(
            other.y,
            other.height,
            window.y,
            window.height,
        ),
        Direction::Up | Direction::Down => window_overlap(
            other.x,
            other.width,
            window.x,
            window.width,
        ),
    }
}

/// Computes [`monitor_edge`].
fn monitor_edge_of(direction: Direction, window: &Rect, monitor: &Rect) -> (edge: i64)
    ensures
        edge == monitor_edge(direction, *window, *monitor),
{
    match direction {
        Direction::Left => monitor.x as i64 + GAP as i64,
        Direction::Up => monitor.y as i64 + GAP as i64,
        Direction::Right => ((monitor.x as i64 + monitor.width as i64) - window.width as i64)
            - GAP as i64,
        Direction::Down => ((monitor.y as i64 + monitor.height as i64) - window.height as i64)
            - GAP as i64,
    }
}

/// Whether two monitors go by the same name. Two monitors without a name
/// count as the same.
fn same_monitor(a: &Monitor, b: &Monitor) -> (same: bool)
    ensures
        same == (monitor_name(*a) == monitor_name(*b)),
{
    match &a.name {
        Some(left) => match &b.name {
            Some(right) => *left == *right,
            None => false,
        },
        None => b.name.is_none(),
    }
}

/// Keeps, of the best edge so far and a new one, the one that a window at
/// `current` meets first. An edge that is not ahead of `current` is passed over.
fn nearer_edge(direction: Direction, current: i64, best: Option<i64>, edge: i64) -> (kept: Option<
    i64,
>)
    ensures
        !ahead(direction, current as int, edge as int) ==> kept == best,
        ahead(direction, current as int, edge as int) ==> match best {
            Some(held) => kept == Some(
                if no_farther(direction, held as int, edge as int) {
                    held
                } else {
                    edge
                },
            ),
            None => kept == Some(edge),
        },
{
    let backward: bool = match direction {
        Direction::Left | Direction::Up => true,
        Direction::Right | Direction::Down => false,
    };
    let is_ahead: bool = if backward { edge < current } else { edge > current };
    if !is_ahead {
        return best;
    }
    match best {
        Some(held) => {
            let keep: bool = if backward { held >= edge } else { held <= edge };
            if keep { Some(held) } else { Some(edge) }
        },
        None => Some(edge),
    }
}

/// Decides where a snap in `direction` sends `window`.
///
/// `others` are the frames of the other note windows, `current_monitor` is
/// the monitor that shows `window`, and `active_monitor` the one under the
/// cursor. A window on another monitor than the cursor is sent to the
/// cursor's monitor. Otherwise it moves along one axis to the first edge
/// ahead of it, or to the border of its monitor.
pub fn snap_window(
    direction: Direction,
    partial: bool,
    window: &Rect,
    others: &Vec<Rect>,
    current_monitor: &Monitor,
    active_monitor: &Monitor,
) -> (result: SnapMove)
    ensures
        is_snap_move(
            direction,
            partial,
            *window,
            others@,
            *current_monitor,
            *active_monitor,
            result,
        ),
{
    if !same_monitor(current_monitor, active_monitor) {
        return SnapMove::ToMonitor {
            x: active_monitor.area.x as i64 + GAP as i64,
            y: active_monitor.area.y as i64 + GAP as i64,
        };
    }
    let current: i64 = moving_coordinate_of(direction, window);
    let mut best: Option<i64> = None;
    let mut i: usize = 0;
    while i < others.len()
        invariant
            0 <= i <= others.len(),
            current == moving_coordinate(direction, *window),
            match best {
                Some(edge) => first_edge_among(
                    direction,
                    partial,
                    *window,
                    others@,
                    i as int,
                    edge as int,
                ),
                None => no_edge_among(direction, partial, *window, others@, i as int),
            },
        decreases others.len() - i,
    {
        let other = &others[i];
        let outer: i64 = outer_edge_of(direction, window, other);
        if partial {
            let inner: i64 = inner_edge_of(direction, window, other);
            best = nearer_edge(direction, current, best, outer);
            best = nearer_edge(direction, current, best, inner);
        } else if in_path_of(direction, window, other) {
            best = nearer_edge(direction, current, best, outer);
        }
        proof {
            assert forall|edge: int| #[trigger]
                viable_among(direction, partial, *window, others@, i + 1, edge) <==> (
                viable_among(direction, partial, *window, others@, i as int, edge) || offers_edge(
                    direction,
                    partial,
                    *window,
                    others@[i as int],
                    edge,
                )) by {}
        }
        i += 1;
    }
    let coordinate: i64 = match best {
        Some(edge) => edge,
        None => monitor_edge_of(direction, window, &current_monitor.area),
    };
    match direction {
        Direction::Left | Direction::Right => SnapMove::Within { x: coordinate, y: window.y as i64 },
        Direction::Up | Direction::Down => SnapMove::Within { x: window.x as i64, y: coordinate },
    }
}

/// A note window in the round of focus: where it is and whether it has the
/// focus now.
#[derive(Clone, Copy, Debug, PartialEq, Eq, Structural)]
pub struct FocusEntry {
    pub position: Position,
    pub focused: bool,
}

/// Whether window `i` stands before window `j` when the windows are lined up
/// by position, left to right and then top to bottom, windows at the same
/// position in the order of the list.
pub open spec fn lined_up_before(windows: Seq<FocusEntry>, i: int, j: int) -> bool {
    let a = windows[i].position;
    let b = windows[j].position;
    a.x < b.x || (a.x == b.x && (a.y < b.y || (a.y == b.y && i < j)))
}

/// Whether window `i` comes before window `j` in the round. The reverse
/// round runs through the same line-up backwards.
pub open spec fn comes_before(windows: Seq<FocusEntry>, reverse: bool, i: int, j: int) -> bool {
    if reverse {
        lined_up_before(windows, j, i)
    } else {
        lined_up_before(windows, i, j)
    }
}

/// Whether window `i` is the first of the round among the windows that have
/// the focus.
pub open spec fn is_focus_holder(windows: Seq<FocusEntry>, reverse: bool, i: int) -> bool {
    &&& 0 <= i < windows.len()
    &&& windows[i].focused
    &&& forall|k: int|
        0 <= k < windows.len() && k != i && (#[trigger] windows[k]).focused ==> comes_before(
            windows,
            reverse,
            i,
            k,
        )
}

/// Whether window `i` opens the round among the windows that come after
/// `floor`, or among all windows where `floor` is `None`.
pub open spec fn is_first_after(
    windows: Seq<FocusEntry>,
    reverse: bool,
    floor: Option<int>,
    i: int,
) -> bool {
    &&& 0 <= i < windows.len()
    &&& is_after(windows, reverse, floor, i)
    &&& forall|k: int|
        0 <= k < windows.len() && k != i && #[trigger] is_after(windows, reverse, floor, k)
            ==> comes_before(windows, reverse, i, k)
}

/// Whether window `i` comes after `floor` in the round; every window does
/// where `floor` is `None`.
pub open spec fn is_after(windows: Seq<FocusEntry>, reverse: bool, floor: Option<int>, i: int) -> bool {
    match floor {
        Some(f) => comes_before(windows, reverse, f, i),
        None => true,
    }
}

/// Whether no window comes after window `i` in the round.
pub open spec fn closes_round(windows: Seq<FocusEntry>, reverse: bool, i: int) -> bool {
    forall|k: int| 0 <= k < windows.len() ==> !#[trigger] is_after(windows, reverse, Some(i), k)
}

/// Whether window `next` is the one that takes the focus from window
/// `holder`: the window right after it in the round, or the one that opens
/// the round where `holder` closes it.
pub open spec fn follows_in_round(
    windows: Seq<FocusEntry>,
    reverse: bool,
    holder: int,
    next: int,
) -> bool {
    if closes_round(windows, reverse, holder) {
        is_first_after(windows, reverse, None, next)
    } else {
        is_first_after(windows, reverse, Some(holder), next)
    }
}

/// Computes [`comes_before`].
fn comes_before_of(windows: &Vec<FocusEntry>, reverse: bool, i: usize, j: usize) -> (before: bool)
    requires
        i < windows.len(),
        j < windows.len(),
    ensures
        before == comes_before(windows@, reverse, i as int, j as int),
{
    let (first, second): (usize, usize) = if reverse { (j, i) } else { (i, j) };
    let a = windows[first].position;
    let b = windows[second].position;
    a.x < b.x || (a.x == b.x && (a.y < b.y || (a.y == b.y && first < second)))
}

/// Finds the window that opens the round among those after `floor`.
fn first_after(windows: &Vec<FocusEntry>, reverse: bool, floor: Option<usize>) -> (found: Option<
    usize,
>)
    requires
        match floor {
            Some(f) => f < windows.len(),
            None => true,
        },
    ensures
        match found {
            Some(i) => is_first_after(windows@, reverse, floor_index(floor), i as int),
            None => forall|k: int|
                0 <= k < windows.len() ==> !#[trigger] is_after(
                    windows@,
                    reverse,
                    floor_index(floor),
                    k,
                ),
        },
{
    let mut best: Option<usize> = None;
    let mut k: usize = 0;
    while k < windows.len()
        invariant
            0 <= k <= windows.len(),
            match floor {
                Some(f) => f < windows.len(),
                None => true,
            },
            match best {
                Some(b) => {
                    &&& b < k
                    &&& is_after(windows@, reverse, floor_index(floor), b as int)
                    &&& forall|m: int|
                        0 <= m < k && m != b && #[trigger] is_after(
                            windows@,
                            reverse,
                            floor_index(floor),
                            m,
                        ) ==> comes_before(windows@, reverse, b as int, m)
                },
                None => forall|m: int|
                    0 <= m < k ==> !#[trigger] is_after(windows@, reverse, floor_index(floor), m),
            },
        decreases windows.len() - k,
    {
        let eligible: bool = match floor {
            Some(f) => comes_before_of(windows, reverse, f, k),
            None => true,
        };
        if eligible {
            best = match best {
                Some(b) => if comes_before_of(windows, reverse, k, b) { Some(k) } else { Some(b) },
                None => Some(k),
            };
        }
        k += 1;
    }
    best
}

/// The floor of a search as a mathematical index.
pub open spec fn floor_index(floor: Option<usize>) -> Option<int> {
    match floor {
        Some(f) => Some(f as int),
        None => None,
    }
}

/// Finds the window that holds the focus: the first of the round among the
/// focused windows.
fn focus_holder(windows: &Vec<FocusEntry>, reverse: bool) -> (found: Option<usize>)
    ensures
        match found {
            Some(i) => is_focus_holder(windows@, reverse, i as int),
            None => forall|k: int| 0 <= k < windows.len() ==> !(#[trigger] windows@[k]).focused,
        },
{
    let mut best: Option<usize> = None;
    let mut k: usize = 0;
    while k < windows.len()
        invariant
            0 <= k <= windows.len(),
            match best {
                Some(b) => {
                    &&& b < k
                    &&& windows@[b as int].focused
                    &&& forall|m: int|
                        0 <= m < k && m != b && (#[trigger] windows@[m]).focused ==> comes_before(
                            windows@,
                            reverse,
                            b as int,
                            m,
                        )
                },
                None => forall|m: int| 0 <= m < k ==> !(#[trigger] windows@[m]).focused,
            },
        decreases windows.len() - k,
    {
        if windows[k].focused {
            best = match best {
                Some(b) => if comes_before_of(windows, reverse, k, b) { Some(k) } else { Some(b) },
                None => Some(k),
            };
        }
        k += 1;
    }
    best
}

/// Chooses the note that gets the focus next.
///
/// The notes stand in a round, lined up by position; `reverse` runs the
/// round backwards. The focus passes from the note that holds it to the one
/// right after it, and from the last note of the round to the first. The
/// result is an index into `windows`, and `None` exactly when no note has the
/// focus.
pub fn cycle_focus(windows: &Vec<FocusEntry>, reverse: bool) -> (next: Option<usize>)
    ensures
        match next {
            Some(i) => exists|holder: int|
                #[trigger] is_focus_holder(windows@, reverse, holder) && follows_in_round(
                    windows@,
                    reverse,
                    holder,
                    i as int,
                ),
            None => forall|k: int| 0 <= k < windows.len() ==> !(#[trigger] windows@[k]).focused,
        },
{
    let holder: usize = match focus_holder(windows, reverse) {
        Some(holder) => holder,
        None => {
            return None;
        },
    };
    match first_after(windows, reverse, Some(holder)) {
        Some(next) => {
            proof {
                assert(is_after(windows@, reverse, Some(holder as int), next as int));
            }
            Some(next)
        },
        None => {
            let first = first_after(windows, reverse, None);
            proof {
                assert(is_after(windows@, reverse, None, holder as int));
            }
            first
        },
    }
}

/// The focus has one way to go: whichever note holds the focus and
/// whichever note follows it, there is no second pair.
pub proof fn next_focus_is_unique(
    windows: Seq<FocusEntry>,
    reverse: bool,
    holder: int,
    next: int,
    other_holder: int,
    other_next: int,
)
    requires
        is_focus_holder(windows, reverse, holder),
        follows_in_round(windows, reverse, holder, next),
        is_focus_holder(windows, reverse, other_holder),
        follows_in_round(windows, reverse, other_holder, other_next),
    ensures
        holder == other_holder,
        next == other_next,
{
    if holder != other_holder {
        assert(comes_before(windows, reverse, holder, other_holder));
        assert(comes_before(windows, reverse, other_holder, holder));
    }
    if next != other_next {
        if closes_round(windows, reverse, holder) {
            assert(is_after(windows, reverse, None, next));
            assert(is_after(windows, reverse, None, other_next));
        } else {
            assert(is_after(windows, reverse, Some(holder), next));
            assert(is_after(windows, reverse, Some(holder), other_next));
        }
        assert(comes_before(windows, reverse, next, other_next));
        assert(comes_before(windows, reverse, other_next, next));
    }
}

} // verus!

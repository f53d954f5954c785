//! One tick of the tracking loop.
//!
//! The loop itself sleeps, queries the window server and moves windows, which
//! is the caller's part. What each tick decides is here: [`begin_tick`] takes
//! the snapshot or ends the loop, [`plan_tick`] says what to do for each
//! anchor, and [`finish_tick`] drops the anchors that the plan gives up.

use vstd::prelude::*;
use crate::anchor::anchor_for;
use crate::geometry::{Position, Rect, UNITS_PER_PIXEL};
use crate::inventory::ExternalWindow;
use crate::registry::{
    anchors_of, anchors_wf, distinct_labels, has_label, index_of_label, lemma_entry_in_map,
    AnchorInfo, AnchorState, Anchored, Registry,
};
use crate::resolver::{find_window_by_id, window_by_id};

verus! {

/// Drift that is left alone: one logical pixel, in coordinate units. A note
/// is moved only when it is farther than this from where it belongs.
pub const DEADBAND: i32 = UNITS_PER_PIXEL;

/// A window of the application, as the windowing system lists it.
#[derive(Clone, Debug, PartialEq, Eq)]
pub struct LocalWindow {
    pub label: String,
    /// Where the window is; `None` where its position cannot be read.
    pub position: Option<Position>,
}

/// What is known of the note behind an anchor at the time of a tick.
#[derive(Clone, Copy, Debug, PartialEq, Eq, Structural)]
pub enum LocalState {
    /// The note's window no longer exists.
    Closed,
    /// The window exists but its position could not be read.
    Unreadable,
    /// The window is at this position.
    At(Position),
}

/// What a tick does for one anchor.
#[derive(Clone, Copy, Debug, PartialEq, Eq, Structural)]
pub enum TrackAction {
    /// Leave the note where it is and keep the anchor.
    Keep,
    /// Move the note to this position, in coordinate units, and keep the anchor.
    MoveTo { x: i64, y: i64 },
    /// The note is closed: drop the anchor and tell nobody.
    Forget,
    /// The target is gone: drop the anchor and tell the note that it was lost.
    Lost,
}

/// The action of a tick for the note labelled `label`.
#[derive(Clone, Debug, PartialEq, Eq)]
pub struct Step {
    pub label: String,
    pub action: TrackAction,
}

/// Whether `windows[i]` is the first window labelled `label`.
pub open spec fn is_first_labelled(windows: Seq<LocalWindow>, label: Seq<char>, i: int) -> bool {
    &&& 0 <= i < windows.len()
    &&& windows[i].label@ == label
    &&& forall|j: int| 0 <= j < i ==> (#[trigger] windows[j]).label@ != label
}

/// Whether a window labelled `label` is listed.
pub open spec fn is_open(windows: Seq<LocalWindow>, label: Seq<char>) -> bool {
    exists|i: int| 0 <= i < windows.len() && (#[trigger] windows[i]).label@ == label
}

/// The state of the note labelled `label`, given the listed windows.
pub open spec fn local_state(windows: Seq<LocalWindow>, label: Seq<char>) -> LocalState {
    if is_open(windows, label) {
        match windows[choose|i: int| is_first_labelled(windows, label, i)].position {
            Some(position) => LocalState::At(position),
            None => LocalState::Unreadable,
        }
    } else {
        LocalState::Closed
    }
}

/// Where the note of `anchor` belongs while its target is at `target`: the
/// target's position plus the anchor's offset.
pub open spec fn desired_position(anchor: AnchorInfo, target: ExternalWindow) -> (int, int) {
    (target.x + anchor.offset_x, target.y + anchor.offset_y)
}

/// Whether `current` is within the deadband of `desired` on both axes.
pub open spec fn within_deadband(current: Position, desired: (int, int)) -> bool {
    &&& -DEADBAND <= current.x - desired.0 <= DEADBAND
    &&& -DEADBAND <= current.y - desired.1 <= DEADBAND
}

/// The action that a tick takes for `anchor`.
///
/// A target that the inventory no longer shows is lost, whatever became of
/// the note. With the target in sight, a closed note is forgotten, a note
/// whose position cannot be read waits for the next tick, and a note farther
/// than the deadband from where it belongs is moved there.
pub open spec fn action_for(
    anchor: AnchorInfo,
    external: Seq<ExternalWindow>,
    local: LocalState,
) -> TrackAction {
    match window_by_id(external, anchor.target_window_id) {
        None => TrackAction::Lost,
        Some(target) => match local {
            LocalState::Closed => TrackAction::Forget,
            LocalState::Unreadable => TrackAction::Keep,
            LocalState::At(current) => {
                let desired = desired_position(anchor, target);
                if within_deadband(current, desired) {
                    TrackAction::Keep
                } else {
                    TrackAction::MoveTo { x: desired.0 as i64, y: desired.1 as i64 }
                }
            },
        },
    }
}

/// Whether `action` gives the anchor up.
pub open spec fn drops_anchor(action: TrackAction) -> bool {
    action == TrackAction::Forget || action == TrackAction::Lost
}

impl TrackAction {
    /// Whether the action gives the anchor up.
    pub fn drops(&self) -> (dropped: bool)
        ensures
            dropped == drops_anchor(*self),
    {
        match self {
            TrackAction::Forget | TrackAction::Lost => true,
            TrackAction::Keep | TrackAction::MoveTo { .. } => false,
        }
    }
}

/// Whether `plan` is the plan of a tick over `snapshot`: one step for each
/// entry, in order, under the entry's label, with the action that the
/// inventory and the listed windows call for.
pub open spec fn is_plan(
    snapshot: Seq<Anchored>,
    external: Seq<ExternalWindow>,
    windows: Seq<LocalWindow>,
    plan: Seq<Step>,
) -> bool {
    &&& plan.len() == snapshot.len()
    &&& forall|i: int|
        0 <= i < plan.len() ==> (#[trigger] plan[i]).label == snapshot[i].label && plan[i].action
            == action_for(
            snapshot[i].anchor,
            external,
            local_state(windows, snapshot[i].label@),
        )
}

/// The labels whose anchors the first `count` steps of `plan` give up.
pub open spec fn dropped_among(plan: Seq<Step>, count: int) -> Set<Seq<char>> {
    Set::new(
        |label: Seq<char>|
            exists|i: int|
                0 <= i < count && i < plan.len() && (#[trigger] plan[i]).label@ == label
                    && drops_anchor(plan[i].action),
    )
}

/// The labels whose anchors `plan` gives up.
pub open spec fn dropped_labels(plan: Seq<Step>) -> Set<Seq<char>> {
    dropped_among(plan, plan.len() as int)
}

/// Looks up the note labelled `label` among the listed windows.
pub fn find_local_window(label: &String, windows: &[LocalWindow]) -> (state: LocalState)
    ensures
        state == local_state(windows@, label@),
{
    let mut i: usize = 0;
    while i < windows.len()
        invariant
            0 <= i <= windows.len(),
            forall|j: int| 0 <= j < i ==> (#[trigger] windows@[j]).label@ != label@,
        decreases windows.len() - i,
    {
        if windows[i].label == *label {
            proof {
                let first = choose|k: int| is_first_labelled(windows@, label@, k);
                assert(is_first_labelled(windows@, label@, i as int));
                assert(first == i);
            }
            return match windows[i].position {
                Some(position) => LocalState::At(position),
                None => LocalState::Unreadable,
            };
        }
        i += 1;
    }
    LocalState::Closed
}

/// Decides what a tick does for one anchor, see [`action_for`].
pub fn track_anchor(anchor: &AnchorInfo, external: &[ExternalWindow], local: LocalState) -> (action:
    TrackAction)
    requires
        anchor.wf(),
    ensures
        action == action_for(*anchor, external@, local),
{
    let target = match find_window_by_id(anchor.target_window_id, external) {
        Some(target) => target,
        None => {
            return TrackAction::Lost;
        },
    };
    match local {
        LocalState::Closed => TrackAction::Forget,
        LocalState::Unreadable => TrackAction::Keep,
        LocalState::At(current) => {
            let new_x: i64 = target.x as i64 + anchor.offset_x;
            let new_y: i64 = target.y as i64 + anchor.offset_y;
            let dx: i64 = current.x as i64 - new_x;
            let dy: i64 = current.y as i64 - new_y;
            let reach: i64 = DEADBAND as i64;
            if dx > reach || dx < -reach || dy > reach || dy < -reach {
                TrackAction::MoveTo { x: new_x, y: new_y }
            } else {
                TrackAction::Keep
            }
        },
    }
}

/// Plans a tick: decides, for each entry of the snapshot, what to do.
///
/// `external` is the inventory of this tick, queried once for all anchors,
/// and `windows` are the windows of the application that exist right now.
pub fn plan_tick(
    snapshot: &Vec<Anchored>,
    external: &Vec<ExternalWindow>,
    windows: &Vec<LocalWindow>,
) -> (plan: Vec<Step>)
    requires
        anchors_wf(snapshot@),
    ensures
        is_plan(snapshot@, external@, windows@, plan@),
{
    let mut plan: Vec<Step> = Vec::new();
    let mut i: usize = 0;
    while i < snapshot.len()
        invariant
            0 <= i <= snapshot.len(),
            anchors_wf(snapshot@),
            plan@.len() == i,
            forall|k: int|
                0 <= k < i ==> (#[trigger] plan@[k]).label == snapshot@[k].label && plan@[k].action
                    == action_for(
                    snapshot@[k].anchor,
                    external@,
                    local_state(windows@, snapshot@[k].label@),
                ),
        decreases snapshot.len() - i,
    {
        let entry = &snapshot[i];
        let local = find_local_window(&entry.label, windows.as_slice());
        let action = track_anchor(&entry.anchor, external.as_slice(), local);
        plan.push(Step { label: entry.label.clone(), action });
        i += 1;
    }
    plan
}

/// Starts a tick. With no anchor left the loop ends: the flag is lowered and
/// `None` is returned. Otherwise the tick gets a copy of the entries to work
/// on, and the registry stays as it is.
pub fn begin_tick(state: &mut AnchorState) -> (snapshot: Option<Vec<Anchored>>)
    requires
        old(state).wf(),
    ensures
        final(state).wf(),
        final(state)@ == old(state)@.begin_tick(),
        snapshot.is_none() == old(state)@.is_empty(),
        match snapshot {
            Some(entries) => {
                &&& distinct_labels(entries@)
                &&& anchors_wf(entries@)
                &&& anchors_of(entries@) == old(state)@.anchors
            },
            None => true,
        },
{
    if state.is_empty() {
        state.clear_polling_flag();
        None
    } else {
        Some(state.snapshot())
    }
}

/// Ends a tick: drops every anchor that the plan gives up, and no other.
pub fn finish_tick(state: &mut AnchorState, plan: &Vec<Step>)
    requires
        old(state).wf(),
    ensures
        final(state).wf(),
        final(state)@ == old(state)@.finish_tick(dropped_labels(plan@)),
{
    let mut i: usize = 0;
    proof {
        assert(dropped_among(plan@, 0) =~= Set::<Seq<char>>::empty());
        assert(state@.anchors.remove_keys(dropped_among(plan@, 0)) =~= state@.anchors);
    }
    while i < plan.len()
        invariant
            0 <= i <= plan.len(),
            state.wf(),
            state@.polling_active == old(state)@.polling_active,
            state@.anchors == old(state)@.anchors.remove_keys(dropped_among(plan@, i as int)),
        decreases plan.len() - i,
    {
        let step = &plan[i];
        if step.action.drops() {
            state.remove(&step.label);
            proof {
                assert(dropped_among(plan@, i + 1) =~= dropped_among(plan@, i as int).insert(
                    step.label@,
                ));
                assert(old(state)@.anchors.remove_keys(dropped_among(plan@, i as int)).remove(
                    step.label@,
                ) =~= old(state)@.anchors.remove_keys(dropped_among(plan@, i + 1)));
            }
        } else {
            proof {
                assert(dropped_among(plan@, i + 1) =~= dropped_among(plan@, i as int));
            }
        }
        i += 1;
    }
}

/// Where a note at `current` is once `action` has been carried out.
pub open spec fn position_after(action: TrackAction, current: Position) -> (int, int) {
    match action {
        TrackAction::MoveTo { x, y } => (x as int, y as int),
        _ => (current.x as int, current.y as int),
    }
}

/// A fresh anchor is at rest: the offset taken at anchoring puts the place
/// where the note belongs exactly where the note is, so the first tick
/// leaves it alone.
pub proof fn fresh_anchor_is_at_rest(local: Rect, target: ExternalWindow)
    ensures
        anchor_for(local, target).wf(),
        desired_position(anchor_for(local, target), target) == (local.x as int, local.y as int),
        within_deadband(
            Position { x: local.x, y: local.y },
            desired_position(anchor_for(local, target), target),
        ),
{
}

/// Drift within the deadband causes no move: a note that is at most one
/// logical pixel away, on both axes, from where it belongs is kept as it is.
pub proof fn drift_within_deadband_is_left_alone(
    anchor: AnchorInfo,
    external: Seq<ExternalWindow>,
    target: ExternalWindow,
    current: Position,
)
    requires
        window_by_id(external, anchor.target_window_id) == Some(target),
        within_deadband(current, desired_position(anchor, target)),
    ensures
        action_for(anchor, external, LocalState::At(current)) == TrackAction::Keep,
{
}

/// A note that has drifted beyond the deadband is put back exactly: after
/// the tick it is at the target's position plus the anchor's offset.
pub proof fn drifted_note_is_put_at_offset(
    anchor: AnchorInfo,
    external: Seq<ExternalWindow>,
    target: ExternalWindow,
    current: Position,
)
    requires
        anchor.wf(),
        window_by_id(external, anchor.target_window_id) == Some(target),
        !within_deadband(current, desired_position(anchor, target)),
    ensures
        position_after(action_for(anchor, external, LocalState::At(current)), current)
            == desired_position(anchor, target),
{
}

/// After a tick a tracked note is never farther than the deadband from where
/// it belongs.
pub proof fn tracked_note_is_within_deadband(
    anchor: AnchorInfo,
    external: Seq<ExternalWindow>,
    target: ExternalWindow,
    current: Position,
)
    requires
        anchor.wf(),
        window_by_id(external, anchor.target_window_id) == Some(target),
    ensures
        ({
            let after = position_after(
                action_for(anchor, external, LocalState::At(current)),
                current,
            );
            let desired = desired_position(anchor, target);
            &&& -DEADBAND <= after.0 - desired.0 <= DEADBAND
            &&& -DEADBAND <= after.1 - desired.1 <= DEADBAND
        }),
{
}

/// A note follows its target: if the note sits exactly at its offset from
/// the target and the target then moves by more than the deadband on some
/// axis, the next tick puts the note exactly at its offset from the target's
/// new position.
pub proof fn note_follows_target(
    anchor: AnchorInfo,
    before: ExternalWindow,
    after: ExternalWindow,
    external: Seq<ExternalWindow>,
    current: Position,
)
    requires
        anchor.wf(),
        desired_position(anchor, before) == (current.x as int, current.y as int),
        window_by_id(external, anchor.target_window_id) == Some(after),
        after.x - before.x > DEADBAND || before.x - after.x > DEADBAND || after.y - before.y
            > DEADBAND || before.y - after.y > DEADBAND,
    ensures
        position_after(action_for(anchor, external, LocalState::At(current)), current)
            == desired_position(anchor, after),
{
}

/// Whether step `i` of `plan` tells the note labelled `label` that its
/// target is lost.
pub open spec fn is_lost_notice(plan: Seq<Step>, label: Seq<char>, i: int) -> bool {
    0 <= i < plan.len() && plan[i].label@ == label && plan[i].action == TrackAction::Lost
}

/// A tick drops the anchor whose target has vanished, tells its note once,
/// and touches no other anchor.
///
/// For an anchored note `label`: if the inventory no longer shows its
/// target, the anchor is gone after the tick and the plan holds exactly one
/// notice for the note. If the target is in sight, the plan holds no notice
/// for it, and unless the note was closed its anchor is after the tick what
/// it was before. No tick adds an anchor or changes one that stays.
pub proof fn lost_target_drops_its_anchor_alone(
    before: Registry,
    snapshot: Seq<Anchored>,
    external: Seq<ExternalWindow>,
    windows: Seq<LocalWindow>,
    plan: Seq<Step>,
    label: Seq<char>,
)
    requires
        distinct_labels(snapshot),
        anchors_of(snapshot) == before.anchors,
        is_plan(snapshot, external, windows, plan),
        before.anchors.contains_key(label),
    ensures
        ({
            let after = before.finish_tick(dropped_labels(plan));
            let target = window_by_id(external, before.anchors[label].target_window_id);
            &&& target.is_none() ==> {
                &&& !after.anchors.contains_key(label)
                &&& exists|i: int|
                    {
                        &&& #[trigger] is_lost_notice(plan, label, i)
                        &&& forall|j: int| #[trigger] is_lost_notice(plan, label, j) ==> j == i
                    }
            }
            &&& target.is_some() ==> forall|j: int| !#[trigger] is_lost_notice(plan, label, j)
            &&& target.is_some() && local_state(windows, label) != LocalState::Closed ==> {
                &&& after.anchors.contains_key(label)
                &&& after.anchors[label] == before.anchors[label]
            }
            &&& forall|other: Seq<char>| #[trigger]
                after.anchors.contains_key(other) ==> {
                    &&& before.anchors.contains_key(other)
                    &&& after.anchors[other] == before.anchors[other]
                }
        }),
{
    assert(has_label(snapshot, label));
    let i = index_of_label(snapshot, label);
    lemma_entry_in_map(snapshot, i);
    assert(plan[i].label == snapshot[i].label);
    assert forall|j: int| 0 <= j < plan.len() && (#[trigger] plan[j]).label@ == label implies j
        == i by {
        assert(plan[j].label == snapshot[j].label);
    }
    let target = window_by_id(external, before.anchors[label].target_window_id);
    let dropped = dropped_labels(plan);
    if target.is_none() {
        assert(is_lost_notice(plan, label, i));
        assert(dropped.contains(label));
    } else {
        if local_state(windows, label) != LocalState::Closed {
            assert(!drops_anchor(plan[i].action));
            assert(!dropped.contains(label));
        }
    }
}

} // verus!

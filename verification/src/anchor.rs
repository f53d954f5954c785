//! Anchoring a note to the nearest window of another application, and
//! releasing it again.
//!
//! The operations work on the registry and on values that the caller has
//! read beforehand: the inventory of external windows and the frame of the
//! note. They tell the caller when the tracking loop has to be started.

use vstd::prelude::*;
use crate::geometry::Rect;
use crate::inventory::ExternalWindow;
use crate::registry::{AnchorInfo, AnchorState, Registry};
use crate::resolver::{find_nearest_window, nearest};

verus! {

/// Why a note could not be anchored.
#[derive(Clone, Copy, Debug, PartialEq, Eq, Structural)]
pub enum AnchorError {
    /// No window of another application is on screen.
    NoCandidates,
    /// The position or the size of the note could not be read.
    GeometryUnavailable,
}

impl AnchorError {
    /// The reason in words, for display to the user.
    pub fn message(&self) -> (text: String)
        ensures
            text@ == (match *self {
                AnchorError::NoCandidates => "No external windows found to anchor to"@,
                AnchorError::GeometryUnavailable => "Could not read the position and size of the note"@,
            }),
    {
        match self {
            AnchorError::NoCandidates => "No external windows found to anchor to".to_owned(),
            AnchorError::GeometryUnavailable => "Could not read the position and size of the note".to_owned(),
        }
    }
}

/// What a successful anchoring reports.
#[derive(Clone, Debug, PartialEq, Eq)]
pub struct Attached {
    /// Name of the application that owns the chosen target.
    pub target_name: String,
    /// Whether the caller has to start the tracking loop: true for the one
    /// call that found the loop at rest.
    pub start_polling: bool,
}

/// What a toggle did.
#[derive(Clone, Debug, PartialEq, Eq)]
pub enum Toggled {
    /// The note was anchored before and has been released.
    Detached,
    /// The note was free and has been anchored.
    Attached(Attached),
}

/// The anchor that binds a note at `local` to `target`: the target's handle
/// and name, and the note's position relative to the target's.
pub open spec fn anchor_for(local: Rect, target: ExternalWindow) -> AnchorInfo {
    AnchorInfo {
        target_window_id: target.id,
        offset_x: (local.x - target.x) as i64,
        offset_y: (local.y - target.y) as i64,
        target_app_name: target.owner_name,
    }
}

/// Why anchoring fails on these inputs, if it does. An empty inventory is
/// reported before unreadable geometry.
pub open spec fn attach_error(local: Option<Rect>, external: Seq<ExternalWindow>) -> Option<
    AnchorError,
> {
    if external.len() == 0 {
        Some(AnchorError::NoCandidates)
    } else if local.is_none() {
        Some(AnchorError::GeometryUnavailable)
    } else {
        None
    }
}

/// Raises the flag of the tracking loop. Returns whether the caller has to
/// start the loop, which is so when the flag was down.
pub fn start_polling_if_needed(state: &mut AnchorState) -> (start: bool)
    requires
        old(state).wf(),
    ensures
        final(state).wf(),
        start == old(state)@.must_start_loop(),
        final(state)@.anchors == old(state)@.anchors,
        final(state)@.polling_active,
{
    !state.get_and_set_polling_flag()
}

/// Anchors the note labelled `label` to the external window nearest to it.
///
/// `local` is the frame of the note, `None` where it could not be read, and
/// `external` the inventory. On success the registry holds the new anchor
/// under `label` and the loop's flag is up. On failure the registry is as it
/// was.
pub fn anchor_to_nearest(
    state: &mut AnchorState,
    label: String,
    local: Option<Rect>,
    external: &[ExternalWindow],
) -> (result: Result<Attached, AnchorError>)
    requires
        old(state).wf(),
    ensures
        final(state).wf(),
        match result {
            Ok(attached) => {
                &&& attach_error(local, external@).is_none()
                &&& final(state)@ == old(state)@.attach(
                    label@,
                    anchor_for(local.unwrap(), nearest(local.unwrap(), external@).unwrap()),
                )
                &&& attached.target_name == nearest(local.unwrap(), external@).unwrap().owner_name
                &&& attached.start_polling == old(state)@.must_start_loop()
            },
            Err(error) => {
                &&& attach_error(local, external@) == Some(error)
                &&& final(state)@ == old(state)@
            },
        },
{
    if external.len() == 0 {
        return Err(AnchorError::NoCandidates);
    }
    let frame = match local {
        Some(frame) => frame,
        None => {
            return Err(AnchorError::GeometryUnavailable);
        },
    };
    let target = match find_nearest_window(frame.x, frame.y, frame.width, frame.height, external) {
        Some(target) => target,
        None => {
            return Err(AnchorError::NoCandidates);
        },
    };
    let info = AnchorInfo {
        target_window_id: target.id,
        offset_x: frame.x as i64 - target.x as i64,
        offset_y: frame.y as i64 - target.y as i64,
        target_app_name: target.owner_name.clone(),
    };
    let target_name = target.owner_name.clone();
    state.insert(label, info);
    let start_polling = start_polling_if_needed(state);
    Ok(Attached { target_name, start_polling })
}

/// Releases the note labelled `label`. Releasing a note that is not anchored
/// changes nothing.
pub fn unanchor(state: &mut AnchorState, label: &String)
    requires
        old(state).wf(),
    ensures
        final(state).wf(),
        final(state)@ == old(state)@.detach(label@),
{
    state.remove(label);
}

/// Releases the note labelled `label` if it is anchored, and anchors it as
/// [`anchor_to_nearest`] does if it is not.
pub fn toggle(
    state: &mut AnchorState,
    label: String,
    local: Option<Rect>,
    external: &[ExternalWindow],
) -> (result: Result<Toggled, AnchorError>)
    requires
        old(state).wf(),
    ensures
        final(state).wf(),
        old(state)@.anchors.contains_key(label@) ==> result == Ok::<Toggled, AnchorError>(
            Toggled::Detached,
        ) && final(state)@ == old(state)@.detach(label@),
        !old(state)@.anchors.contains_key(label@) ==> match result {
            Ok(Toggled::Attached(attached)) => {
                &&& attach_error(local, external@).is_none()
                &&& final(state)@ == old(state)@.attach(
                    label@,
                    anchor_for(local.unwrap(), nearest(local.unwrap(), external@).unwrap()),
                )
                &&& attached.target_name == nearest(local.unwrap(), external@).unwrap().owner_name
                &&& attached.start_polling == old(state)@.must_start_loop()
            },
            Ok(Toggled::Detached) => false,
            Err(error) => {
                &&& attach_error(local, external@) == Some(error)
                &&& final(state)@ == old(state)@
            },
        },
{
    if state.is_anchored(&label) {
        unanchor(state, &label);
        Ok(Toggled::Detached)
    } else {
        match anchor_to_nearest(state, label, local, external) {
            Ok(attached) => Ok(Toggled::Attached(attached)),
            Err(error) => Err(error),
        }
    }
}

/// Anchoring starts the loop once: whatever the registry was, after a note
/// has been anchored the flag is up, and a further anchoring finds it up and
/// does not start the loop again.
pub proof fn loop_starts_once(
    before: Registry,
    first_label: Seq<char>,
    first_anchor: AnchorInfo,
    second_label: Seq<char>,
    second_anchor: AnchorInfo,
)
    ensures
        before.attach(first_label, first_anchor).polling_active,
        !before.attach(first_label, first_anchor).must_start_loop(),
        !before.attach(first_label, first_anchor).attach(
            second_label,
            second_anchor,
        ).must_start_loop(),
{
}

/// The loop ends when the last note is released: once the only anchored note
/// is released, the next tick that starts finds the registry empty and lowers
/// the flag.
pub proof fn loop_ends_after_last_release(before: Registry, label: Seq<char>)
    requires
        before.anchors.dom() =~= set![label],
    ensures
        before.detach(label).is_empty(),
        !before.detach(label).begin_tick().polling_active,
{
    assert(before.detach(label).anchors =~= Map::<Seq<char>, AnchorInfo>::empty());
}

/// While any note is anchored a tick keeps the loop alive and leaves the
/// registry as it is.
pub proof fn loop_lives_while_anchored(before: Registry, label: Seq<char>)
    requires
        before.anchors.contains_key(label),
    ensures
        before.begin_tick() == before,
{
    assert(!Map::<Seq<char>, AnchorInfo>::empty().contains_key(label));
}

/// Releasing is idempotent: releasing a note twice, or a note that was never
/// anchored, leaves the registry as one release does.
pub proof fn release_is_idempotent(before: Registry, label: Seq<char>)
    ensures
        before.detach(label).detach(label) == before.detach(label),
        !before.anchors.contains_key(label) ==> before.detach(label) == before,
{
    assert(before.detach(label).detach(label).anchors =~= before.detach(label).anchors);
    if !before.anchors.contains_key(label) {
        assert(before.detach(label).anchors =~= before.anchors);
    }
}

} // verus!

//! Choosing a window from the inventory: the one nearest to a note, and the
//! one that carries a given handle.

use vstd::prelude::*;
use crate::geometry::{centroid_distance, centroid_distance_of, Rect};
use crate::inventory::ExternalWindow;

verus! {

/// Whether `candidates[i]` is the candidate nearest to `local`: none has its
/// centre nearer to the centre of `local`, and none before it is as near.
pub open spec fn is_nearest(local: Rect, candidates: Seq<ExternalWindow>, i: int) -> bool {
    &&& 0 <= i < candidates.len()
    &&& forall|j: int|
        0 <= j < candidates.len() ==> centroid_distance(local, candidates[i].rect())
            <= centroid_distance(local, (#[trigger] candidates[j]).rect())
    &&& forall|j: int|
        0 <= j < i ==> centroid_distance(local, candidates[i].rect()) < centroid_distance(
            local,
            (#[trigger] candidates[j]).rect(),
        )
}

/// The index of the candidate nearest to `local`. Among candidates at the same
/// distance the first in the sequence is chosen, so the choice depends on the
/// order of the inventory, which the window server does not fix.
pub open spec fn nearest_index(local: Rect, candidates: Seq<ExternalWindow>) -> int {
    choose|i: int| is_nearest(local, candidates, i)
}

/// The candidate nearest to `local`, if there is any candidate.
pub open spec fn nearest(local: Rect, candidates: Seq<ExternalWindow>) -> Option<ExternalWindow> {
    if candidates.len() == 0 {
        None
    } else {
        Some(candidates[nearest_index(local, candidates)])
    }
}

/// At most one candidate is the nearest.
pub proof fn nearest_is_unique(local: Rect, candidates: Seq<ExternalWindow>, i: int, k: int)
    requires
        is_nearest(local, candidates, i),
        is_nearest(local, candidates, k),
    ensures
        i == k,
{
    if i < k {
        assert(centroid_distance(local, candidates[k].rect()) < centroid_distance(
            local,
            candidates[i].rect(),
        ));
        assert(centroid_distance(local, candidates[i].rect()) <= centroid_distance(
            local,
            candidates[k].rect(),
        ));
    } else if k < i {
        assert(centroid_distance(local, candidates[i].rect()) < centroid_distance(
            local,
            candidates[k].rect(),
        ));
        assert(centroid_distance(local, candidates[k].rect()) <= centroid_distance(
            local,
            candidates[i].rect(),
        ));
    }
}

/// Every inventory that is not empty has a nearest candidate.
pub proof fn nearest_exists(local: Rect, candidates: Seq<ExternalWindow>)
    requires
        candidates.len() > 0,
    ensures
        is_nearest(local, candidates, nearest_index(local, candidates)),
    decreases candidates.len(),
{
    let last = candidates.len() - 1;
    if last == 0 {
        assert(is_nearest(local, candidates, 0));
    } else {
        let rest = candidates.drop_last();
        nearest_exists(local, rest);
        let before = nearest_index(local, rest);
        assert forall|j: int| 0 <= j < rest.len() implies (#[trigger] candidates[j]) == rest[j] by {}
        assert(candidates[before] == rest[before]);
        if centroid_distance(local, candidates[last].rect()) < centroid_distance(
            local,
            candidates[before].rect(),
        ) {
            assert forall|j: int| 0 <= j < candidates.len() implies centroid_distance(
                local,
                candidates[last].rect(),
            ) <= centroid_distance(local, (#[trigger] candidates[j]).rect()) by {
                if j < last {
                    assert(candidates[j] == rest[j]);
                }
            }
            assert forall|j: int| 0 <= j < last implies centroid_distance(
                local,
                candidates[last].rect(),
            ) < centroid_distance(local, (#[trigger] candidates[j]).rect()) by {
                assert(candidates[j] == rest[j]);
            }
            assert(is_nearest(local, candidates, last));
        } else {
            assert forall|j: int| 0 <= j < candidates.len() implies centroid_distance(
                local,
                candidates[before].rect(),
            ) <= centroid_distance(local, (#[trigger] candidates[j]).rect()) by {
                if j < last {
                    assert(candidates[j] == rest[j]);
                }
            }
            assert forall|j: int| 0 <= j < before implies centroid_distance(
                local,
                candidates[before].rect(),
            ) < centroid_distance(local, (#[trigger] candidates[j]).rect()) by {
                assert(candidates[j] == rest[j]);
            }
            assert(is_nearest(local, candidates, before));
        }
    }
}

/// Finds the window whose centre is nearest to the centre of the note at
/// (`sticky_x`, `sticky_y`) with extent `sticky_w` by `sticky_h`.
///
/// Returns `None` only for an empty inventory.
pub fn find_nearest_window(
    sticky_x: i32,
    sticky_y: i32,
    sticky_w: i32,
    sticky_h: i32,
    external_windows: &[ExternalWindow],
) -> (found: Option<&ExternalWindow>)
    ensures
        match found {
            Some(window) => Some(*window) == nearest(
                Rect { x: sticky_x, y: sticky_y, width: sticky_w, height: sticky_h },
                external_windows@,
            ),
            None => external_windows@.len() == 0,
        },
{
    if external_windows.len() == 0 {
        return None;
    }
    let local = Rect { x: sticky_x, y: sticky_y, width: sticky_w, height: sticky_h };
    let mut best: usize = 0;
    let mut best_distance: u128 = centroid_distance_of(&local, &external_windows[0].frame());
    let mut i: usize = 1;
    while i < external_windows.len()
        invariant
            1 <= i <= external_windows.len(),
            0 <= best < i,
            best_distance == centroid_distance(local, external_windows@[best as int].rect()),
            forall|j: int|
                0 <= j < i ==> best_distance <= centroid_distance(
                    local,
                    (#[trigger] external_windows@[j]).rect(),
                ),
            forall|j: int|
                0 <= j < best ==> best_distance < centroid_distance(
                    local,
                    (#[trigger] external_windows@[j]).rect(),
                ),
        decreases external_windows.len() - i,
    {
        let distance: u128 = centroid_distance_of(&local, &external_windows[i].frame());
        if distance < best_distance {
            best = i;
            best_distance = distance;
        }
        i += 1;
    }
    proof {
        nearest_exists(local, external_windows@);
        nearest_is_unique(
            local,
            external_windows@,
            best as int,
            nearest_index(local, external_windows@),
        );
    }
    Some(&external_windows[best])
}

/// Whether `windows[i]` is the first window that carries the handle `id`.
pub open spec fn is_first_with_id(windows: Seq<ExternalWindow>, id: u32, i: int) -> bool {
    &&& 0 <= i < windows.len()
    &&& windows[i].id == id
    &&& forall|j: int| 0 <= j < i ==> (#[trigger] windows[j]).id != id
}

/// Whether some window of the inventory carries the handle `id`.
pub open spec fn has_window(windows: Seq<ExternalWindow>, id: u32) -> bool {
    exists|i: int| 0 <= i < windows.len() && (#[trigger] windows[i]).id == id
}

/// The first window of the inventory that carries the handle `id`.
pub open spec fn window_by_id(windows: Seq<ExternalWindow>, id: u32) -> Option<ExternalWindow> {
    if has_window(windows, id) {
        Some(windows[choose|i: int| is_first_with_id(windows, id, i)])
    } else {
        None
    }
}

/// Looks a window up by its handle. Where several windows carry the handle,
/// the first in the inventory is returned.
pub fn find_window_by_id(id: u32, windows: &[ExternalWindow]) -> (found: Option<&ExternalWindow>)
    ensures
        match found {
            Some(window) => Some(*window) == window_by_id(windows@, id),
            None => window_by_id(windows@, id).is_none(),
        },
        found.is_some() == has_window(windows@, id),
        found.is_some() ==> found.unwrap().id == id,
{
    let mut i: usize = 0;
    while i < windows.len()
        invariant
            0 <= i <= windows.len(),
            forall|j: int| 0 <= j < i ==> (#[trigger] windows@[j]).id != id,
        decreases windows.len() - i,
    {
        if windows[i].id == id {
            proof {
                let first = choose|k: int| is_first_with_id(windows@, id, k);
                assert(is_first_with_id(windows@, id, i as int));
                assert(first == i);
            }
            return Some(&windows[i]);
        }
        i += 1;
    }
    None
}

} // verus!

//! The registry of anchors: which note is glued to which window, and whether
//! the tracking loop is alive.
//!
//! The registry is a plain value. The application keeps the one instance
//! behind a single lock and enters it for one short operation at a time, so
//! that the anchors and the loop's flag always change together.

use vstd::prelude::*;

verus! {

/// Largest distance, in coordinate units, between two coordinates.
pub const MAX_OFFSET: i64 = 0xFFFF_FFFF;

/// The bond between a note and the window it follows.
///
/// The offset is the note's position minus the target's position at the
/// moment of anchoring. Nothing changes it afterwards.
#[derive(Clone, Debug, PartialEq, Eq)]
pub struct AnchorInfo {
    pub target_window_id: u32,
    pub offset_x: i64,
    pub offset_y: i64,
    /// Name of the application that owns the target; for display only.
    pub target_app_name: String,
}

impl AnchorInfo {
    /// An offset is the difference of two coordinates and cannot exceed
    /// `MAX_OFFSET` in either direction.
    pub open spec fn wf(self) -> bool {
        &&& -MAX_OFFSET <= self.offset_x <= MAX_OFFSET
        &&& -MAX_OFFSET <= self.offset_y <= MAX_OFFSET
    }

    /// Checks [`AnchorInfo::wf`].
    pub fn is_well_formed(&self) -> (well_formed: bool)
        ensures
            well_formed == self.wf(),
    {
        -MAX_OFFSET <= self.offset_x && self.offset_x <= MAX_OFFSET && -MAX_OFFSET
            <= self.offset_y && self.offset_y <= MAX_OFFSET
    }

    /// A copy of the anchor.
    pub fn duplicate(&self) -> (copy: AnchorInfo)
        ensures
            copy == *self,
    {
        AnchorInfo {
            target_window_id: self.target_window_id,
            offset_x: self.offset_x,
            offset_y: self.offset_y,
            target_app_name: self.target_app_name.clone(),
        }
    }
}

/// One entry of the registry: the label of a note and its anchor.
#[derive(Clone, Debug, PartialEq, Eq)]
pub struct Anchored {
    pub label: String,
    pub anchor: AnchorInfo,
}

/// Whether `label` is the label of one of `entries`.
pub open spec fn has_label(entries: Seq<Anchored>, label: Seq<char>) -> bool {
    exists|i: int| 0 <= i < entries.len() && (#[trigger] entries[i]).label@ == label
}

/// The index of an entry labelled `label`.
pub open spec fn index_of_label(entries: Seq<Anchored>, label: Seq<char>) -> int {
    choose|i: int| 0 <= i < entries.len() && (#[trigger] entries[i]).label@ == label
}

/// Whether no label occurs twice in `entries`.
pub open spec fn distinct_labels(entries: Seq<Anchored>) -> bool {
    forall|i: int, j: int|
        0 <= i < entries.len() && 0 <= j < entries.len() && i != j ==> (#[trigger] entries[i]).label@
            != (#[trigger] entries[j]).label@
}

/// Whether every anchor in `entries` is well-formed.
pub open spec fn anchors_wf(entries: Seq<Anchored>) -> bool {
    forall|i: int| 0 <= i < entries.len() ==> (#[trigger] entries[i]).anchor.wf()
}

/// The mapping from label to anchor that `entries` spell out.
pub open spec fn anchors_of(entries: Seq<Anchored>) -> Map<Seq<char>, AnchorInfo> {
    Map::new(
        |label: Seq<char>| has_label(entries, label),
        |label: Seq<char>| entries[index_of_label(entries, label)].anchor,
    )
}

/// With distinct labels, each entry is what the mapping holds under its label.
pub proof fn lemma_entry_in_map(entries: Seq<Anchored>, i: int)
    requires
        distinct_labels(entries),
        0 <= i < entries.len(),
    ensures
        anchors_of(entries).contains_key(entries[i].label@),
        anchors_of(entries)[entries[i].label@] == entries[i].anchor,
        index_of_label(entries, entries[i].label@) == i,
{
    let label = entries[i].label@;
    assert(has_label(entries, label));
    let k = index_of_label(entries, label);
    assert(0 <= k < entries.len() && entries[k].label@ == label);
}

/// Appending an entry under a fresh label inserts it into the mapping.
pub proof fn lemma_push_entry(entries: Seq<Anchored>, entry: Anchored)
    requires
        distinct_labels(entries),
        !has_label(entries, entry.label@),
    ensures
        distinct_labels(entries.push(entry)),
        anchors_of(entries.push(entry)) == anchors_of(entries).insert(entry.label@, entry.anchor),
{
    let after = entries.push(entry);
    assert forall|i: int, j: int|
        0 <= i < after.len() && 0 <= j < after.len() && i != j implies (#[trigger] after[i]).label@
        != (#[trigger] after[j]).label@ by {
        if i < entries.len() {
            assert(after[i] == entries[i]);
        }
        if j < entries.len() {
            assert(after[j] == entries[j]);
        }
    }
    assert forall|label: Seq<char>| has_label(after, label) <==> (has_label(entries, label)
        || label == entry.label@) by {
        if has_label(entries, label) {
            let i = index_of_label(entries, label);
            assert(after[i] == entries[i]);
        }
        if label == entry.label@ {
            assert(after[entries.len() as int] == entry);
        }
        if has_label(after, label) {
            let i = index_of_label(after, label);
            if i < entries.len() {
                assert(after[i] == entries[i]);
            }
        }
    }
    assert forall|label: Seq<char>| has_label(after, label) implies anchors_of(after)[label]
        == anchors_of(entries).insert(entry.label@, entry.anchor)[label] by {
        let i = index_of_label(after, label);
        lemma_entry_in_map(after, i);
        if i < entries.len() {
            assert(after[i] == entries[i]);
            lemma_entry_in_map(entries, i);
        }
    }
    assert(anchors_of(after) =~= anchors_of(entries).insert(entry.label@, entry.anchor));
}

/// Taking an entry out removes its label from the mapping.
pub proof fn lemma_remove_entry(entries: Seq<Anchored>, i: int)
    requires
        distinct_labels(entries),
        0 <= i < entries.len(),
    ensures
        distinct_labels(entries.remove(i)),
        anchors_of(entries.remove(i)) == anchors_of(entries).remove(entries[i].label@),
{
    let after = entries.remove(i);
    let gone = entries[i].label@;
    assert forall|a: int, b: int|
        0 <= a < after.len() && 0 <= b < after.len() && a != b implies (#[trigger] after[a]).label@
        != (#[trigger] after[b]).label@ by {
        let a0 = if a < i { a } else { a + 1 };
        let b0 = if b < i { b } else { b + 1 };
        assert(after[a] == entries[a0]);
        assert(after[b] == entries[b0]);
    }
    assert forall|label: Seq<char>| has_label(after, label) <==> (has_label(entries, label)
        && label != gone) by {
        if has_label(after, label) {
            let a = index_of_label(after, label);
            let a0 = if a < i { a } else { a + 1 };
            assert(after[a] == entries[a0]);
        }
        if has_label(entries, label) && label != gone {
            let k = index_of_label(entries, label);
            let k1 = if k < i { k } else { k - 1 };
            assert(after[k1] == entries[k]);
        }
    }
    assert forall|label: Seq<char>| has_label(after, label) implies anchors_of(after)[label]
        == anchors_of(entries).remove(gone)[label] by {
        let a = index_of_label(after, label);
        let a0 = if a < i { a } else { a + 1 };
        assert(after[a] == entries[a0]);
        lemma_entry_in_map(after, a);
        lemma_entry_in_map(entries, a0);
    }
    assert(anchors_of(after) =~= anchors_of(entries).remove(gone));
}

/// What the registry holds, as a mathematical value.
pub struct Registry {
    /// The anchor of each anchored note, by the note's label.
    pub anchors: Map<Seq<char>, AnchorInfo>,
    /// Whether the tracking loop is alive.
    pub polling_active: bool,
}

impl Registry {
    /// The registry with no anchor and the loop at rest.
    pub open spec fn idle() -> Registry {
        Registry { anchors: Map::empty(), polling_active: false }
    }

    /// Whether no note is anchored.
    pub open spec fn is_empty(self) -> bool {
        self.anchors == Map::<Seq<char>, AnchorInfo>::empty()
    }

    /// The registry after the note `label` was anchored by `anchor`: the
    /// note has this anchor, in place of any other, and the loop is alive.
    pub open spec fn attach(self, label: Seq<char>, anchor: AnchorInfo) -> Registry {
        Registry { anchors: self.anchors.insert(label, anchor), polling_active: true }
    }

    /// Whether anchoring a note must start the loop: it must where the loop
    /// is at rest.
    pub open spec fn must_start_loop(self) -> bool {
        !self.polling_active
    }

    /// The registry after the note `label` was released.
    pub open spec fn detach(self, label: Seq<char>) -> Registry {
        Registry { anchors: self.anchors.remove(label), polling_active: self.polling_active }
    }

    /// The registry after a tick has started: with no anchor left the loop
    /// has ended, otherwise nothing has changed.
    pub open spec fn begin_tick(self) -> Registry {
        if self.is_empty() {
            Registry { anchors: self.anchors, polling_active: false }
        } else {
            self
        }
    }

    /// The registry after a tick has given up the anchors of `dropped`.
    pub open spec fn finish_tick(self, dropped: Set<Seq<char>>) -> Registry {
        Registry {
            anchors: self.anchors.remove_keys(dropped),
            polling_active: self.polling_active,
        }
    }
}

/// The registry: at most one anchor for each note, and the flag of the
/// tracking loop.
#[derive(Debug)]
pub struct AnchorState {
    entries: Vec<Anchored>,
    polling_active: bool,
}

impl Default for AnchorState {
    /// An empty registry with the tracking loop at rest.
    fn default() -> (state: AnchorState)
        ensures
            state.wf(),
            state@ == Registry::idle(),
    {
        AnchorState::new()
    }
}

impl View for AnchorState {
    type V = Registry;

    closed spec fn view(&self) -> Registry {
        Registry { anchors: anchors_of(self.entries@), polling_active: self.polling_active }
    }
}

impl AnchorState {
    /// The invariant of the registry: no label is held twice and every anchor
    /// is well-formed.
    pub closed spec fn wf(&self) -> bool {
        &&& distinct_labels(self.entries@)
        &&& anchors_wf(self.entries@)
    }

    /// An empty registry with the tracking loop at rest.
    pub fn new() -> (state: AnchorState)
        ensures
            state.wf(),
            state@ == Registry::idle(),
    {
        let state = AnchorState { entries: Vec::new(), polling_active: false };
        proof {
            assert(state@.anchors =~= Map::<Seq<char>, AnchorInfo>::empty());
        }
        state
    }

    /// Position of the entry labelled `label`.
    fn position(&self, label: &String) -> (found: Option<usize>)
        requires
            self.wf(),
        ensures
            match found {
                Some(i) => i < self.entries@.len() && self.entries@[i as int].label@ == label@,
                None => !has_label(self.entries@, label@),
            },
    {
        let mut i: usize = 0;
        while i < self.entries.len()
            invariant
                0 <= i <= self.entries.len(),
                forall|j: int| 0 <= j < i ==> (#[trigger] self.entries@[j]).label@ != label@,
            decreases self.entries.len() - i,
        {
            if self.entries[i].label == *label {
                return Some(i);
            }
            i += 1;
        }
        None
    }

    /// Whether the tracking loop is alive.
    pub fn polling_active(&self) -> (active: bool)
        ensures
            active == self@.polling_active,
    {
        self.polling_active
    }

    /// Number of anchored notes.
    pub fn len(&self) -> (count: usize)
        requires
            self.wf(),
        ensures
            count == self@.anchors.len(),
            self@.anchors.dom().finite(),
    {
        proof {
            lemma_anchor_count(self.entries@);
        }
        self.entries.len()
    }

    /// Whether no note is anchored.
    pub fn is_empty(&self) -> (empty: bool)
        ensures
            empty == self@.is_empty(),
    {
        proof {
            if self.entries@.len() == 0 {
                assert(self@.anchors =~= Map::<Seq<char>, AnchorInfo>::empty());
            } else {
                assert(has_label(self.entries@, self.entries@[0].label@));
                assert(self@.anchors.contains_key(self.entries@[0].label@));
            }
        }
        self.entries.len() == 0
    }

    /// Whether the note labelled `label` is anchored.
    pub fn is_anchored(&self, label: &String) -> (anchored: bool)
        requires
            self.wf(),
        ensures
            anchored == self@.anchors.contains_key(label@),
    {
        self.position(label).is_some()
    }

    /// The anchor of the note labelled `label`.
    pub fn get(&self, label: &String) -> (anchor: Option<&AnchorInfo>)
        requires
            self.wf(),
        ensures
            match anchor {
                Some(info) => self@.anchors.contains_key(label@) && *info == self@.anchors[label@]
                    && info.wf(),
                None => !self@.anchors.contains_key(label@),
            },
    {
        match self.position(label) {
            Some(i) => {
                proof {
                    lemma_entry_in_map(self.entries@, i as int);
                }
                Some(&self.entries[i].anchor)
            },
            None => None,
        }
    }

    /// Anchors the note labelled `label`, in place of any anchor it had.
    pub fn insert(&mut self, label: String, anchor: AnchorInfo)
        requires
            old(self).wf(),
            anchor.wf(),
        ensures
            final(self).wf(),
            final(self)@.anchors == old(self)@.anchors.insert(label@, anchor),
            final(self)@.polling_active == old(self)@.polling_active,
    {
        self.remove(&label);
        proof {
            assert(!self@.anchors.contains_key(label@));
            assert(!has_label(self.entries@, label@));
            lemma_push_entry(self.entries@, Anchored { label, anchor });
            assert(old(self)@.anchors.remove(label@).insert(label@, anchor) =~= old(
                self,
            )@.anchors.insert(label@, anchor));
        }
        self.entries.push(Anchored { label, anchor });
    }

    /// Drops the anchor of the note labelled `label`, if it has one.
    pub fn remove(&mut self, label: &String)
        requires
            old(self).wf(),
        ensures
            final(self).wf(),
            final(self)@ == old(self)@.detach(label@),
    {
        match self.position(label) {
            Some(i) => {
                proof {
                    lemma_remove_entry(self.entries@, i as int);
                }
                self.entries.remove(i);
            },
            None => {
                proof {
                    assert(old(self)@.anchors.remove(label@) =~= old(self)@.anchors);
                }
            },
        }
    }

    /// A copy of all entries, to be worked on without holding the registry.
    pub fn snapshot(&self) -> (entries: Vec<Anchored>)
        requires
            self.wf(),
        ensures
            distinct_labels(entries@),
            anchors_wf(entries@),
            anchors_of(entries@) == self@.anchors,
    {
        let mut entries: Vec<Anchored> = Vec::new();
        let mut i: usize = 0;
        while i < self.entries.len()
            invariant
                0 <= i <= self.entries.len(),
                entries@ == self.entries@.take(i as int),
            decreases self.entries.len() - i,
        {
            let entry = &self.entries[i];
            entries.push(Anchored { label: entry.label.clone(), anchor: entry.anchor.duplicate() });
            proof {
                assert(entries@ =~= self.entries@.take(i + 1));
            }
            i += 1;
        }
        proof {
            assert(self.entries@.take(self.entries.len() as int) == self.entries@);
        }
        entries
    }

    /// Raises the flag of the tracking loop and tells what it was before.
    pub fn get_and_set_polling_flag(&mut self) -> (previous: bool)
        ensures
            previous == old(self)@.polling_active,
            final(self)@.polling_active,
            final(self)@.anchors == old(self)@.anchors,
            old(self).wf() ==> final(self).wf(),
    {
        let previous = self.polling_active;
        self.polling_active = true;
        previous
    }

    /// Lowers the flag of the tracking loop.
    pub fn clear_polling_flag(&mut self)
        ensures
            !final(self)@.polling_active,
            final(self)@.anchors == old(self)@.anchors,
            old(self).wf() ==> final(self).wf(),
    {
        self.polling_active = false;
    }
}

/// With distinct labels the mapping has as many keys as there are entries.
pub proof fn lemma_anchor_count(entries: Seq<Anchored>)
    requires
        distinct_labels(entries),
    ensures
        anchors_of(entries).dom().finite(),
        anchors_of(entries).len() == entries.len(),
    decreases entries.len(),
{
    if entries.len() == 0 {
        assert(anchors_of(entries) =~= Map::<Seq<char>, AnchorInfo>::empty());
    } else {
        let last = entries.last();
        let rest = entries.drop_last();
        assert forall|i: int, j: int|
            0 <= i < rest.len() && 0 <= j < rest.len() && i != j implies (#[trigger] rest[i]).label@
            != (#[trigger] rest[j]).label@ by {
            assert(rest[i] == entries[i]);
            assert(rest[j] == entries[j]);
        }
        if has_label(rest, last.label@) {
            let k = index_of_label(rest, last.label@);
            assert(rest[k] == entries[k]);
            assert(entries[entries.len() - 1] == last);
        }
        lemma_anchor_count(rest);
        lemma_push_entry(rest, last);
        assert(rest.push(last) =~= entries);
    }
}

} // verus!

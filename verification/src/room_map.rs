//! Which chat room each child webview belongs to.

use vstd::prelude::*;

verus! {

/// The entries of a room map: (label, room id) pairs.
struct RoomEntries {
    entries: Vec<(String, String)>,
}

/// Maps each child webview label to the id of the room it was opened from.
/// Labels are unique; the order of the entries carries no meaning.
pub struct RoomMap {
    inner: RoomEntries,
}

/// The labels of `m` that belong to `room`.
pub open spec fn labels_of_room(m: Map<Seq<char>, Seq<char>>, room: Seq<char>) -> Set<Seq<char>> {
    m.dom().filter(|k: Seq<char>| m[k] == room)
}

/// The characters of each string of `v`.
pub open spec fn strings_view(v: Seq<String>) -> Seq<Seq<char>> {
    v.map_values(|s: String| s@)
}

/// No string occurs twice in `v`.
pub open spec fn distinct_strings(v: Seq<String>) -> bool {
    forall|i: int, j: int| 0 <= i < v.len() && 0 <= j < v.len() && i != j ==> v[i]@ != v[j]@
}

impl RoomEntries {
    spec fn key_at(&self, i: int) -> Seq<char> {
        self.entries@[i].0@
    }

    spec fn val_at(&self, i: int) -> Seq<char> {
        self.entries@[i].1@
    }

    spec fn has_key(&self, k: Seq<char>) -> bool {
        exists|i: int| 0 <= i < self.entries@.len() && self.key_at(i) == k
    }

    spec fn value_of(&self, k: Seq<char>) -> Seq<char> {
        self.val_at(choose|i: int| 0 <= i < self.entries@.len() && self.key_at(i) == k)
    }

    /// No label occurs in two entries.
    pub closed spec fn wf(&self) -> bool {
        forall|i: int, j: int|
            0 <= i < self.entries@.len() && 0 <= j < self.entries@.len() && i != j
                ==> self.key_at(i) != self.key_at(j)
    }

    proof fn lemma_entry(&self, i: int)
        requires
            self.wf(),
            0 <= i < self.entries@.len(),
        ensures
            self@.contains_key(self.key_at(i)),
            self@[self.key_at(i)] == self.val_at(i),
    {
        let k = self.key_at(i);
        assert(self.has_key(k));
        let j = choose|j: int| 0 <= j < self.entries@.len() && self.key_at(j) == k;
        assert(j == i);
    }

    fn new() -> (m: RoomEntries)
        ensures
            m.wf(),
            m@ == Map::<Seq<char>, Seq<char>>::empty(),
    {
        let m = RoomEntries { entries: Vec::new() };
        assert(m@ =~= Map::<Seq<char>, Seq<char>>::empty());
        m
    }

    fn find(&self, label: &str) -> (r: Option<usize>)
        requires
            self.wf(),
        ensures
            match r {
                Some(i) => i < self.entries@.len() && self.key_at(i as int) == label@,
                None => !self@.contains_key(label@),
            },
    {
        let mut i: usize = 0;
        while i < self.entries.len()
            invariant
                i <= self.entries@.len(),
                forall|j: int| 0 <= j < i ==> self.key_at(j) != label@,
            decreases self.entries.len() - i,
        {
            if crate::text::str_eq(self.entries[i].0.as_str(), label) {
                return Some(i);
            }
            i = i + 1;
        }
        None
    }

    /// Records that the webview `label` belongs to `room_id`, replacing any
    /// room it was recorded under before.
    fn insert(&mut self, label: String, room_id: String)
        requires
            old(self).wf(),
        ensures
            final(self).wf(),
            final(self)@ == old(self)@.insert(label@, room_id@),
    {
        let ghost old_self = *self;
        let ghost k = label@;
        let ghost v = room_id@;
        match self.find(label.as_str()) {
            Some(i) => {
                self.entries.set(i, (label, room_id));
                assert forall|a: int, b: int|
                    0 <= a < self.entries@.len() && 0 <= b < self.entries@.len() && a != b
                        implies self.key_at(a) != self.key_at(b) by {
                    assert(old_self.key_at(a) != old_self.key_at(b));
                }
                assert forall|q: Seq<char>| #![auto] self@.contains_key(q) == old_self@.insert(k, v).contains_key(q) by {
                    if self.has_key(q) {
                        let j = choose|j: int| 0 <= j < self.entries@.len() && self.key_at(j) == q;
                        if j != i {
                            assert(old_self.key_at(j) == q);
                        }
                    }
                    if old_self.has_key(q) {
                        let j = choose|j: int| 0 <= j < old_self.entries@.len() && old_self.key_at(j) == q;
                        assert(self.key_at(j) == q);
                    }
                }
                assert forall|q: Seq<char>| #![auto] self@.contains_key(q) implies self@[q] == old_self@.insert(k, v)[q] by {
                    let j = choose|j: int| 0 <= j < self.entries@.len() && self.key_at(j) == q;
                    self.lemma_entry(j);
                    if j != i {
                        old_self.lemma_entry(j);
                    }
                }
                assert(self@ =~= old_self@.insert(k, v));
            },
            None => {
                self.entries.push((label, room_id));
                let ghost n = old_self.entries@.len() as int;
                assert forall|a: int, b: int|
                    0 <= a < self.entries@.len() && 0 <= b < self.entries@.len() && a != b
                        implies self.key_at(a) != self.key_at(b) by {
                    if a < n && b < n {
                        assert(old_self.key_at(a) != old_self.key_at(b));
                    } else if a < n {
                        old_self.lemma_entry(a);
                    } else {
                        old_self.lemma_entry(b);
                    }
                }
                assert forall|q: Seq<char>| #![auto] self@.contains_key(q) == old_self@.insert(k, v).contains_key(q) by {
                    if self.has_key(q) {
                        let j = choose|j: int| 0 <= j < self.entries@.len() && self.key_at(j) == q;
                        if j < n {
                            assert(old_self.key_at(j) == q);
                        }
                    }
                    if old_self.has_key(q) {
                        let j = choose|j: int| 0 <= j < old_self.entries@.len() && old_self.key_at(j) == q;
                        assert(self.key_at(j) == q);
                    }
                    if q == k {
                        assert(self.key_at(n) == q);
                    }
                }
                assert forall|q: Seq<char>| #![auto] self@.contains_key(q) implies self@[q] == old_self@.insert(k, v)[q] by {
                    let j = choose|j: int| 0 <= j < self.entries@.len() && self.key_at(j) == q;
                    self.lemma_entry(j);
                    if j < n {
                        old_self.lemma_entry(j);
                    }
                }
                assert(self@ =~= old_self@.insert(k, v));
            },
        }
    }

    /// Forgets the webview `label`.
    fn remove(&mut self, label: &str)
        requires
            old(self).wf(),
        ensures
            final(self).wf(),
            final(self)@ == old(self)@.remove(label@),
    {
        let ghost old_self = *self;
        let ghost k = label@;
        match self.find(label) {
            Some(i) => {
                let _ = self.entries.remove(i);
                let ghost sh = |j: int| if j < i { j } else { j + 1 };
                assert forall|j: int| 0 <= j < self.entries@.len() implies self.key_at(j) == old_self.key_at(sh(j))
                    && self.val_at(j) == old_self.val_at(sh(j)) by {}
                assert forall|a: int, b: int|
                    0 <= a < self.entries@.len() && 0 <= b < self.entries@.len() && a != b
                        implies self.key_at(a) != self.key_at(b) by {
                    assert(old_self.key_at(sh(a)) != old_self.key_at(sh(b)));
                }
                assert forall|q: Seq<char>| #![auto] self@.contains_key(q) == old_self@.remove(k).contains_key(q) by {
                    if self.has_key(q) {
                        let j = choose|j: int| 0 <= j < self.entries@.len() && self.key_at(j) == q;
                        assert(old_self.key_at(sh(j)) == q);
                        assert(old_self.key_at(i as int) != old_self.key_at(sh(j)));
                    }
                    if old_self.has_key(q) && q != k {
                        let j = choose|j: int| 0 <= j < old_self.entries@.len() && old_self.key_at(j) == q;
                        if j < i {
                            assert(self.key_at(j) == q);
                        } else {
                            assert(j != i);
                            assert(self.key_at(j - 1) == q);
                        }
                    }
                }
                assert forall|q: Seq<char>| #![auto] self@.contains_key(q) implies self@[q] == old_self@.remove(k)[q] by {
                    let j = choose|j: int| 0 <= j < self.entries@.len() && self.key_at(j) == q;
                    self.lemma_entry(j);
                    old_self.lemma_entry(sh(j));
                }
                assert(self@ =~= old_self@.remove(k));
            },
            None => {
                assert(self@ =~= old_self@.remove(k));
            },
        }
    }

    /// The labels recorded under `room_id`, each once.
    fn labels_in_room(&self, room_id: &str) -> (labels: Vec<String>)
        requires
            self.wf(),
        ensures
            strings_view(labels@).to_set() == labels_of_room(self@, room_id@),
            distinct_strings(labels@),
    {
        let mut out: Vec<String> = Vec::new();
        let ghost mut idx: Seq<int> = Seq::empty();
        let mut i: usize = 0;
        while i < self.entries.len()
            invariant
                self.wf(),
                i <= self.entries@.len(),
                out@.len() == idx.len(),
                forall|a: int| 0 <= a < idx.len() ==> 0 <= #[trigger] idx[a] < i
                    && out@[a]@ == self.key_at(idx[a]) && self.val_at(idx[a]) == room_id@,
                forall|a: int, b: int| 0 <= a < b < idx.len() ==> idx[a] < idx[b],
                forall|j: int| 0 <= j < i && self.val_at(j) == room_id@ ==> exists|a: int| 0 <= a < idx.len()
                    && #[trigger] idx[a] == j,
            decreases self.entries.len() - i,
        {
            let ghost prev = idx;
            if crate::text::str_eq(self.entries[i].1.as_str(), room_id) {
                out.push(self.entries[i].0.clone());
                proof {
                    idx = idx.push(i as int);
                    assert(idx[idx.len() - 1] == i);
                }
            }
            proof {
                assert forall|j: int| 0 <= j < i + 1 && self.val_at(j) == room_id@ implies exists|a: int|
                    0 <= a < idx.len() && #[trigger] idx[a] == j by {
                    if j == i {
                        assert(idx[idx.len() - 1] == j);
                    } else {
                        let a = choose|a: int| 0 <= a < prev.len() && #[trigger] prev[a] == j;
                        assert(idx[a] == prev[a]);
                    }
                }
            }
            i = i + 1;
        }
        assert forall|a: int, b: int| 0 <= a < out@.len() && 0 <= b < out@.len() && a != b
            implies out@[a]@ != out@[b]@ by {
            if a < b {
                assert(idx[a] < idx[b]);
            } else {
                assert(idx[b] < idx[a]);
            }
        }
        assert forall|q: Seq<char>| strings_view(out@).to_set().contains(q) == labels_of_room(self@, room_id@).contains(q) by {
            if strings_view(out@).to_set().contains(q) {
                let a = choose|a: int| 0 <= a < strings_view(out@).len() && strings_view(out@)[a] == q;
                assert(out@[a]@ == q);
                self.lemma_entry(idx[a]);
            }
            if labels_of_room(self@, room_id@).contains(q) {
                assert(self.has_key(q));
                let j = choose|j: int| 0 <= j < self.entries@.len() && self.key_at(j) == q;
                self.lemma_entry(j);
                let a = choose|a: int| 0 <= a < idx.len() && idx[a] == j;
                assert(strings_view(out@)[a] == q);
            }
        }
        assert(strings_view(out@).to_set() =~= labels_of_room(self@, room_id@));
        out
    }

    /// Every recorded label, each once.
    fn labels(&self) -> (labels: Vec<String>)
        requires
            self.wf(),
        ensures
            strings_view(labels@).to_set() == self@.dom(),
            distinct_strings(labels@),
    {
        let mut out: Vec<String> = Vec::new();
        let mut i: usize = 0;
        while i < self.entries.len()
            invariant
                self.wf(),
                i <= self.entries@.len(),
                out@.len() == i,
                forall|a: int| 0 <= a < i ==> #[trigger] out@[a]@ == self.key_at(a),
            decreases self.entries.len() - i,
        {
            out.push(self.entries[i].0.clone());
            i = i + 1;
        }
        assert forall|q: Seq<char>| strings_view(out@).to_set().contains(q) == self@.dom().contains(q) by {
            if strings_view(out@).to_set().contains(q) {
                let a = choose|a: int| 0 <= a < strings_view(out@).len() && strings_view(out@)[a] == q;
                assert(out@[a]@ == q);
                self.lemma_entry(a);
            }
            if self@.dom().contains(q) {
                let j = choose|j: int| 0 <= j < self.entries@.len() && self.key_at(j) == q;
                assert(strings_view(out@)[j] == q);
            }
        }
        assert(strings_view(out@).to_set() =~= self@.dom());
        out
    }
}

/// Law: a webview recorded under a room receives that room's broadcasts, and
/// no other room's.
pub proof fn law_recorded_webview_in_its_room(m: Map<Seq<char>, Seq<char>>, label: Seq<char>, room: Seq<char>, other: Seq<char>)
    requires
        other != room,
    ensures
        labels_of_room(m.insert(label, room), room).contains(label),
        !labels_of_room(m.insert(label, room), other).contains(label),
{
}

/// Law: a webview that was forgotten receives no room's broadcasts.
pub proof fn law_removed_webview_in_no_room(m: Map<Seq<char>, Seq<char>>, label: Seq<char>, room: Seq<char>)
    ensures
        !labels_of_room(m.remove(label), room).contains(label),
{
}

/// Law: recording or forgetting one webview leaves every other webview's room as it was.
pub proof fn law_other_webviews_unchanged(
    m: Map<Seq<char>, Seq<char>>,
    label: Seq<char>,
    room: Seq<char>,
    other: Seq<char>,
    any_room: Seq<char>,
)
    requires
        other != label,
    ensures
        labels_of_room(m.insert(label, room), any_room).contains(other) == labels_of_room(m, any_room).contains(other),
        labels_of_room(m.remove(label), any_room).contains(other) == labels_of_room(m, any_room).contains(other),
{
}

impl View for RoomEntries {
    type V = Map<Seq<char>, Seq<char>>;

    closed spec fn view(&self) -> Map<Seq<char>, Seq<char>> {
        Map::new(|k: Seq<char>| self.has_key(k), |k: Seq<char>| self.value_of(k))
    }
}

impl View for RoomMap {
    type V = Map<Seq<char>, Seq<char>>;

    closed spec fn view(&self) -> Map<Seq<char>, Seq<char>> {
        self.inner@
    }
}

impl RoomMap {
    #[verifier::type_invariant]
    spec fn labels_unique(self) -> bool {
        self.inner.wf()
    }

    /// The empty map.
    pub fn new() -> (m: RoomMap)
        ensures
            m@ == Map::<Seq<char>, Seq<char>>::empty(),
    {
        RoomMap { inner: RoomEntries::new() }
    }

    /// Records that the webview `label` belongs to `room_id`, replacing any
    /// room it was recorded under before.
    pub fn insert(&mut self, label: String, room_id: String)
        ensures
            final(self)@ == old(self)@.insert(label@, room_id@),
    {
        proof {
            use_type_invariant(&*self);
        }
        let mut e = RoomEntries::new();
        std::mem::swap(&mut e, &mut self.inner);
        e.insert(label, room_id);
        self.inner = e;
    }

    /// Forgets the webview `label`.
    pub fn remove(&mut self, label: &str)
        ensures
            final(self)@ == old(self)@.remove(label@),
    {
        proof {
            use_type_invariant(&*self);
        }
        let mut e = RoomEntries::new();
        std::mem::swap(&mut e, &mut self.inner);
        e.remove(label);
        self.inner = e;
    }

    /// The labels recorded under `room_id`, each once.
    pub fn labels_in_room(&self, room_id: &str) -> (labels: Vec<String>)
        ensures
            strings_view(labels@).to_set() == labels_of_room(self@, room_id@),
            distinct_strings(labels@),
    {
        proof {
            use_type_invariant(self);
        }
        self.inner.labels_in_room(room_id)
    }

    /// Every recorded label, each once.
    pub fn labels(&self) -> (labels: Vec<String>)
        ensures
            strings_view(labels@).to_set() == self@.dom(),
            distinct_strings(labels@),
    {
        proof {
            use_type_invariant(self);
        }
        self.inner.labels()
    }
}

} // verus!

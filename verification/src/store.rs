use vstd::prelude::*;

use crate::models::{Record, RecordView};

verus! {

/// What the record store can fail with.
#[derive(Debug, Clone, Copy, PartialEq, Eq)]
pub enum StoreError {
    /// Every identifier has been handed out; no further row can be inserted.
    Full,
    /// No row carries the requested identifier.
    NotFound,
}

/// The mathematical values of a sequence of records.
pub open spec fn views(rows: Seq<Record>) -> Seq<RecordView> {
    rows.map_values(|r: Record| r@)
}

/// The index of the first record carrying `id`, or -1 when none does.
pub open spec fn find_index(s: Seq<RecordView>, id: int) -> int
    decreases s.len(),
{
    if s.len() == 0 {
        -1
    } else if find_index(s.drop_last(), id) >= 0 {
        find_index(s.drop_last(), id)
    } else if s.last().id == id {
        s.len() - 1
    } else {
        -1
    }
}

/// The first record carrying `id`, if any.
pub open spec fn lookup(s: Seq<RecordView>, id: int) -> Option<RecordView> {
    if find_index(s, id) >= 0 {
        Some(s[find_index(s, id)])
    } else {
        None
    }
}

pub proof fn lemma_find_index_spec(s: Seq<RecordView>, id: int)
    ensures
        -1 <= find_index(s, id) < s.len(),
        find_index(s, id) >= 0 ==> s[find_index(s, id)].id == id,
        find_index(s, id) == -1 <==> (forall|i: int| 0 <= i < s.len() ==> s[i].id != id),
    decreases s.len(),
{
    if s.len() > 0 {
        lemma_find_index_spec(s.drop_last(), id);
        assert(forall|i: int| 0 <= i < s.len() - 1 ==> s[i] == s.drop_last()[i]);
        assert(s.last() == s[s.len() - 1]);
    }
}

/// `find_index` picks the earliest match.
pub proof fn lemma_find_index_first(s: Seq<RecordView>, id: int, i: int)
    requires
        0 <= i < s.len(),
        s[i].id == id,
        forall|j: int| 0 <= j < i ==> s[j].id != id,
    ensures
        find_index(s, id) == i,
    decreases s.len(),
{
    if i == s.len() - 1 {
        lemma_find_index_spec(s.drop_last(), id);
    } else {
        lemma_find_index_first(s.drop_last(), id, i);
    }
}

/// When no two records share an identifier, looking a record's own
/// identifier up finds exactly that record.
pub proof fn lemma_lookup_at(s: Seq<RecordView>, i: int)
    requires
        0 <= i < s.len(),
        forall|x: int, y: int| 0 <= x < y < s.len() ==> s[x].id != s[y].id,
    ensures
        find_index(s, s[i].id) == i,
        lookup(s, s[i].id) == Some(s[i]),
{
    assert forall|j: int| 0 <= j < i implies s[j].id != s[i].id by {
        assert(s[j].id != s[i].id);
    }
    lemma_find_index_first(s, s[i].id, i);
}

/// The record store: rows in insertion order, and the identifier the next
/// insertion will receive.
pub struct Store {
    pub rows: Vec<Record>,
    pub next_id: i64,
}

impl View for Store {
    type V = Seq<RecordView>;

    open spec fn view(&self) -> Seq<RecordView> {
        views(self.rows@)
    }
}

impl Store {
    /// Identifiers start at 1, stay below the next one to be assigned, and
    /// never repeat.
    pub open spec fn wf(self) -> bool {
        &&& 1 <= self.next_id
        &&& forall|i: int| 0 <= i < self@.len() ==> 1 <= (#[trigger] self@[i].id) < self.next_id
        &&& forall|i: int, j: int| 0 <= i < j < self@.len() ==> self@[i].id != self@[j].id
    }

    /// All timestamps held by the store are well formed.
    pub open spec fn wf_times(self) -> bool {
        forall|i: int|
            0 <= i < self.rows@.len() ==> (#[trigger] self.rows@[i]).wf()
    }

    /// An empty store whose first insertion gets identifier 1.
    pub fn new() -> (s: Store)
        ensures
            s.wf(),
            s.wf_times(),
            s@ == Seq::<RecordView>::empty(),
            s.next_id == 1,
    {
        Store { rows: Vec::new(), next_id: 1 }
    }

    /// An empty store whose first insertion gets identifier `next_id`.
    pub fn with_next_id(next_id: i64) -> (s: Store)
        requires
            next_id >= 1,
        ensures
            s.wf(),
            s.wf_times(),
            s@ == Seq::<RecordView>::empty(),
            s.next_id == next_id,
    {
        Store { rows: Vec::new(), next_id }
    }
}

} // verus!

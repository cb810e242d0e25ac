use vstd::prelude::*;

use crate::models::{Record, RecordView};
use crate::store::{views, Store};

verus! {

/// Detected breach of the at-most-one-open invariant: more than one record
/// is still open. It is surfaced, never repaired by picking one.
#[derive(Debug, Clone, Copy, PartialEq, Eq)]
pub struct InconsistentStateError {
    /// How many open records the store held.
    pub count: usize,
}

pub open spec fn is_open(r: RecordView) -> bool {
    r.status is Open
}

/// The subsequence of records that are still open, in store order.
pub open spec fn open_seq(s: Seq<RecordView>) -> Seq<RecordView>
    decreases s.len(),
{
    if s.len() == 0 {
        Seq::empty()
    } else if is_open(s.last()) {
        open_seq(s.drop_last()) + seq![s.last()]
    } else {
        open_seq(s.drop_last())
    }
}

/// How many records are still open.
pub open spec fn open_count(s: Seq<RecordView>) -> nat {
    open_seq(s).len()
}

/// Appending a record adds one open record when it is open, none otherwise.
pub proof fn lemma_open_count_push(s: Seq<RecordView>, r: RecordView)
    ensures
        open_count(s.push(r)) == open_count(s) + (if is_open(r) {
            1int
        } else {
            0int
        }),
{
    assert(s.push(r).drop_last() =~= s);
    assert(s.push(r).last() == r);
}

/// Replacing one record trades its openness for the new record's.
pub proof fn lemma_open_count_update(s: Seq<RecordView>, i: int, v: RecordView)
    requires
        0 <= i < s.len(),
    ensures
        open_count(s.update(i, v)) + (if is_open(s[i]) {
            1int
        } else {
            0int
        }) == open_count(s) + (if is_open(v) {
            1int
        } else {
            0int
        }),
    decreases s.len(),
{
    let t = s.update(i, v);
    if i == s.len() - 1 {
        assert(t.drop_last() =~= s.drop_last());
        assert(t.last() == v);
        assert(s.last() == s[i]);
    } else {
        assert(t.drop_last() =~= s.drop_last().update(i, v));
        lemma_open_count_update(s.drop_last(), i, v);
        assert(t.last() == s.last());
    }
}

/// Every entry of `open_seq` is an open record found somewhere in `s`.
pub proof fn lemma_open_seq_members(s: Seq<RecordView>)
    ensures
        forall|k: int|
            0 <= k < open_seq(s).len() ==> is_open(#[trigger] open_seq(s)[k]) && exists|i: int|
                0 <= i < s.len() && s[i] == open_seq(s)[k],
    decreases s.len(),
{
    if s.len() > 0 {
        lemma_open_seq_members(s.drop_last());
        let pre = open_seq(s.drop_last());
        assert forall|k: int|
            0 <= k < open_seq(s).len() implies is_open(#[trigger] open_seq(s)[k]) && exists|i: int|
            0 <= i < s.len() && s[i] == open_seq(s)[k] by {
            if k < pre.len() {
                assert(open_seq(s)[k] == pre[k]);
                let i = choose|i: int| 0 <= i < s.drop_last().len() && s.drop_last()[i] == pre[k];
                assert(s[i] == open_seq(s)[k]);
            } else {
                assert(open_seq(s)[k] == s.last());
                assert(s[s.len() - 1] == open_seq(s)[k]);
            }
        }
    }
}

/// What resolution of the active session must return, given the store's
/// records: no open record gives `Ok(None)`, exactly one gives it back, and
/// more than one is the inconsistency, reported with the count.
pub open spec fn resolve_post(
    s: Seq<RecordView>,
    r: Result<Option<Record>, InconsistentStateError>,
) -> bool {
    match r {
        Ok(None) => open_count(s) == 0,
        Ok(Some(rec)) => open_count(s) == 1 && rec@ == open_seq(s)[0],
        Err(e) => open_count(s) >= 2 && e.count == open_count(s),
    }
}

/// The resolution outcome stripped to its mathematical value.
pub open spec fn resolution_view(
    r: Result<Option<Record>, InconsistentStateError>,
) -> Result<Option<RecordView>, int> {
    match r {
        Ok(None) => Ok(None),
        Ok(Some(rec)) => Ok(Some(rec@)),
        Err(e) => Err(e.count as int),
    }
}

/// Copies of all records whose `clock_out` is unset, in store order.
pub fn fetch_all_open(store: &Store) -> (q: Vec<Record>)
    ensures
        views(q@) == open_seq(store@),
        store.wf_times() ==> forall|j: int| 0 <= j < q@.len() ==> (#[trigger] q@[j]).wf(),
{
    let mut out: Vec<Record> = Vec::new();
    let n = store.rows.len();
    let mut i: usize = 0;
    while i < n
        invariant
            n == store.rows@.len(),
            i <= n,
            views(out@) =~= open_seq(store@.take(i as int)),
            store.wf_times() ==> forall|j: int| 0 <= j < out@.len() ==> (#[trigger] out@[j]).wf(),
        decreases n - i,
    {
        proof {
            assert(store@.take(i + 1).drop_last() =~= store@.take(i as int));
            assert(store@.take(i + 1).last() == store@[i as int]);
        }
        if store.rows[i].is_open() {
            out.push(store.rows[i].clone());
            proof {
                assert(views(out@) =~= open_seq(store@.take(i + 1)));
            }
        } else {
            proof {
                assert(views(out@) =~= open_seq(store@.take(i + 1)));
            }
        }
        i = i + 1;
    }
    proof {
        assert(store@.take(n as int) =~= store@);
    }
    out
}

/// Decides the active session from the list of open records: none, the one,
/// or the inconsistency with its count.
pub fn resolve_active(q: &Vec<Record>) -> (r: Result<Option<Record>, InconsistentStateError>)
    ensures
        match r {
            Ok(None) => q@.len() == 0,
            Ok(Some(rec)) => q@.len() == 1 && rec@ == views(q@)[0],
            Err(e) => q@.len() >= 2 && e.count == q@.len(),
        },
        (forall|j: int| 0 <= j < q@.len() ==> (#[trigger] q@[j]).wf()) ==> match r {
            Ok(Some(rec)) => rec.wf(),
            _ => true,
        },
{
    if q.len() == 0 {
        Ok(None)
    } else if q.len() == 1 {
        Ok(Some(q[0].clone()))
    } else {
        Err(InconsistentStateError { count: q.len() })
    }
}

/// Derives the single logical active session, if any: `Ok(None)` when no
/// record is open, `Ok(Some(record))` when exactly one is, and the
/// inconsistency error when several are. Reads only; the store is unchanged.
pub fn find_active_session(store: &Store) -> (r: Result<
    Option<Record>,
    InconsistentStateError,
>)
    ensures
        resolve_post(store@, r),
        store.wf_times() ==> match r {
            Ok(Some(rec)) => rec.wf(),
            _ => true,
        },
{
    let q = fetch_all_open(store);
    resolve_active(&q)
}

} // verus!

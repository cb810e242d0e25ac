use vstd::prelude::*;

use crate::lifecycle::{apply_op, op_pre, Op};
use crate::models::{Record, RecordView};
use crate::resolver::{
    is_open, lemma_open_count_push, lemma_open_count_update, lemma_open_seq_members, open_count,
    resolution_view, resolve_post, InconsistentStateError,
};
use crate::store::{lemma_find_index_spec, lookup, Store};

verus! {

/// The store after running `ops` in order, oldest first.
pub open spec fn apply_ops(s: Seq<RecordView>, ops: Seq<Op>) -> Seq<RecordView>
    decreases ops.len(),
{
    if ops.len() == 0 {
        s
    } else {
        apply_ops(apply_op(s, ops[0]), ops.drop_first())
    }
}

/// Every operation of `ops` respects its precondition in the state it runs
/// in.
pub open spec fn valid_run(s: Seq<RecordView>, ops: Seq<Op>) -> bool
    decreases ops.len(),
{
    ops.len() == 0 || (op_pre(s, ops[0]) && valid_run(apply_op(s, ops[0]), ops.drop_first()))
}

/// One operation run under its precondition keeps at most one record open:
/// clock-in starts from none open and leaves one, clock-out closes an open
/// record and cannot raise the count.
pub proof fn lemma_op_keeps_at_most_one_open(s: Seq<RecordView>, op: Op)
    requires
        open_count(s) <= 1,
        op_pre(s, op),
    ensures
        open_count(apply_op(s, op)) <= 1,
{
    match op {
        Op::ClockIn { id, job_name, at } => {
            lemma_open_count_push(
                s,
                crate::lifecycle::started_view(id, job_name, at),
            );
        },
        Op::ClockOut { i, at, message } => {
            lemma_open_count_update(s, i, crate::lifecycle::close_view(s[i], at, message));
        },
    }
}

/// Law: after any sequence of clock-in and clock-out operations that each
/// respected their preconditions, at most one record is open — so resolution
/// can return at most one record.
pub proof fn lemma_at_most_one_open(s: Seq<RecordView>, ops: Seq<Op>)
    requires
        open_count(s) <= 1,
        valid_run(s, ops),
    ensures
        open_count(apply_ops(s, ops)) <= 1,
    decreases ops.len(),
{
    if ops.len() > 0 {
        lemma_op_keeps_at_most_one_open(s, ops[0]);
        lemma_at_most_one_open(apply_op(s, ops[0]), ops.drop_first());
    }
}

/// Law: while at most one record is open, resolution cannot fail; it answers
/// `Ok`, with the open record when there is one.
pub proof fn lemma_consistent_store_resolves(
    s: Seq<RecordView>,
    r: Result<Option<Record>, InconsistentStateError>,
)
    requires
        open_count(s) <= 1,
        resolve_post(s, r),
    ensures
        r is Ok,
        r matches Ok(Some(rec)) ==> is_open(rec@),
{
    lemma_open_seq_members(s);
}

/// Law: a record whose `clock_out` is set is never touched again; no
/// operation of this design, run under its precondition, changes any of its
/// fields.
pub proof fn lemma_clock_out_final(s: Seq<RecordView>, ops: Seq<Op>, i: int)
    requires
        0 <= i < s.len(),
        !is_open(s[i]),
        valid_run(s, ops),
    ensures
        apply_ops(s, ops).len() >= s.len(),
        apply_ops(s, ops)[i] == s[i],
    decreases ops.len(),
{
    if ops.len() > 0 {
        let t = apply_op(s, ops[0]);
        assert(t[i] == s[i]);
        lemma_clock_out_final(t, ops.drop_first(), i);
    }
}

/// Law: a record inserted under a fresh identifier and then fetched by that
/// identifier is the very record the insertion returned.
pub proof fn lemma_round_trip(s: Seq<RecordView>, r: RecordView)
    requires
        lookup(s, r.id) is None,
    ensures
        lookup(s.push(r), r.id) == Some(r),
{
    assert(s.push(r).drop_last() =~= s);
    assert(s.push(r).last() == r);
}

/// A well-formed store has no record under the identifier it will assign
/// next, so an insertion's identifier is always fresh.
pub proof fn lemma_next_id_fresh(store: Store)
    requires
        store.wf(),
    ensures
        lookup(store@, store.next_id as int) is None,
{
    lemma_find_index_spec(store@, store.next_id as int);
}

/// Law: resolution is a function of the stored records alone, so two
/// resolutions with no mutation between them answer the same.
pub proof fn lemma_resolution_idempotent(
    s: Seq<RecordView>,
    r1: Result<Option<Record>, InconsistentStateError>,
    r2: Result<Option<Record>, InconsistentStateError>,
)
    requires
        resolve_post(s, r1),
        resolve_post(s, r2),
    ensures
        resolution_view(r1) == resolution_view(r2),
{
}

} // verus!

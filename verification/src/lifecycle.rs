use vstd::prelude::*;

use crate::crud;
use crate::models::{CreateRecord, Record, RecordView, SessionStatus, StatusView};
use crate::resolver::{
    find_active_session, is_open, open_count, open_seq, InconsistentStateError,
};
use crate::store::{find_index, lookup, Store, StoreError};
use crate::time::Timestamp;

verus! {

/// Anything a lifecycle operation can fail with: a store failure, or the
/// detected many-open-sessions inconsistency, kept distinct so that an
/// operator sees which one happened.
#[derive(Debug, Clone, Copy, PartialEq, Eq)]
pub enum ClockError {
    Store(StoreError),
    Inconsistent(InconsistentStateError),
}

/// `r` closed at `at` with note `message`; every other field kept.
pub open spec fn close_view(r: RecordView, at: int, message: Seq<char>) -> RecordView {
    RecordView {
        id: r.id,
        job_name: r.job_name,
        clock_in: r.clock_in,
        status: StatusView::Closed { clock_out: at, message },
    }
}

/// The record a clock-in starting at `at` under `job_name` creates, once the
/// store assigns it `id`.
pub open spec fn started_view(id: int, job_name: Seq<char>, at: int) -> RecordView {
    RecordView { id, job_name, clock_in: at, status: StatusView::Open }
}

/// A state transition of the record store, as the lifecycle performs it.
pub enum Op {
    /// Append a fresh open record.
    ClockIn { id: int, job_name: Seq<char>, at: int },
    /// Close the record at position `i`, setting `clock_out` and `message`
    /// together.
    ClockOut { i: int, at: int, message: Seq<char> },
}

/// The precondition each operation's caller owes: clock-in only with no open
/// session and a non-empty job name, clock-out only of a record that exists
/// and is still open.
pub open spec fn op_pre(s: Seq<RecordView>, op: Op) -> bool {
    match op {
        Op::ClockIn { id, job_name, at } => open_count(s) == 0 && job_name.len() > 0,
        Op::ClockOut { i, at, message } => 0 <= i < s.len() && is_open(s[i]),
    }
}

/// What each operation does to the stored records.
pub open spec fn apply_op(s: Seq<RecordView>, op: Op) -> Seq<RecordView> {
    match op {
        Op::ClockIn { id, job_name, at } => s.push(started_view(id, job_name, at)),
        Op::ClockOut { i, at, message } => s.update(i, close_view(s[i], at, message)),
    }
}

/// Starts a session: inserts a fresh open record under `job_name`, clocked in
/// at `time`. The caller owes the precondition that no session is open; the
/// store itself would accept the insert regardless.
pub fn clock_in(job_name: String, time: Timestamp, store: &mut Store) -> (r: Result<
    Record,
    StoreError,
>)
    requires
        old(store).wf(),
        open_count(old(store)@) == 0,
        job_name@.len() > 0,
        time.wf(),
    ensures
        final(store).wf(),
        old(store).next_id < i64::MAX ==> {
            &&& r matches Ok(rec) && rec@ == started_view(
                old(store).next_id as int,
                job_name@,
                time@,
            )
            &&& final(store)@ == apply_op(
                old(store)@,
                Op::ClockIn { id: old(store).next_id as int, job_name: job_name@, at: time@ },
            )
            &&& final(store).next_id == old(store).next_id + 1
            &&& open_count(final(store)@) == 1
        },
        old(store).next_id == i64::MAX ==> {
            &&& r matches Err(e) && e is Full
            &&& final(store)@ == old(store)@
            &&& final(store).next_id == old(store).next_id
        },
        old(store).wf_times() && time.wf() ==> final(store).wf_times(),
{
    let create_record = CreateRecord { job_name, clock_in: time };
    let r = crud::create(&create_record, store);
    proof {
        if old(store).next_id < i64::MAX {
            crate::resolver::lemma_open_count_push(
                old(store)@,
                started_view(old(store).next_id as int, create_record.job_name@, time@),
            );
        }
    }
    r
}

/// Ends the given session: overwrites the row keyed by `record.id` with the
/// record closed at `time` under `message`. It relies only on the identifier
/// still naming that row, not on the record being globally "the" active one.
pub fn clock_out(record: &Record, time: Timestamp, message: String, store: &mut Store) -> (r:
    Result<(), StoreError>)
    requires
        old(store).wf(),
        time.wf(),
        record.clock_in.wf(),
        lookup(old(store)@, record@.id) == Some(record@),
        record@.status is Open,
    ensures
        final(store).wf(),
        r matches Ok(()),
        final(store)@ == apply_op(
            old(store)@,
            Op::ClockOut {
                i: find_index(old(store)@, record@.id),
                at: time@,
                message: message@,
            },
        ),
        final(store).next_id == old(store).next_id,
        open_count(final(store)@) + 1 == open_count(old(store)@),
        old(store).wf_times() && time.wf() ==> final(store).wf_times(),
{
    let closed = Record {
        id: record.id,
        job_name: record.job_name.clone(),
        clock_in: record.clock_in,
        status: SessionStatus::Closed { clock_out: time, message },
    };
    proof {
        let fi = find_index(old(store)@, record@.id);
        assert(closed@ =~= close_view(old(store)@[fi], time@, closed.status@->Closed_message));
    }
    let r = crud::update(&closed, store);
    proof {
        let fi = find_index(old(store)@, record@.id);
        crate::store::lemma_find_index_spec(old(store)@, record@.id);
        crate::resolver::lemma_open_count_update(old(store)@, fi, closed@);
    }
    r
}

/// The outcome of asking to clock in.
#[derive(Debug, PartialEq, Eq)]
pub enum ClockInOutcome {
    /// A fresh session was started; here is its record.
    Started(Record),
    /// A session is already active (here it is); nothing was changed, and
    /// the caller is told so rather than handed an error.
    AlreadyActive(Record),
}

/// The outcome of asking to clock out.
#[derive(Debug, PartialEq, Eq)]
pub enum ClockOutOutcome {
    /// The active session was closed; here is the record as now stored.
    Ended(Record),
    /// No session was active; nothing was changed, and the caller is told so
    /// rather than handed an error.
    NoActiveSession,
}

/// The store holds the same records and will assign the same next
/// identifier: nothing was changed.
pub open spec fn store_unchanged(pre: Store, post: Store) -> bool {
    post@ == pre@ && post.next_id == pre.next_id
}

/// The clock-in command: resolves the active session first and inserts a new
/// open record only when none is active. An already-active session or an
/// inconsistent store leaves every record untouched.
pub fn run_clock_in(job_name: String, at: Timestamp, store: &mut Store) -> (r: Result<
    ClockInOutcome,
    ClockError,
>)
    requires
        old(store).wf(),
        old(store).wf_times(),
        job_name@.len() > 0,
        at.wf(),
    ensures
        final(store).wf(),
        final(store).wf_times(),
        open_count(old(store)@) == 0 && old(store).next_id < i64::MAX ==> {
            &&& r matches Ok(o) && o matches ClockInOutcome::Started(rec) && rec@ == started_view(
                old(store).next_id as int,
                job_name@,
                at@,
            )
            &&& final(store)@ == apply_op(
                old(store)@,
                Op::ClockIn { id: old(store).next_id as int, job_name: job_name@, at: at@ },
            )
            &&& final(store).next_id == old(store).next_id + 1
            &&& open_count(final(store)@) == 1
        },
        open_count(old(store)@) == 0 && old(store).next_id == i64::MAX ==> {
            &&& r matches Err(e) && e == ClockError::Store(StoreError::Full)
            &&& store_unchanged(*old(store), *final(store))
        },
        open_count(old(store)@) == 1 ==> {
            &&& r matches Ok(o) && o matches ClockInOutcome::AlreadyActive(rec) && rec@
                == open_seq(old(store)@)[0]
            &&& store_unchanged(*old(store), *final(store))
        },
        open_count(old(store)@) >= 2 ==> {
            &&& r matches Err(e) && e matches ClockError::Inconsistent(ie) && ie.count
                == open_count(old(store)@)
            &&& store_unchanged(*old(store), *final(store))
        },
{
    match find_active_session(store) {
        Err(e) => Err(ClockError::Inconsistent(e)),
        Ok(Some(active)) => Ok(ClockInOutcome::AlreadyActive(active)),
        Ok(None) => match clock_in(job_name, at, store) {
            Ok(rec) => Ok(ClockInOutcome::Started(rec)),
            Err(e) => Err(ClockError::Store(e)),
        },
    }
}

/// The clock-out command: resolves the active session first and, when one is
/// active, closes it at `at` with `message`. With none active nothing is
/// changed and the caller is told so; an inconsistent store is an error and
/// leaves every record untouched.
pub fn run_clock_out(message: String, at: Timestamp, store: &mut Store) -> (r: Result<
    ClockOutOutcome,
    ClockError,
>)
    requires
        old(store).wf(),
        old(store).wf_times(),
        at.wf(),
    ensures
        final(store).wf(),
        final(store).wf_times(),
        final(store).next_id == old(store).next_id,
        open_count(old(store)@) == 0 ==> {
            &&& r matches Ok(o) && o == ClockOutOutcome::NoActiveSession
            &&& final(store)@ == old(store)@
        },
        open_count(old(store)@) == 1 ==> {
            &&& r matches Ok(o) && o matches ClockOutOutcome::Ended(rec) && rec@ == close_view(
                open_seq(old(store)@)[0],
                at@,
                message@,
            )
            &&& final(store)@ == apply_op(
                old(store)@,
                Op::ClockOut {
                    i: find_index(old(store)@, open_seq(old(store)@)[0].id),
                    at: at@,
                    message: message@,
                },
            )
            &&& open_count(final(store)@) == 0
        },
        open_count(old(store)@) >= 2 ==> {
            &&& r matches Err(e) && e matches ClockError::Inconsistent(ie) && ie.count
                == open_count(old(store)@)
            &&& final(store)@ == old(store)@
        },
{
    match find_active_session(store) {
        Err(e) => Err(ClockError::Inconsistent(e)),
        Ok(None) => Ok(ClockOutOutcome::NoActiveSession),
        Ok(Some(active)) => {
            proof {
                crate::resolver::lemma_open_seq_members(old(store)@);
                let i = choose|i: int|
                    0 <= i < old(store)@.len() && old(store)@[i] == open_seq(old(store)@)[0];
                crate::store::lemma_lookup_at(old(store)@, i);
            }
            let note = message.clone();
            match clock_out(&active, at, message, store) {
                Ok(()) => {
                    let ended = Record {
                        id: active.id,
                        job_name: active.job_name,
                        clock_in: active.clock_in,
                        status: SessionStatus::Closed { clock_out: at, message: note },
                    };
                    proof {
                        assert(ended@ =~= close_view(open_seq(old(store)@)[0], at@, note@));
                    }
                    Ok(ClockOutOutcome::Ended(ended))
                },
                Err(e) => Err(ClockError::Store(e)),
            }
        },
    }
}

} // verus!

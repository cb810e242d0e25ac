use vstd::prelude::*;

use crate::models::{CreateRecord, Record, RecordView, SessionStatus, StatusView};
use crate::store::{find_index, lookup, lemma_find_index_first, lemma_find_index_spec, Store,
    StoreError, views};

verus! {

/// The record a fresh insertion of `c` produces when the store's next
/// identifier is `id`.
pub open spec fn created_view(c: CreateRecord, id: int) -> RecordView {
    RecordView { id, job_name: c.job_name@, clock_in: c.clock_in@, status: StatusView::Open }
}

/// Inserts a new open record, assigning it the store's next identifier, and
/// returns it. Fails only when the identifiers are exhausted, leaving the
/// store unchanged.
pub fn create(record: &CreateRecord, store: &mut Store) -> (r: Result<Record, StoreError>)
    requires
        old(store).wf(),
    ensures
        final(store).wf(),
        old(store).next_id < i64::MAX ==> {
            &&& r matches Ok(rec) && rec@ == created_view(*record, old(store).next_id as int)
            &&& final(store)@ == old(store)@.push(created_view(*record, old(store).next_id as int))
            &&& final(store).next_id == old(store).next_id + 1
        },
        old(store).next_id == i64::MAX ==> {
            &&& r matches Err(e) && e is Full
            &&& final(store)@ == old(store)@
            &&& final(store).next_id == old(store).next_id
        },
        old(store).wf_times() && record.clock_in.wf() ==> final(store).wf_times(),
{
    if store.next_id == i64::MAX {
        return Err(StoreError::Full);
    }
    let id = store.next_id;
    store.next_id = id + 1;
    let row = Record {
        id,
        job_name: record.job_name.clone(),
        clock_in: record.clock_in,
        status: SessionStatus::Open,
    };
    let out = row.clone();
    store.rows.push(row);
    proof {
        assert(store@ =~= old(store)@.push(created_view(*record, id as int)));
    }
    Ok(out)
}

/// Returns a copy of every record, in insertion order. The in-memory store
/// cannot fail to list them.
pub fn find_all(store: &Store) -> (r: Result<Vec<Record>, StoreError>)
    ensures
        r matches Ok(v) && views(v@) == store@,
{
    let mut out: Vec<Record> = Vec::new();
    let n = store.rows.len();
    let mut i: usize = 0;
    while i < n
        invariant
            n == store.rows@.len(),
            i <= n,
            views(out@) =~= store@.take(i as int),
        decreases n - i,
    {
        out.push(store.rows[i].clone());
        proof {
            assert(store@.take(i + 1) =~= store@.take(i as int).push(store@[i as int]));
            assert(views(out@) =~= store@.take(i + 1));
        }
        i = i + 1;
    }
    proof {
        assert(store@.take(n as int) =~= store@);
    }
    Ok(out)
}

/// Returns a copy of the record carrying `id`, or reports that none does.
pub fn find_by_id(id: i64, store: &Store) -> (r: Result<Record, StoreError>)
    ensures
        match lookup(store@, id as int) {
            Some(v) => r matches Ok(rec) && rec@ == v,
            None => r matches Err(e) && e is NotFound,
        },
{
    let n = store.rows.len();
    let mut i: usize = 0;
    while i < n
        invariant
            n == store.rows@.len(),
            i <= n,
            forall|j: int| 0 <= j < i ==> store@[j].id != id,
        decreases n - i,
    {
        if store.rows[i].id == id {
            proof {
                lemma_find_index_first(store@, id as int, i as int);
            }
            return Ok(store.rows[i].clone());
        }
        i = i + 1;
    }
    proof {
        lemma_find_index_spec(store@, id as int);
    }
    Err(StoreError::NotFound)
}

/// Overwrites every field of the row carrying `record.id` with `record`'s
/// fields; a row with an unknown identifier leaves the store untouched, as a
/// keyed update of an absent row matches nothing.
pub fn update(record: &Record, store: &mut Store) -> (r: Result<(), StoreError>)
    requires
        old(store).wf(),
    ensures
        final(store).wf(),
        r matches Ok(()),
        final(store).next_id == old(store).next_id,
        find_index(old(store)@, record@.id) >= 0 ==> final(store)@ == old(store)@.update(
            find_index(old(store)@, record@.id),
            record@,
        ),
        find_index(old(store)@, record@.id) == -1 ==> final(store)@ == old(store)@,
        old(store).wf_times() && record.wf() ==> final(store).wf_times(),
{
    let n = store.rows.len();
    let mut i: usize = 0;
    while i < n
        invariant
            n == store.rows@.len(),
            i <= n,
            forall|j: int| 0 <= j < i ==> store@[j].id != record@.id,
            *store == *old(store),
            old(store).wf(),
        decreases n - i,
    {
        if store.rows[i].id == record.id {
            proof {
                lemma_find_index_first(store@, record@.id, i as int);
            }
            store.rows.set(i, record.clone());
            proof {
                assert(store@ =~= old(store)@.update(i as int, record@));
                assert forall|k: int| 0 <= k < store@.len() implies (#[trigger] store@[k].id)
                    == old(store)@[k].id by {
                    if k != i {
                        assert(store@[k] == old(store)@[k]);
                    }
                }
                assert forall|x: int, y: int| 0 <= x < y < store@.len() implies store@[x].id
                    != store@[y].id by {
                    assert(old(store)@[x].id != old(store)@[y].id);
                }
                if old(store).wf_times() && record.wf() {
                    assert forall|k: int| 0 <= k < store.rows@.len() implies (#[trigger] store
                        .rows@[k]).wf() by {
                        if k != i {
                            assert(store.rows@[k] == old(store).rows@[k]);
                        }
                    }
                }
            }
            return Ok(());
        }
        i = i + 1;
    }
    proof {
        lemma_find_index_spec(store@, record@.id);
    }
    Ok(())
}

} // verus!

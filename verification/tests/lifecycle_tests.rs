use clock::crud;
use clock::lifecycle::{run_clock_in, run_clock_out, ClockError, ClockInOutcome, ClockOutOutcome};
use clock::models::CreateRecord;
use clock::resolver::{find_active_session, InconsistentStateError};
use clock::store::Store;
use clock::time::Timestamp;

#[test]
fn clock_in_starts_a_session() {
    // Scenario: clock-in("writing", t0), then the resolver hands the record back.
    let mut store = Store::new();
    let t0 = Timestamp::new(1_000, 0);
    let started = match run_clock_in("writing".to_string(), t0, &mut store).unwrap() {
        ClockInOutcome::Started(rec) => rec,
        other => panic!("expected a started session, got {:?}", other),
    };
    assert_eq!(started.job_name, "writing");
    assert_eq!(started.clock_in, t0);
    assert!(started.clock_out().is_none());
    assert!(started.message().is_none());

    let active = find_active_session(&store).unwrap().unwrap();
    assert_eq!(active, started);
}

#[test]
fn second_clock_in_is_rejected_while_active() {
    // Scenario: with a session active, a second clock-in creates no record.
    let mut store = Store::new();
    let t0 = Timestamp::new(1_000, 0);
    run_clock_in("writing".to_string(), t0, &mut store).unwrap();
    let before = crud::find_all(&store).unwrap().len();

    let outcome = run_clock_in("editing".to_string(), Timestamp::new(2_000, 0), &mut store)
        .unwrap();
    match outcome {
        ClockInOutcome::AlreadyActive(rec) => assert_eq!(rec.job_name, "writing"),
        other => panic!("expected the active session back, got {:?}", other),
    }
    assert_eq!(crud::find_all(&store).unwrap().len(), before);
}

#[test]
fn clock_out_closes_the_active_session() {
    // Scenario: clock-out(active, t1, note) ends the session and stores both fields.
    let mut store = Store::new();
    let t0 = Timestamp::new(1_000, 0);
    let started = match run_clock_in("writing".to_string(), t0, &mut store).unwrap() {
        ClockInOutcome::Started(rec) => rec,
        other => panic!("expected a started session, got {:?}", other),
    };

    let t1 = Timestamp::new(4_600, 500);
    let outcome = run_clock_out("finished chapter 3".to_string(), t1, &mut store).unwrap();
    let ended = match outcome {
        ClockOutOutcome::Ended(rec) => rec,
        other => panic!("expected the session ended, got {:?}", other),
    };
    assert_eq!(ended.id, started.id);

    assert_eq!(find_active_session(&store).unwrap(), None);
    let stored = crud::find_by_id(started.id, &store).unwrap();
    assert_eq!(stored.clock_out(), Some(t1));
    assert_eq!(stored.message(), Some("finished chapter 3".to_string()));
    assert_eq!(stored, ended);
}

#[test]
fn clock_out_without_active_session_is_informational() {
    // Scenario: clock-out with nothing active mutates nothing and raises no error.
    let mut store = Store::new();
    let outcome = run_clock_out("stray note".to_string(), Timestamp::new(9, 0), &mut store);
    assert_eq!(outcome, Ok(ClockOutOutcome::NoActiveSession));
    assert!(crud::find_all(&store).unwrap().is_empty());
}

#[test]
fn two_open_records_are_an_inconsistency() {
    // Scenario: two manually inserted open records make resolution fail.
    let mut store = Store::new();
    let open_row = CreateRecord {
        job_name: "one".to_string(),
        clock_in: Timestamp::new(10, 0),
    };
    crud::create(&open_row, &mut store).unwrap();
    let open_row2 = CreateRecord {
        job_name: "two".to_string(),
        clock_in: Timestamp::new(20, 0),
    };
    crud::create(&open_row2, &mut store).unwrap();

    assert_eq!(
        find_active_session(&store),
        Err(InconsistentStateError { count: 2 })
    );
}

#[test]
fn inconsistency_also_stops_the_commands() {
    let mut store = Store::new();
    crud::create(&CreateRecord::default(), &mut store).unwrap();
    crud::create(&CreateRecord::default(), &mut store).unwrap();

    let r = run_clock_in("late".to_string(), Timestamp::new(30, 0), &mut store);
    assert_eq!(
        r,
        Err(ClockError::Inconsistent(InconsistentStateError { count: 2 }))
    );
    let r = run_clock_out("late".to_string(), Timestamp::new(30, 0), &mut store);
    assert_eq!(
        r,
        Err(ClockError::Inconsistent(InconsistentStateError { count: 2 }))
    );
    // Nothing was repaired behind the operator's back.
    assert_eq!(crud::find_all(&store).unwrap().len(), 2);
}

#[test]
fn empty_store_has_no_active_session() {
    let store = Store::new();
    assert_eq!(find_active_session(&store), Ok(None));
}

#[test]
fn exhausted_identifiers_surface_as_a_store_failure() {
    let mut store = Store::with_next_id(i64::MAX);
    let r = run_clock_in("writing".to_string(), Timestamp::new(1, 0), &mut store);
    assert_eq!(
        r,
        Err(ClockError::Store(clock::store::StoreError::Full))
    );
    assert!(crud::find_all(&store).unwrap().is_empty());
}

#[test]
fn repeated_resolution_answers_the_same() {
    let mut store = Store::new();
    run_clock_in("writing".to_string(), Timestamp::new(7, 0), &mut store).unwrap();
    let first = find_active_session(&store);
    let second = find_active_session(&store);
    assert_eq!(first, second);
}

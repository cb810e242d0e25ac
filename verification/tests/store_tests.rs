use clock::crud;
use clock::models::{CreateRecord, SessionStatus};
use clock::store::{Store, StoreError};
use clock::time;
use clock::time::Timestamp;

#[test]
fn test_create_entry() {
    let mut store = Store::new();
    let e = CreateRecord::default();
    crud::create(&e, &mut store).unwrap();
}

#[test]
fn test_find_record() {
    let mut store = Store::new();
    let e = CreateRecord {
        job_name: "foo".to_string(),
        ..Default::default()
    };
    let created = crud::create(&e, &mut store).unwrap();

    let retrieved = crud::find_by_id(created.id, &store).unwrap();
    assert_eq!(created, retrieved);
}

#[test]
fn test_modify_record() {
    let mut store = Store::new();
    let e = CreateRecord {
        job_name: "foo".to_string(),
        ..Default::default()
    };
    let mut created = crud::create(&e, &mut store).unwrap();

    let retrieved = crud::find_by_id(created.id, &store).unwrap();
    assert!(retrieved.clock_out().is_none());

    let now = time::now();
    created.status = SessionStatus::Closed {
        clock_out: now,
        message: String::new(),
    };

    crud::update(&created, &mut store).unwrap();

    let retrieved = crud::find_by_id(created.id, &store).unwrap();

    assert_eq!(retrieved.clock_out(), created.clock_out());
}

#[test]
fn create_assigns_sequential_ids() {
    let mut store = Store::new();
    let a = crud::create(&CreateRecord::default(), &mut store).unwrap();
    let b = crud::create(&CreateRecord::default(), &mut store).unwrap();
    assert_eq!(a.id, 1);
    assert_eq!(b.id, 2);
}

#[test]
fn create_fails_when_ids_exhausted() {
    let mut store = Store::with_next_id(i64::MAX);
    let r = crud::create(&CreateRecord::default(), &mut store);
    assert_eq!(r, Err(StoreError::Full));
    assert!(crud::find_all(&store).unwrap().is_empty());
}

#[test]
fn find_by_id_reports_missing_row() {
    let store = Store::new();
    assert_eq!(crud::find_by_id(42, &store), Err(StoreError::NotFound));
}

#[test]
fn update_of_unknown_id_changes_nothing() {
    let mut store = Store::new();
    let created = crud::create(
        &CreateRecord {
            job_name: "foo".to_string(),
            clock_in: Timestamp::new(50, 0),
        },
        &mut store,
    )
    .unwrap();

    let ghost_row = clock::models::Record {
        id: 99,
        job_name: "bar".to_string(),
        clock_in: Timestamp::new(60, 0),
        status: SessionStatus::Open,
    };
    crud::update(&ghost_row, &mut store).unwrap();

    let all = crud::find_all(&store).unwrap();
    assert_eq!(all.len(), 1);
    assert_eq!(all[0], created);
}

#[test]
fn find_all_keeps_insertion_order() {
    let mut store = Store::new();
    let a = crud::create(
        &CreateRecord {
            job_name: "first".to_string(),
            clock_in: Timestamp::new(1, 0),
        },
        &mut store,
    )
    .unwrap();
    let b = crud::create(
        &CreateRecord {
            job_name: "second".to_string(),
            clock_in: Timestamp::new(2, 0),
        },
        &mut store,
    )
    .unwrap();
    let all = crud::find_all(&store).unwrap();
    assert_eq!(all, vec![a, b]);
}

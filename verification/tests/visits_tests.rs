use git_viewer::errors::StoreError;
use git_viewer::pages::visit_gate;
use git_viewer::visits::{make_visit_event, VisitStore};

#[test]
fn empty_store_aggregate_is_zero_and_absent() {
    let store = VisitStore::new();
    let agg = store.aggregate().unwrap();
    assert_eq!(agg.total_count, 0);
    assert_eq!(agg.latest_timestamp, None);
}

#[test]
fn aggregate_takes_latest_regardless_of_insertion_order() {
    let mut store = VisitStore::new();
    store.record(make_visit_event("/", 100)).unwrap();
    store.record(make_visit_event("/repo/a", 300)).unwrap();
    store.record(make_visit_event("/", 200)).unwrap();
    let agg = store.aggregate().unwrap();
    assert_eq!(agg.total_count, 3);
    assert_eq!(agg.latest_timestamp, Some(300));
}

#[test]
fn aggregate_after_one_event() {
    let mut store = VisitStore::new();
    store.record(make_visit_event("/style.css", 42)).unwrap();
    let agg = store.aggregate().unwrap();
    assert_eq!(agg.total_count, 1);
    assert_eq!(agg.latest_timestamp, Some(42));
}

#[test]
fn visit_event_carries_path_and_timestamp() {
    let e = make_visit_event("/repo/a", 7);
    assert_eq!(e.path, "/repo/a");
    assert_eq!(e.occurred_at, 7);
}

#[test]
fn failed_recording_fails_the_response() {
    let r = visit_gate(Err(StoreError::Insert));
    let err = r.unwrap_err();
    assert_eq!(err.detail, "a visit could not be recorded");
    assert!(visit_gate(Ok(())).is_ok());
}

use mononoke_util::tick_blobstore::{make_value, tick_outcome, PutLog, TickBlobstore, TickError};

#[test]
fn new_blobstore_is_empty() {
    let bs: TickBlobstore<u32> = TickBlobstore::new();
    assert!(bs.is_empty());
    assert_eq!(bs.pending(), 0);
    assert_eq!(bs.get("k0"), None);
}

#[test]
fn tick_answers_waiters_in_order() {
    let mut bs: TickBlobstore<&str> = TickBlobstore::new();
    bs.on_tick("put k0");
    bs.on_tick("get k0");
    assert_eq!(bs.pending(), 2);
    let answered = bs.tick(None);
    assert_eq!(answered, vec![("put k0", None), ("get k0", None)]);
    assert_eq!(bs.pending(), 0);
}

#[test]
fn failing_tick_sends_its_error_to_each() {
    let mut bs: TickBlobstore<u8> = TickBlobstore::new();
    bs.on_tick(0);
    bs.on_tick(1);
    let answered = bs.tick(Some("bs1 failed"));
    assert_eq!(
        answered,
        vec![
            (0, Some(String::from("bs1 failed"))),
            (1, Some(String::from("bs1 failed")))
        ]
    );
}

#[test]
fn second_tick_answers_nobody() {
    let mut bs: TickBlobstore<u8> = TickBlobstore::new();
    bs.on_tick(7);
    assert_eq!(bs.tick(Some("bs0 failed")).len(), 1);
    assert!(bs.tick(None).is_empty());
}

#[test]
fn tick_on_empty_queue_answers_nobody() {
    let mut bs: TickBlobstore<u8> = TickBlobstore::new();
    assert!(bs.tick(Some("bs0 failed")).is_empty());
}

#[test]
fn read_after_write() {
    let mut bs: TickBlobstore<u8> = TickBlobstore::new();
    bs.put(String::from("k0"), make_value("v0"));
    assert_eq!(bs.get("k0"), Some(b"v0".to_vec()));
    assert_eq!(bs.get("k1"), None);
    assert!(!bs.is_empty());
}

#[test]
fn write_replaces_and_leaves_other_keys() {
    let mut bs: TickBlobstore<u8> = TickBlobstore::new();
    bs.put(String::from("k1"), make_value("v1"));
    bs.put(String::from("k4"), make_value("v4"));
    bs.put(String::from("k1"), make_value("v1'"));
    assert_eq!(bs.get("k1"), Some(b"v1'".to_vec()));
    assert_eq!(bs.get("k4"), Some(b"v4".to_vec()));
}

#[test]
fn ticks_keep_blobs() {
    let mut bs: TickBlobstore<u8> = TickBlobstore::new();
    bs.put(String::from("k2"), make_value("v2"));
    bs.on_tick(1);
    bs.tick(Some("bs0 failed"));
    assert_eq!(bs.get("k2"), Some(b"v2".to_vec()));
}

#[test]
fn put_completes_only_after_successful_tick() {
    // The waiter of a put stores its value once its tick succeeded.
    let mut bs: TickBlobstore<(String, Vec<u8>)> = TickBlobstore::new();
    bs.on_tick((String::from("k1"), make_value("v1")));
    for (op, message) in bs.tick(Some("bs0 failed")) {
        if tick_outcome(Some(message)).is_ok() {
            bs.put(op.0, op.1);
        }
    }
    assert_eq!(bs.get("k1"), None);
    bs.on_tick((String::from("k1"), make_value("v1")));
    for (op, message) in bs.tick(None) {
        if tick_outcome(Some(message)).is_ok() {
            bs.put(op.0, op.1);
        }
    }
    assert_eq!(bs.get("k1"), Some(make_value("v1")));
}

#[test]
fn outcome_of_a_tick() {
    assert!(tick_outcome(Some(None)).is_ok());
    match tick_outcome(Some(Some(String::from("bs0 failed")))) {
        Err(TickError::Failed(e)) => assert_eq!(e, "bs0 failed"),
        _ => panic!("expected the tick's error"),
    }
    assert!(matches!(tick_outcome(None), Err(TickError::Canceled)));
}

#[test]
fn put_log_records_and_clears() {
    let mut log = PutLog::new();
    assert!(log.entries.is_empty());
    log.on_put(0, String::from("k0"));
    log.on_put(1, String::from("k0"));
    assert_eq!(
        log.entries,
        vec![(0, String::from("k0")), (1, String::from("k0"))]
    );
    log.clear();
    assert!(log.entries.is_empty());
}

#[test]
fn value_is_utf8_bytes() {
    assert_eq!(make_value("v0"), vec![b'v', b'0']);
    assert_eq!(make_value(""), Vec::<u8>::new());
    assert_eq!(make_value("é"), vec![0xc3, 0xa9]);
}

#[test]
fn put_stores_only_after_successful_tick() {
    let mut bs: TickBlobstore<u8> = TickBlobstore::new();
    let failed = bs.complete_put(
        Some(Some(String::from("bs0 failed"))),
        String::from("k1"),
        make_value("v1"),
    );
    assert!(matches!(failed, Err(TickError::Failed(ref e)) if e == "bs0 failed"));
    assert!(bs.is_empty());
    let canceled = bs.complete_put(None, String::from("k1"), make_value("v1"));
    assert!(matches!(canceled, Err(TickError::Canceled)));
    assert!(bs.is_empty());
    assert!(bs
        .complete_put(Some(None), String::from("k1"), make_value("v1"))
        .is_ok());
    assert_eq!(bs.get("k1"), Some(make_value("v1")));
}

#[test]
fn get_reads_only_after_successful_tick() {
    let mut bs: TickBlobstore<u8> = TickBlobstore::new();
    bs.put(String::from("k0"), make_value("v0"));
    match bs.complete_get(Some(Some(String::from("bs1 failed"))), "k0") {
        Err(TickError::Failed(e)) => assert_eq!(e, "bs1 failed"),
        _ => panic!("expected the tick's error"),
    }
    assert!(matches!(bs.complete_get(None, "k0"), Err(TickError::Canceled)));
    assert!(matches!(bs.complete_get(Some(None), "k0"), Ok(Some(ref v)) if v == &make_value("v0")));
    assert!(matches!(bs.complete_get(Some(None), "k3"), Ok(None)));
}

use libsql_core::applier::FrameApplier;
use libsql_core::database::{Database, PrimaryDatabase, ReplicaDatabase};
use libsql_core::connection::{Program, RequestContext, Statement};
use libsql_core::frame::{check_batch_wf, Frame, PageWrite};
use libsql_core::frame_log::FrameLog;
use libsql_core::notifier::wait_satisfied;

fn pw(page_no: u32, data: &[u8]) -> PageWrite {
    PageWrite { page_no, data: data.to_vec() }
}

fn frame(frame_no: u64, page_no: u32, payload: &[u8], commit: bool) -> Frame {
    Frame { frame_no, page_no, payload: payload.to_vec(), commit }
}

#[test]
fn append_publishes_strictly_increasing() {
    let mut log = FrameLog::new();
    assert_eq!(log.latest(), None);
    let first = log.append(vec![pw(1, b"a"), pw(2, b"b")]);
    assert_eq!(first, 2);
    assert_eq!(log.latest(), Some(2));
    let second = log.append(vec![pw(1, b"c")]);
    assert_eq!(second, 3);
    assert_eq!(log.latest(), Some(3));
    assert!(second > first);
}

#[test]
fn append_numbers_frames_gapless_and_marks_commit() {
    let mut log = FrameLog::new();
    log.append(vec![pw(1, b"a"), pw(2, b"b"), pw(3, b"c")]);
    assert_eq!(log.frames.len(), 3);
    for (i, f) in log.frames.iter().enumerate() {
        assert_eq!(f.frame_no, i as u64 + 1);
        assert_eq!(f.commit, i == 2);
    }
}

#[test]
fn subscriber_observes_published_value() {
    let mut log = FrameLog::new();
    let rx = log.subscribe();
    assert_eq!(*rx.borrow(), None);
    log.append(vec![pw(1, b"a")]);
    assert_eq!(*rx.borrow(), Some(1));
    let late = log.subscribe();
    assert_eq!(*late.borrow(), Some(1));
}

#[test]
fn apply_batch_then_reapply_is_idempotent() {
    let mut applier = FrameApplier::new();
    let batch = vec![
        frame(1, 1, b"one", false),
        frame(2, 2, b"two", true),
        frame(3, 1, b"three", true),
    ];
    let first = applier.apply(&batch);
    assert!(matches!(first, Ok(3)));
    assert_eq!(applier.last_applied(), 3);
    let pages_after_first: Vec<Option<Vec<u8>>> = vec![
        applier.engine.page(1).cloned(),
        applier.engine.page(2).cloned(),
    ];
    let second = applier.apply(&batch);
    assert!(matches!(second, Ok(0)));
    assert_eq!(applier.last_applied(), 3);
    assert_eq!(applier.engine.page(1).cloned(), pages_after_first[0]);
    assert_eq!(applier.engine.page(2).cloned(), pages_after_first[1]);
}

#[test]
fn apply_gap_fails_and_leaves_state_unchanged() {
    let mut applier = FrameApplier::new();
    let gap_batch = vec![frame(2, 1, b"x", true)];
    let r = applier.apply(&gap_batch);
    assert!(matches!(
        r,
        Err(libsql_core::error::Error::ReplicationGap { expected: 1, got: 2 })
    ));
    assert_eq!(applier.last_applied(), 0);
    assert_eq!(applier.engine.page_count(), 0);
}

#[test]
fn apply_overlapping_redelivery_counts_only_new_frames() {
    let mut applier = FrameApplier::new();
    let head = vec![frame(1, 1, b"a", true), frame(2, 2, b"b", true)];
    assert!(matches!(applier.apply(&head), Ok(2)));
    let overlap = vec![
        frame(1, 1, b"a", true),
        frame(2, 2, b"b", true),
        frame(3, 3, b"c", true),
        frame(4, 1, b"d", true),
    ];
    assert!(matches!(applier.apply(&overlap), Ok(2)));
    assert_eq!(applier.last_applied(), 4);
    assert_eq!(applier.engine.page(1).unwrap(), b"d");
}

#[test]
fn partial_transaction_is_held_back_until_commit() {
    // frames after the last commit boundary are a trailing partial
    // transaction: nothing of it becomes observable
    let mut applier = FrameApplier::new();
    let partial = vec![frame(1, 1, b"half", false)];
    assert!(matches!(applier.apply(&partial), Ok(0)));
    assert_eq!(applier.last_applied(), 0);
    assert_eq!(applier.engine.page_count(), 0);

    let complete = vec![frame(1, 1, b"half", false), frame(2, 2, b"done", true)];
    assert!(matches!(applier.apply(&complete), Ok(2)));
    assert_eq!(applier.last_applied(), 2);
    assert_eq!(applier.engine.page(1).unwrap(), b"half");
    assert_eq!(applier.engine.page(2).unwrap(), b"done");
}

#[test]
fn mid_batch_gap_fails_with_nothing_applied() {
    let mut applier = FrameApplier::new();
    let batch = vec![frame(1, 1, b"a", true), frame(5, 2, b"b", true)];
    let r = applier.apply(&batch);
    assert!(matches!(
        r,
        Err(libsql_core::error::Error::ReplicationGap { expected: 2, got: 5 })
    ));
    assert_eq!(applier.last_applied(), 0);
    assert_eq!(applier.engine.page_count(), 0);
}

#[test]
fn non_decreasing_batch_with_repeats_is_accepted() {
    let mut applier = FrameApplier::new();
    let batch = vec![
        frame(1, 1, b"a", true),
        frame(1, 1, b"a", true),
        frame(2, 2, b"b", true),
    ];
    assert!(matches!(applier.apply(&batch), Ok(2)));
    assert_eq!(applier.last_applied(), 2);
}

#[test]
fn apply_empty_batch_is_noop() {
    let mut applier = FrameApplier::new();
    assert!(matches!(applier.apply(&vec![]), Ok(0)));
    assert_eq!(applier.last_applied(), 0);
}

#[test]
fn batch_shape_check_accepts_contiguous_rejects_gapped() {
    let good = vec![frame(5, 1, b"a", false), frame(6, 2, b"b", true)];
    assert!(check_batch_wf(&good));
    let gapped = vec![frame(5, 1, b"a", false), frame(7, 2, b"b", true)];
    assert!(!check_batch_wf(&gapped));
    let zero_page = vec![frame(1, 0, b"a", true)];
    assert!(!check_batch_wf(&zero_page));
    assert!(check_batch_wf(&vec![]));
}

#[test]
fn wait_decision_is_exact_and_monotone() {
    assert!(!wait_satisfied(None, 1));
    assert!(!wait_satisfied(Some(2), 3));
    assert!(wait_satisfied(Some(3), 3));
    assert!(wait_satisfied(Some(9), 3));
    assert!(wait_satisfied(Some(0), 0));
}

#[test]
fn primary_commit_reaches_replica_identically() {
    // A write transaction on an in-memory primary raises the published
    // sequence number by exactly the number of frames in its commit, and
    // a fresh replica applying those frames holds page-identical state.
    let mut db = Database::Primary(PrimaryDatabase::new());
    let maker = db.connection_maker();
    let conn = maker.make();
    let ctx = RequestContext { namespace: String::from("main") };
    let pgm = Program {
        steps: vec![
            Statement::Write(vec![pw(1, b"page one"), pw(2, b"page two")]),
            Statement::Read,
        ],
    };
    let before = match &db {
        Database::Primary(p) => p.shared.log.latest(),
        _ => unreachable!(),
    };
    assert_eq!(before, None);
    let r = conn.execute_program(&mut db, pgm, &ctx, None);
    assert!(matches!(r, Ok(b) if b.steps_executed == 2));
    let primary = match &db {
        Database::Primary(p) => p,
        _ => unreachable!(),
    };
    assert_eq!(primary.shared.log.latest(), Some(2));

    let mut replica = ReplicaDatabase::new();
    let applied = replica.applier.apply(&primary.shared.log.frames);
    assert!(matches!(applied, Ok(2)));
    assert_eq!(
        replica.applier.engine.page_count(),
        primary.shared.engine.page_count()
    );
    for p in 1..=2u32 {
        assert_eq!(replica.applier.engine.page(p), primary.shared.engine.page(p));
    }
}

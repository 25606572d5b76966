use libsql_core::client::{Connection, Database, DbType, OpenFlags};
use libsql_core::error::Error;
use libsql_core::frame::Frame;

fn frame(frame_no: u64, page_no: u32, payload: &[u8], commit: bool) -> Frame {
    Frame { frame_no, page_no, payload: payload.to_vec(), commit }
}

#[test]
fn open_flags_default_is_read_write_create() {
    let flags = OpenFlags::default();
    assert_eq!(
        flags,
        OpenFlags { read_only: false, read_write: true, create: true }
    );
}

#[test]
fn sync_on_plain_file_database_is_unsupported_not_a_panic() {
    let db = Database::open(String::from("data.db")).unwrap();
    match db.sync() {
        Err(Error::SyncNotSupported(name)) => assert_eq!(name, "File"),
        _ => panic!("sync on a file database must be refused, not served"),
    }
}

#[test]
fn sync_on_memory_and_remote_is_unsupported() {
    let mem = Database::open_in_memory().unwrap();
    assert!(matches!(mem.sync(), Err(Error::SyncNotSupported(n)) if n == "Memory"));
    let remote =
        Database::open_remote(String::from("https://db.example"), String::from("SECRET-REDACTED"))
            .unwrap();
    // the refusal names the variant alone: no endpoint or credential
    assert!(matches!(remote.sync(), Err(Error::SyncNotSupported(n)) if n == "Remote"));
}

#[test]
fn sync_supported_on_sync_database() {
    let db = Database::open_with_local_sync(String::from("data.db")).unwrap();
    assert!(db.sync().is_ok());
}

#[test]
fn sync_frames_applies_and_redelivery_counts_zero() {
    let mut db = Database::open_with_local_sync(String::from("data.db")).unwrap();
    let batch = vec![frame(1, 1, b"a", false), frame(2, 2, b"b", true)];
    assert!(matches!(db.sync_frames(batch), Ok(2)));
    let again = vec![frame(1, 1, b"a", false), frame(2, 2, b"b", true)];
    assert!(matches!(db.sync_frames(again), Ok(0)));
    match &db.db_type {
        DbType::Sync { db: sdb } => {
            assert_eq!(sdb.applier.last_applied, 2);
            assert_eq!(sdb.applier.engine.page(2).unwrap(), b"b");
        }
        _ => panic!("sync database changed variant"),
    }
}

#[test]
fn sync_frames_gap_is_replication_gap_error() {
    let mut db = Database::open_with_local_sync(String::from("data.db")).unwrap();
    let gapped = vec![frame(5, 1, b"a", true)];
    assert!(matches!(
        db.sync_frames(gapped),
        Err(Error::ReplicationGap { expected: 1, got: 5 })
    ));
}

#[test]
fn sync_frames_unsupported_off_sync_variant() {
    let mut db = Database::open_in_memory().unwrap();
    let batch = vec![frame(1, 1, b"a", true)];
    assert!(matches!(db.sync_frames(batch), Err(Error::SyncNotSupported(n)) if n == "Memory"));
}

#[test]
fn sync_frames_holds_back_partial_transaction() {
    let mut db = Database::open_with_local_sync(String::from("data.db")).unwrap();
    let partial = vec![frame(1, 1, b"half", false)];
    assert!(matches!(db.sync_frames(partial), Ok(0)));
    match &db.db_type {
        DbType::Sync { db: sdb } => {
            assert_eq!(sdb.applier.last_applied, 0);
            assert_eq!(sdb.applier.engine.page_count(), 0);
        }
        _ => panic!("sync database changed variant"),
    }
}

#[test]
fn connect_is_variant_agnostic_but_backend_bound() {
    let mem = Database::open_in_memory().unwrap();
    assert!(matches!(mem.connect(), Ok(Connection::Local(_))));

    let file = Database::open_with_flags(
        String::from("data.db"),
        OpenFlags { read_only: true, read_write: false, create: false },
    )
    .unwrap();
    assert!(matches!(file.connect(), Ok(Connection::Local(_))));

    let synced = Database::open_with_remote_sync(
        String::from("data.db"),
        String::from("https://peer.example"),
        String::from("SECRET-REDACTED"),
    )
    .unwrap();
    assert!(matches!(synced.connect(), Ok(Connection::Synced(_))));

    let remote =
        Database::open_remote(String::from("https://db.example"), String::from("SECRET-REDACTED"))
            .unwrap();
    match remote.connect() {
        Ok(Connection::Remote { url, auth_token }) => {
            assert_eq!(url, "https://db.example");
            assert_eq!(auth_token, "SECRET-REDACTED");
        }
        _ => panic!("remote database must yield a remote connection"),
    }
}

#[test]
fn open_records_the_configuration() {
    let db = Database::open(String::from("mine.db")).unwrap();
    match &db.db_type {
        DbType::File { path, flags } => {
            assert_eq!(path, "mine.db");
            assert_eq!(*flags, OpenFlags::default());
        }
        _ => panic!("open must yield the file variant"),
    }
    let synced = Database::open_with_remote_sync(
        String::from("local.db"),
        String::from("https://peer.example"),
        String::from("SECRET-REDACTED"),
    )
    .unwrap();
    match &synced.db_type {
        DbType::Sync { db: sdb } => {
            assert_eq!(sdb.path, "local.db");
            assert_eq!(sdb.endpoint.as_deref(), Some("https://peer.example"));
            assert_eq!(sdb.auth_token.as_deref(), Some("SECRET-REDACTED"));
        }
        _ => panic!("remote sync must yield the sync variant"),
    }
}

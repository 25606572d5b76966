use libsql_core::database::{
    Database, DatabaseKind, PrimaryDatabase, ReplicaDatabase, ReplicatorSlot, SchemaDatabase,
};
use libsql_core::connection::{Program, RequestContext, Statement};
use libsql_core::error::Error;
use libsql_core::frame::PageWrite;
use libsql_core::parser::ParserError;

fn ctx() -> RequestContext {
    RequestContext { namespace: String::from("main") }
}

fn write_pgm() -> Program {
    Program {
        steps: vec![Statement::Write(vec![PageWrite { page_no: 1, data: b"w".to_vec() }])],
    }
}

fn read_pgm() -> Program {
    Program { steps: vec![Statement::Read, Statement::Read] }
}

#[test]
fn database_kind_predicates() {
    assert!(DatabaseKind::Primary.is_primary());
    assert!(!DatabaseKind::Primary.is_replica());
    assert!(DatabaseKind::Replica.is_replica());
    assert!(!DatabaseKind::Replica.is_primary());
}

#[test]
fn write_block_flag_refuses_writes_only() {
    let mut db = Database::Primary(PrimaryDatabase::new());
    let conn = db.connection_maker().make();
    assert_eq!(db.block_writes(), Some(false));

    assert!(db.set_block_writes(true));
    assert_eq!(db.block_writes(), Some(true));
    let blocked = conn.execute_program(&mut db, write_pgm(), &ctx(), None);
    assert!(matches!(blocked, Err(Error::WriteBlocked)));
    let read = conn.execute_program(&mut db, read_pgm(), &ctx(), None);
    assert!(matches!(read, Ok(b) if b.steps_executed == 2));

    assert!(db.set_block_writes(false));
    let unblocked = conn.execute_program(&mut db, write_pgm(), &ctx(), None);
    assert!(matches!(unblocked, Ok(b) if b.steps_executed == 1));
}

#[test]
fn block_writes_absent_off_primary() {
    let mut replica = Database::Replica(ReplicaDatabase::new());
    assert_eq!(replica.block_writes(), None);
    assert!(!replica.set_block_writes(true));
    let mut schema = Database::Schema(SchemaDatabase::new());
    assert_eq!(schema.block_writes(), None);
    assert!(!schema.set_block_writes(true));
}

#[test]
fn dispatch_classifies_uniformly_across_variants() {
    let mut dbs = vec![
        Database::Primary(PrimaryDatabase::new()),
        Database::Replica(ReplicaDatabase::new()),
        Database::Schema(SchemaDatabase::new()),
    ];
    for db in dbs.iter_mut() {
        let conn = db.connection_maker().make();
        let read = conn.execute_program(db, read_pgm(), &ctx(), None);
        assert!(matches!(read, Ok(b) if b.steps_executed == 2));
        let write = conn.execute_program(db, write_pgm(), &ctx(), None);
        assert!(matches!(write, Ok(b) if b.steps_executed == 1));
    }
}

#[test]
fn connection_maker_matches_variant() {
    let primary = Database::Primary(PrimaryDatabase::new());
    assert!(primary.connection_maker().make().is_primary());
    assert!(primary.is_primary());
    assert!(!primary.is_schema());
    let replica = Database::Replica(ReplicaDatabase::new());
    assert!(!replica.connection_maker().make().is_primary());
    assert!(!replica.is_primary());
    let schema = Database::Schema(SchemaDatabase::new());
    assert!(!schema.connection_maker().make().is_primary());
    assert!(schema.is_schema());
}

#[test]
fn logger_and_notifier_present_only_where_tracked() {
    let primary = Database::Primary(PrimaryDatabase::new());
    assert!(primary.logger().is_some());
    assert!(primary.notifier().is_some());
    let schema = Database::Schema(SchemaDatabase::new());
    assert!(schema.logger().is_some());
    assert!(schema.notifier().is_some());
    let replica = Database::Replica(ReplicaDatabase::new());
    assert!(replica.logger().is_none());
    assert!(replica.notifier().is_none());
}

#[test]
fn notifier_tracks_commits_through_dispatch() {
    let mut db = Database::Primary(PrimaryDatabase::new());
    let rx = db.notifier().unwrap();
    assert_eq!(*rx.borrow(), None);
    let conn = db.connection_maker().make();
    let r = conn.execute_program(&mut db, write_pgm(), &ctx(), None);
    assert!(r.is_ok());
    assert_eq!(*rx.borrow(), Some(1));
}

#[test]
fn replicator_slot_exclusive_access() {
    let primary = Database::Primary(PrimaryDatabase::new());
    assert!(primary.replicator().is_some());
    let replica = Database::Replica(ReplicaDatabase::new());
    assert!(replica.replicator().is_none());

    let mut slot = ReplicatorSlot::new(true);
    assert!(slot.try_acquire());
    assert!(!slot.try_acquire());
    slot.release();
    assert!(slot.try_acquire());
    let mut empty = ReplicatorSlot::new(false);
    assert!(!empty.try_acquire());
}

#[test]
fn maintenance_operations_never_err() {
    let conn = Database::Primary(PrimaryDatabase::new()).connection_maker().make();
    assert!(conn.checkpoint().is_ok());
    assert!(conn.vacuum_if_needed().is_ok());
    assert!(matches!(conn.is_autocommit(), Ok(true)));
}

#[test]
fn diagnostics_names_the_variant() {
    let p = Database::Primary(PrimaryDatabase::new()).connection_maker().make();
    assert_eq!(p.diagnostics(), "primary connection");
    let r = Database::Replica(ReplicaDatabase::new()).connection_maker().make();
    assert_eq!(r.diagnostics(), "replica connection");
    let s = Database::Schema(SchemaDatabase::new()).connection_maker().make();
    assert_eq!(s.diagnostics(), "schema connection");
}

#[test]
fn describe_reports_parameter_markers() {
    let conn = Database::Primary(PrimaryDatabase::new()).connection_maker().make();
    let shaped = conn.describe(String::from("select ? where ? = ?"), &ctx(), None);
    match shaped {
        Ok(Ok(d)) => assert_eq!(d.param_count, 3),
        _ => panic!("describe failed on well-formed text"),
    }
    let none = conn.describe(String::from("select 1"), &ctx(), None);
    match none {
        Ok(Ok(d)) => assert_eq!(d.param_count, 0),
        _ => panic!("describe failed on well-formed text"),
    }
}

#[test]
fn describe_empty_text_is_statement_level_error() {
    let conn = Database::Replica(ReplicaDatabase::new()).connection_maker().make();
    let r = conn.describe(String::new(), &ctx(), None);
    assert!(matches!(r, Ok(Err(ParserError::UnexpectedEof))));
}

#[test]
fn shutdown_and_destroy_release_without_error() {
    let db = Database::Primary(PrimaryDatabase::new());
    assert!(db.shutdown().is_ok());
    let db2 = Database::Replica(ReplicaDatabase::new());
    db2.destroy();
}

#[test]
fn error_classification_predicates() {
    assert!(Error::WriteBlocked.is_write_blocked());
    assert!(!Error::WriteBlocked.is_replication_gap());
    assert!(Error::ReplicationGap { expected: 1, got: 3 }.is_replication_gap());
    assert!(Error::SyncNotSupported(String::from("file")).is_sync_not_supported());
    assert!(!Error::SyncNotSupported(String::from("file")).is_write_blocked());
}

#[test]
fn replica_executes_once_caught_up_to_min_sequence() {
    let mut primary = Database::Primary(PrimaryDatabase::new());
    let pconn = primary.connection_maker().make();
    let r = pconn.execute_program(&mut primary, write_pgm(), &ctx(), None);
    assert!(r.is_ok());

    let mut replica_db = ReplicaDatabase::new();
    if let Database::Primary(p) = &primary {
        assert!(matches!(replica_db.applier.apply(&p.shared.log.frames), Ok(1)));
    }
    let mut replica = Database::Replica(replica_db);
    let rconn = replica.connection_maker().make();
    // the replica has applied up to 1, so a caller that waited for
    // sequence 1 may now execute against it
    let read = rconn.execute_program(&mut replica, read_pgm(), &ctx(), Some(1));
    assert!(matches!(read, Ok(b) if b.steps_executed == 2));
}

#[test]
fn parser_error_messages() {
    assert_eq!(
        ParserError::StackOverflow.message(),
        "parser overflowed its stack"
    );
    assert_eq!(ParserError::UnexpectedEof.message(), "unexpected end of input");
    let syn = ParserError::SyntaxError {
        token_type: String::from("SELECT"),
        found: None,
    };
    assert_eq!(syn.message(), "near SELECT, \"None\": syntax error");
    let syn_found = ParserError::SyntaxError {
        token_type: String::from("IDENT"),
        found: Some(String::from("1abc")),
    };
    assert_eq!(
        syn_found.message(),
        "near IDENT, \"Some(\"1abc\")\": syntax error"
    );
    assert_eq!(
        ParserError::Custom(String::from("boom")).message(),
        "boom"
    );
}

#[test]
fn with_raw_gives_scoped_engine_access() {
    let mut db = Database::Primary(PrimaryDatabase::new());
    let conn = db.connection_maker().make();
    let engine = conn.with_raw(&mut db);
    engine.write_page(1, b"raw".to_vec());
    match &db {
        Database::Primary(p) => assert_eq!(p.shared.engine.page(1).unwrap(), b"raw"),
        _ => unreachable!(),
    }
}

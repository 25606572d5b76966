use vstd::prelude::*;
use crate::applier::FrameApplier;
use crate::connection::{Connection, PrimaryConnection, ReplicaConnection, SchemaConnection};
use crate::error::Error;
use crate::frame_log::FrameLog;
use crate::interceptor::PrimaryShared;

verus! {

/// The configured role of a server instance.
#[derive(Debug)]
pub enum DatabaseKind {
    Primary,
    Replica,
}

impl DatabaseKind {
    /// Returns `true` if the database kind is `Replica`.
    pub fn is_replica(&self) -> (r: bool)
        ensures
            r == (self is Replica),
    {
        matches!(self, DatabaseKind::Replica)
    }

    /// Returns `true` if the database kind is `Primary`.
    pub fn is_primary(&self) -> (r: bool)
        ensures
            r == (self is Primary),
    {
        matches!(self, DatabaseKind::Primary)
    }
}

/// The optional background snapshot replicator of a primary or schema
/// database, guarded so that only one task drives it at a time. The
/// snapshot protocol itself belongs to the storage collaborator; what the
/// core owns is the exclusivity of access.
#[derive(Debug)]
pub struct ReplicatorSlot {
    pub present: bool,
    pub held: bool,
}

impl ReplicatorSlot {
    /// A slot that owns a replicator, currently undriven.
    pub fn new(present: bool) -> (r: ReplicatorSlot)
        ensures
            r.present == present,
            !r.held,
    {
        ReplicatorSlot { present, held: false }
    }

    /// Try to become the replicator's driver: succeeds exactly when a
    /// replicator exists and nobody holds it. A caller that fails either
    /// suspends until release (the lock's business, outside this core) or
    /// gives up.
    pub fn try_acquire(&mut self) -> (r: bool)
        ensures
            r == (old(self).present && !old(self).held),
            final(self).present == old(self).present,
            r ==> final(self).held,
            !r ==> final(self).held == old(self).held,
    {
        if self.present && !self.held {
            self.held = true;
            true
        } else {
            false
        }
    }

    /// Release the replicator for the next driver.
    pub fn release(&mut self)
        requires
            old(self).held,
        ensures
            final(self).present == old(self).present,
            !final(self).held,
    {
        self.held = false;
    }
}

/// The writable database originating the frame stream.
pub struct PrimaryDatabase {
    pub shared: PrimaryShared,
    pub replicator: ReplicatorSlot,
}

impl PrimaryDatabase {
    /// A fresh primary: empty state, writes admitted, a replicator owned.
    pub fn new() -> (r: PrimaryDatabase)
        ensures
            r.shared.wf(),
            r.shared.engine@ == Seq::<Seq<u8>>::empty(),
            r.shared.log.frames@.len() == 0,
            !r.shared.block_writes,
            r.replicator.present,
            !r.replicator.held,
    {
        PrimaryDatabase { shared: PrimaryShared::new(), replicator: ReplicatorSlot::new(true) }
    }
}

/// A read-only database that advances only by applying frames originated
/// elsewhere.
pub struct ReplicaDatabase {
    pub applier: FrameApplier,
}

impl ReplicaDatabase {
    /// A fresh replica with nothing applied.
    pub fn new() -> (r: ReplicaDatabase)
        ensures
            r.applier.last_applied == 0,
            r.applier.engine@ == Seq::<Seq<u8>>::empty(),
    {
        ReplicaDatabase { applier: FrameApplier::new() }
    }
}

/// The schema-sharing database variant: it logs frames exactly as a
/// primary does, so that schema changes fan out over the same stream.
pub struct SchemaDatabase {
    pub shared: PrimaryShared,
    pub replicator: ReplicatorSlot,
}

impl SchemaDatabase {
    /// A fresh schema database.
    pub fn new() -> (r: SchemaDatabase)
        ensures
            r.shared.wf(),
            r.shared.engine@ == Seq::<Seq<u8>>::empty(),
            r.shared.log.frames@.len() == 0,
            !r.shared.block_writes,
            r.replicator.present,
            !r.replicator.held,
    {
        SchemaDatabase { shared: PrimaryShared::new(), replicator: ReplicatorSlot::new(true) }
    }
}

/// The closed set of server backends; every dispatch picks the variant
/// and delegates.
pub enum Database {
    Primary(PrimaryDatabase),
    Replica(ReplicaDatabase),
    Schema(SchemaDatabase),
}

/// Validity of a database value: its log, where it has one, is well
/// formed.
pub open spec fn spec_db_wf(db: Database) -> bool {
    match db {
        Database::Primary(p) => p.shared.wf(),
        Database::Replica(_) => true,
        Database::Schema(s) => s.shared.wf(),
    }
}

/// Whether the variant's write-block flag is set; a replica takes no
/// local writes, so it never refuses one.
pub open spec fn spec_db_blocked(db: Database) -> bool {
    match db {
        Database::Primary(p) => p.shared.block_writes,
        Database::Replica(_) => false,
        Database::Schema(s) => s.shared.block_writes,
    }
}

/// The length of the variant's committed stream, 0 where it has none.
pub open spec fn spec_db_log_len(db: Database) -> int {
    match db {
        Database::Primary(p) => p.shared.log.frames@.len() as int,
        Database::Replica(_) => 0,
        Database::Schema(s) => s.shared.log.frames@.len() as int,
    }
}

/// The per-database factory the serving layer uses to hand out one
/// connection per client session; its output is always the same abstract
/// connection type, whatever the variant.
#[derive(Debug)]
pub enum ConnectionMaker {
    Primary,
    Replica,
    Schema,
}

impl ConnectionMaker {
    /// Manufacture a fresh connection bound to this maker's variant.
    pub fn make(&self) -> (r: Connection)
        ensures
            self is Primary ==> r is Primary,
            self is Replica ==> r is Replica,
            self is Schema ==> r is Schema,
            crate::connection::spec_autocommit(r),
    {
        match self {
            ConnectionMaker::Primary => Connection::Primary(
                PrimaryConnection { autocommit: true },
            ),
            ConnectionMaker::Replica => Connection::Replica(
                ReplicaConnection { autocommit: true },
            ),
            ConnectionMaker::Schema => Connection::Schema(SchemaConnection { autocommit: true }),
        }
    }
}

impl Database {
    /// The factory matching this database's variant: connections it makes
    /// pass `conn_matches_db` for this database.
    pub fn connection_maker(&self) -> (r: ConnectionMaker)
        ensures
            self is Primary <==> r is Primary,
            self is Replica <==> r is Replica,
            self is Schema <==> r is Schema,
    {
        match self {
            Database::Primary(_) => ConnectionMaker::Primary,
            Database::Replica(_) => ConnectionMaker::Replica,
            Database::Schema(_) => ConnectionMaker::Schema,
        }
    }

    /// Tear the database down, releasing its state. The real files and
    /// background tasks belong to the collaborators that the serving
    /// layer stops alongside.
    pub fn destroy(self) {
    }

    /// Orderly shutdown; nothing the core owns can fail to stop.
    pub fn shutdown(self) -> (r: Result<(), Error>)
        ensures
            r is Ok,
    {
        Ok(())
    }

    /// The frame log, for the variants that produce one.
    pub fn logger(&self) -> (r: Option<&FrameLog>)
        ensures
            r is Some <==> (self is Primary || self is Schema),
            self matches Database::Primary(p) ==> r matches Some(l) && *l == p.shared.log,
            self matches Database::Schema(s) ==> r matches Some(l) && *l == s.shared.log,
    {
        match self {
            Database::Primary(p) => Some(&p.shared.log),
            Database::Replica(_) => None,
            Database::Schema(s) => Some(&s.shared.log),
        }
    }

    /// The write-block flag's current value, for the primary that owns
    /// one.
    pub fn block_writes(&self) -> (r: Option<bool>)
        ensures
            self matches Database::Primary(p) ==> r == Some(p.shared.block_writes),
            !(self is Primary) ==> r is None,
    {
        match self {
            Database::Primary(p) => Some(p.shared.block_writes),
            _ => None,
        }
    }

    /// Set or clear the write-block flag; the coordinator's lever for
    /// pausing writers without tearing down connections. Returns whether
    /// the variant has the flag.
    pub fn set_block_writes(&mut self, value: bool) -> (r: bool)
        ensures
            r == (*old(self) is Primary),
            *old(self) matches Database::Primary(p) ==> *final(self) matches Database::Primary(p2)
                && p2.shared.block_writes == value && p2.shared.engine == p.shared.engine
                && p2.shared.log == p.shared.log && p2.replicator == p.replicator,
            !(*old(self) is Primary) ==> *final(self) == *old(self),
    {
        match self {
            Database::Primary(p) => {
                p.shared.block_writes = value;
                true
            },
            _ => false,
        }
    }

    /// A subscription on the latest committed sequence number, for the
    /// variants that track one; the handle observes that variant's own
    /// frame-log cell.
    pub fn notifier(&self) -> (r: Option<tokio::sync::watch::Receiver<Option<u64>>>)
        ensures
            r is Some <==> (self is Primary || self is Schema),
            self matches Database::Primary(p) ==> (r matches Some(rx)
                && crate::notifier::receiver_cell_of(rx) == p.shared.log.notifier.cell()),
            self matches Database::Schema(s) ==> (r matches Some(rx)
                && crate::notifier::receiver_cell_of(rx) == s.shared.log.notifier.cell()),
    {
        match self {
            Database::Primary(p) => Some(p.shared.log.subscribe()),
            Database::Replica(_) => None,
            Database::Schema(s) => Some(s.shared.log.subscribe()),
        }
    }

    /// Returns `true` for the primary variant.
    pub fn is_primary(&self) -> (r: bool)
        ensures
            r == (self is Primary),
    {
        match self {
            Database::Primary(_) => true,
            _ => false,
        }
    }

    /// Returns `true` for the schema variant.
    pub fn is_schema(&self) -> (r: bool)
        ensures
            r == (self is Schema),
    {
        match self {
            Database::Schema(_) => true,
            _ => false,
        }
    }

    /// The guarded snapshot replicator, for the variants that own one.
    pub fn replicator(&self) -> (r: Option<&ReplicatorSlot>)
        ensures
            r is Some <==> (self is Primary || self is Schema),
            self matches Database::Primary(p) ==> r matches Some(s) && *s == p.replicator,
            self matches Database::Schema(sc) ==> r matches Some(s) && *s == sc.replicator,
    {
        match self {
            Database::Primary(p) => Some(&p.replicator),
            Database::Replica(_) => None,
            Database::Schema(s) => Some(&s.replicator),
        }
    }
}

} // verus!

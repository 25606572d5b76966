use vstd::prelude::*;
use vstd::string::StringExecFns;
use crate::applier::{commit_prefix, spec_apply_last, spec_apply_pages, spec_gap_info, FrameApplier};
use crate::engine::EngineState;
use crate::error::Error;
use crate::frame::{frames_wf, Frame};

verus! {

/// How a local database file is opened. The engine collaborator consumes
/// these capabilities; the core only carries them.
#[derive(Clone, Copy, PartialEq, Eq, Structural, Debug)]
pub struct OpenFlags {
    pub read_only: bool,
    pub read_write: bool,
    pub create: bool,
}

impl Default for OpenFlags {
    /// The customary opening mode: read-write, creating the file if it
    /// does not yet exist.
    fn default() -> (r: OpenFlags)
        ensures
            r == (OpenFlags { read_only: false, read_write: true, create: true }),
    {
        OpenFlags { read_only: false, read_write: true, create: true }
    }
}

/// A local database that can pull frames from a sync source: the local
/// copy's applier, plus the configuration of where frames come from. The
/// transfer itself is the sync-transport collaborator's; the applier is
/// what guards ordering and gaps.
pub struct SyncedDatabase {
    pub path: String,
    pub endpoint: Option<String>,
    pub auth_token: Option<String>,
    pub applier: FrameApplier,
}

/// The configuration a client database was opened with: one of the closed
/// set of backend choices.
pub enum DbType {
    Memory,
    File { path: String, flags: OpenFlags },
    Sync { db: SyncedDatabase },
    Remote { url: String, auth_token: String },
}

/// A connection handed to the client, bound to the backend variant of the
/// database it came from.
pub enum Connection {
    Local(LocalConnection),
    Synced(LocalConnection),
    Remote { url: String, auth_token: String },
}

/// A connection executing against the embedded engine; its visible page
/// state models the engine's.
pub struct LocalConnection {
    pub engine: EngineState,
}

/// The variant name a sync refusal carries: the bare name of the
/// non-sync variant the call was made on, and nothing else.
pub open spec fn sync_variant_name(t: DbType, m: Seq<char>) -> bool {
    match t {
        DbType::Memory => m == "Memory"@,
        DbType::File { .. } => m == "File"@,
        DbType::Remote { .. } => m == "Remote"@,
        DbType::Sync { .. } => false,
    }
}

/// A client-facing database: the backend choice made at opening time,
/// dispatched on by every operation.
pub struct Database {
    pub db_type: DbType,
}

impl Database {
    /// Open a fresh in-memory database.
    pub fn open_in_memory() -> (r: Result<Database, Error>)
        ensures
            r matches Ok(db) && db.db_type is Memory,
    {
        Ok(Database { db_type: DbType::Memory })
    }

    /// Open a local database file with the customary flags.
    pub fn open(db_path: String) -> (r: Result<Database, Error>)
        ensures
            r matches Ok(db) && (db.db_type matches DbType::File { path, flags } && path@
                == db_path@ && flags == (OpenFlags {
                read_only: false,
                read_write: true,
                create: true,
            })),
    {
        Database::open_with_flags(db_path, OpenFlags::default())
    }

    /// Open a local database file with the given flags.
    pub fn open_with_flags(db_path: String, flags: OpenFlags) -> (r: Result<Database, Error>)
        ensures
            r matches Ok(db) && (db.db_type matches DbType::File { path, flags: f } && path@
                == db_path@ && f == flags),
    {
        Ok(Database { db_type: DbType::File { path: db_path, flags } })
    }

    /// Open a local database file that can sync from snapshot frames on
    /// the local filesystem: no remote endpoint is configured.
    pub fn open_with_local_sync(db_path: String) -> (r: Result<Database, Error>)
        ensures
            r matches Ok(db) && (db.db_type matches DbType::Sync { db: sdb }
                && sdb.path@ == db_path@ && sdb.endpoint is None && sdb.auth_token is None
                && sdb.applier.last_applied == 0),
    {
        Ok(
            Database {
                db_type: DbType::Sync {
                    db: SyncedDatabase {
                        path: db_path,
                        endpoint: None,
                        auth_token: None,
                        applier: FrameApplier::new(),
                    },
                },
            },
        )
    }

    /// Open a local database file that syncs from a remote peer at the
    /// given endpoint. The connection to the peer is the transport
    /// collaborator's; the core records where and with what credential.
    pub fn open_with_remote_sync(db_path: String, url: String, token: String) -> (r: Result<
        Database,
        Error,
    >)
        ensures
            r matches Ok(db) && (db.db_type matches DbType::Sync { db: sdb }
                && sdb.path@ == db_path@ && (sdb.endpoint matches Some(u) && u@ == url@)
                && (sdb.auth_token matches Some(t) && t@ == token@)
                && sdb.applier.last_applied == 0),
    {
        Ok(
            Database {
                db_type: DbType::Sync {
                    db: SyncedDatabase {
                        path: db_path,
                        endpoint: Some(url),
                        auth_token: Some(token),
                        applier: FrameApplier::new(),
                    },
                },
            },
        )
    }

    /// Open a thin client over a remote execution endpoint.
    pub fn open_remote(url: String, auth_token: String) -> (r: Result<Database, Error>)
        ensures
            r matches Ok(db) && (db.db_type matches DbType::Remote { url: u, auth_token: t }
                && u@ == url@ && t@ == auth_token@),
    {
        Ok(Database { db_type: DbType::Remote { url, auth_token } })
    }

    /// Whether this database can sync: succeeds exactly for the sync
    /// variant, whose transfer the caller may then drive; any other
    /// variant is refused with the backend-unsupported error, never a
    /// panic. The error carries exactly the refusing variant's name —
    /// never the path, endpoint or credential the variant holds.
    pub fn sync(&self) -> (r: Result<(), Error>)
        ensures
            r is Ok <==> self.db_type is Sync,
            r matches Err(e) ==> (e matches Error::SyncNotSupported(m) && sync_variant_name(
                self.db_type,
                m@,
            )),
    {
        match &self.db_type {
            DbType::Sync { .. } => Ok(()),
            DbType::Memory => Err(Error::SyncNotSupported(String::from_str("Memory"))),
            DbType::File { .. } => Err(Error::SyncNotSupported(String::from_str("File"))),
            DbType::Remote { .. } => Err(Error::SyncNotSupported(String::from_str("Remote"))),
        }
    }

    /// Apply a batch of frames pulled from the sync source to the local
    /// copy, returning how many were newly applied. Only the sync variant
    /// supports this. The applier's contract governs the rest: only the
    /// batch's committed prefix is applied (a trailing partial
    /// transaction is held back), re-delivery is skipped, and a gap is
    /// refused with nothing changed.
    pub fn sync_frames(&mut self, frames: Vec<Frame>) -> (r: Result<usize, Error>)
        requires
            frames_wf(frames@),
        ensures
            !(old(self).db_type is Sync) ==> (r matches Err(e) && (e matches
                Error::SyncNotSupported(m) && sync_variant_name(old(self).db_type, m@))
                && *final(self) == *old(self)),
            old(self).db_type matches DbType::Sync { db: sdb } ==> (final(self).db_type
                matches DbType::Sync { db: sdb2 } && sdb2.path == sdb.path
                && sdb2.endpoint == sdb.endpoint && sdb2.auth_token == sdb.auth_token && {
                &&& spec_apply_last(sdb.applier.last_applied, commit_prefix(frames@)) matches Some(
                    new_last,
                ) ==> (r matches Ok(count) && count == new_last - sdb.applier.last_applied
                    && sdb2.applier.last_applied == new_last && sdb2.applier.engine@
                    == spec_apply_pages(
                    sdb.applier.engine@,
                    sdb.applier.last_applied,
                    commit_prefix(frames@),
                ))
                &&& spec_apply_last(sdb.applier.last_applied, commit_prefix(frames@)) is None ==> (
                r matches Err(e) && e == (Error::ReplicationGap {
                    expected: spec_gap_info(
                        sdb.applier.last_applied,
                        commit_prefix(frames@),
                    ).0,
                    got: spec_gap_info(sdb.applier.last_applied, commit_prefix(frames@)).1,
                }) && sdb2.applier == sdb.applier)
            }),
    {
        match &mut self.db_type {
            DbType::Sync { db } => db.applier.apply(&frames),
            DbType::Memory => Err(Error::SyncNotSupported(String::from_str("Memory"))),
            DbType::File { .. } => Err(Error::SyncNotSupported(String::from_str("File"))),
            DbType::Remote { .. } => Err(Error::SyncNotSupported(String::from_str("Remote"))),
        }
    }

    /// Make a connection bound to this database's variant; the caller
    /// stays variant-agnostic.
    pub fn connect(&self) -> (r: Result<Connection, Error>)
        ensures
            r is Ok,
            self.db_type is Memory ==> (r matches Ok(c) && c matches Connection::Local(lc)
                && lc.engine@ == Seq::<Seq<u8>>::empty()),
            self.db_type is File ==> (r matches Ok(c) && c matches Connection::Local(lc)
                && lc.engine@ == Seq::<Seq<u8>>::empty()),
            self.db_type is Sync ==> (r matches Ok(c) && c matches Connection::Synced(lc)
                && lc.engine@ == Seq::<Seq<u8>>::empty()),
            self.db_type matches DbType::Remote { url, auth_token } ==> (r matches Ok(c)
                && c matches Connection::Remote { url: u, auth_token: t } && u@ == url@ && t@
                == auth_token@),
    {
        match &self.db_type {
            DbType::Memory => Ok(Connection::Local(LocalConnection { engine: EngineState::new() })),
            DbType::File { .. } => Ok(
                Connection::Local(LocalConnection { engine: EngineState::new() }),
            ),
            DbType::Sync { .. } => Ok(
                Connection::Synced(LocalConnection { engine: EngineState::new() }),
            ),
            DbType::Remote { url, auth_token } => Ok(
                Connection::Remote { url: url.clone(), auth_token: auth_token.clone() },
            ),
        }
    }
}

} // verus!

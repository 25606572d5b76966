use vstd::prelude::*;

verus! {

/// Errors surfaced by the replication core.
///
/// Every data-dependent fault is returned through this type; no operation of
/// the library panics. Durable-storage faults belong to the storage
/// collaborator that drives the library and are not raised from within it.
#[derive(Debug)]
pub enum Error {
    /// A capability was invoked on a database variant that does not support
    /// it, such as a sync operation on a plain file-backed database. The
    /// payload names the variant the call was made on.
    SyncNotSupported(String),
    /// A write transaction was attempted while the write-block flag of the
    /// primary is set.
    WriteBlocked,
    /// A frames-batch began more than one past the applier's last-applied
    /// sequence number; the caller must resynchronize from `expected`.
    ReplicationGap { expected: u64, got: u64 },
}

impl Error {
    /// True exactly for the backend-unsupported-operation class.
    pub fn is_sync_not_supported(&self) -> (r: bool)
        ensures
            r == (self is SyncNotSupported),
    {
        match self {
            Error::SyncNotSupported(_) => true,
            _ => false,
        }
    }

    /// True exactly for the write-blocked class.
    pub fn is_write_blocked(&self) -> (r: bool)
        ensures
            r == (self is WriteBlocked),
    {
        match self {
            Error::WriteBlocked => true,
            _ => false,
        }
    }

    /// True exactly for the replication-gap class.
    pub fn is_replication_gap(&self) -> (r: bool)
        ensures
            r == (self is ReplicationGap),
    {
        match self {
            Error::ReplicationGap { .. } => true,
            _ => false,
        }
    }
}

} // verus!

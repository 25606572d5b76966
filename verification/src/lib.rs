//! Replication core of a distributed SQLite-compatible engine.
//!
//! The library models the parts of the system with real invariants: the
//! write-ahead-log frame stream a primary produces (ordered, gapless,
//! monotonically numbered), the applier a replica uses to consume that
//! stream, the write-blocking coordination flag, and the closed set of
//! database backends behind one connection abstraction. The embedded SQL
//! engine, network transport and snapshot storage are collaborators that
//! sit outside this crate; their state is modelled here as plain values.

pub mod applier;
pub mod client;
pub mod connection;
pub mod database;
pub mod engine;
pub mod error;
pub mod frame;
pub mod frame_log;
pub mod interceptor;
pub mod notifier;
pub mod parser;

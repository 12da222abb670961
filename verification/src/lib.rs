//! Reconciliation core of an oracle bridge.
//!
//! The library holds the verified heart of a poller that watches a
//! decentralized data-request network for resolved queries: the per-record
//! decision logic of a reconciliation scan, the pure epoch-to-timestamp
//! conversion, and the deterministic error classifier that decides which
//! failures may become consensus-visible outcomes. Transport, persistence
//! and scheduling are collaborators: callers perform the network calls and
//! hand their outcomes back as plain values.

pub mod epochs;
pub mod errors;
pub mod poller;
pub mod records;
pub mod scan;

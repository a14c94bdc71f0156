//! Verified core of a pipeline that subscribes to a feed of transaction
//! updates and stores one flat record per transaction.
//!
//! The library decides and computes; it performs no I/O. A driver connects,
//! reads, writes and sleeps, and reports each result back.
//!
//! - [`codec`] turns a transaction update into its record.
//! - [`dispatch`] says what to do about one read of the inbound stream.
//! - [`session`] follows one subscription from opening to its end.
//! - [`sink`] fixes the insert statement and the values bound to it.
//! - [`backoff`] and [`supervisor`] decide when to connect again.
//! - [`subscription`] and [`update`] hold what is written to and read from
//!   the feed; [`config`] checks what a run starts with; [`error`] names
//!   the failures.
//! - [`session_laws`] and [`supervisor_laws`] state what holds of every run.
//! - [`base58`] is where the encoding of signatures and keys is taken on
//!   trust from the crates that implement it.

pub mod backoff;
pub mod base58;
pub mod codec;
pub mod config;
pub mod dispatch;
pub mod error;
pub mod session;
pub mod session_laws;
pub mod sink;
pub mod subscription;
pub mod supervisor;
pub mod supervisor_laws;
pub mod text;
pub mod update;

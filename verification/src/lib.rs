//! Thread-isolated SQLite with cancellation, async bridge, and connection pool:
//! the verified rules of an isle.
//!
//! An isle confines a [`rusqlite::Connection`] to a dedicated OS thread and
//! talks to it through channels. This crate holds what such an isle decides,
//! with its contracts:
//!
//! - [`token`]: the two-stage cancellation of a job, queued and running;
//! - [`job`]: how one job is run, and what its caller is told;
//! - [`worker`]: the loop that serves the jobs, and when it ends;
//! - [`handle`], [`task`]: configuration, launch, submission, deadline and
//!   shutdown of the synchronous handle;
//! - [`async_isle`], [`async_task`]: the same for async callers;
//! - [`pool`]: checkout and return of isles;
//! - [`system`]: what holds of an isle however callers and thread interleave;
//! - [`laws`]: what each operation is for, stated of its own contract.
//!
//! Threads, channels, clocks and the database itself stay with the caller. A
//! function that needs them takes them as functions, and its contract says
//! which of them it calls, in which order, with which arguments, and what it
//! makes of their results.
pub mod async_isle;
pub mod async_task;
pub mod error;
pub mod handle;
pub mod job;
pub mod laws;
pub mod pool;
pub mod system;
pub mod task;
pub mod token;
pub mod worker;

pub use async_isle::{AsyncIsle, AsyncIsleBuilder, AsyncIsleDriver};
pub use async_task::AsyncTask;
pub use error::IsleError;
pub use handle::{Isle, IsleBuilder};
pub use pool::{IslePool, PoolConfig};
pub use task::Task;
pub use token::CancelToken;

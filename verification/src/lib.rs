//! An asynchronous single-flight coordinator for a long-running remote
//! repository fetch.
//!
//! The coordinator owns the shared state of one fetch cycle (the in-flight
//! marker, the last completed result, the latest progress snapshot) and
//! exposes a non-blocking polling interface.  At most one fetch is in flight
//! at a time: a request issued while one is running is a silent no-op.
//!
//! The blocking remote operation itself, the relay thread that drains the
//! progress channel, and the worker thread that drives a cycle are outside
//! collaborators; this crate holds every decision they act on, each with a
//! verified contract.

pub mod channel;
pub mod cred;
pub mod error;
pub mod fetch;
pub mod progress;

pub use channel::{emit_fetch_notification, open_progress_channel, send_done_sentinel};
pub use cred::BasicAuthCredential;
pub use error::Error;
pub use fetch::{AsyncFetch, FetchRequest, FetchState, RequestOutcome};
pub use progress::{AsyncGitNotification, ProgressNotification};

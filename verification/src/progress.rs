use vstd::prelude::*;

verus! {

/// One progress event of a running fetch, as produced by the remote
/// operation and consumed by the relay loop.  `Done` is the sentinel that
/// tells the relay to terminate; it is never stored as a snapshot.
#[derive(Clone, Copy, Debug, PartialEq, Eq)]
pub enum ProgressNotification {
    /// Objects are being packed on the remote side.
    Packing {
        /// How many objects are packed so far.
        current: usize,
        /// How many objects there are to pack.
        total: usize,
    },
    /// Objects are being transferred.
    Transfer {
        /// How many objects arrived so far.
        objects: usize,
        /// How many objects the transfer announces in total.
        total_objects: usize,
        /// How many bytes arrived so far.
        bytes: usize,
    },
    /// The sentinel: the cycle is over and the relay must exit.
    Done,
}

/// The event kinds a coordinator reports on its notification channel.
/// This crate contributes exactly one `Fetch` event when a cycle completes,
/// and the relay forwards one per progress event.
#[derive(Clone, Copy, Debug, PartialEq, Eq)]
pub enum AsyncGitNotification {
    /// Something about the fetch cycle changed: progress arrived, or the
    /// cycle completed.
    Fetch,
}

} // verus!

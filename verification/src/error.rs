use vstd::prelude::*;
use vstd::string::StringExecFns;

verus! {

/// The errors that the coordinator surfaces synchronously.
///
/// The failure of the remote operation itself is never an `Error`: it is
/// captured asynchronously into the last result as `(0, message)` and the
/// fetch cycle still completes normally.
#[derive(Clone, Copy, Debug, PartialEq, Eq)]
pub enum Error {
    /// A request passed the pending check but found an in-flight request
    /// already installed: the residual race of two concurrent requests.
    Busy,
    /// A channel send failed because the receiving side is gone; a structural
    /// wiring defect, unrecoverable for the thread that hit it.
    Channel,
}

impl Error {
    /// A short human-readable description of the error.
    pub fn message(&self) -> (r: String)
        ensures
            *self is Busy ==> r@ == "pending request"@,
            *self is Channel ==> r@ == "channel disconnected"@,
    {
        match self {
            Error::Busy => String::from_str("pending request"),
            Error::Channel => String::from_str("channel disconnected"),
        }
    }
}

} // verus!

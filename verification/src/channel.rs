use vstd::prelude::*;

use crate::error::Error;
use crate::progress::{AsyncGitNotification, ProgressNotification};

verus! {

/// The sending half of a crossbeam_channel channel, opaque to the verifier.
#[verifier::external_type_specification]
#[verifier::external_body]
#[verifier::reject_recursive_types(T)]
pub struct ExSender<T>(crossbeam_channel::Sender<T>);

/// The receiving half of a crossbeam_channel channel, opaque to the verifier.
#[verifier::external_type_specification]
#[verifier::external_body]
#[verifier::reject_recursive_types(T)]
pub struct ExReceiver<T>(crossbeam_channel::Receiver<T>);

/// crossbeam_channel's send error, carrying the undelivered message.
#[verifier::external_type_specification]
#[verifier::external_body]
#[verifier::reject_recursive_types(T)]
pub struct ExSendError<T>(crossbeam_channel::SendError<T>);

/// Relies on crossbeam_channel::unbounded: returns the two halves of a fresh
/// channel of unlimited capacity.  Nothing about the channel's content is
/// assumed: other threads may send and receive on it at any time.
pub assume_specification<T>[ crossbeam_channel::unbounded::<T> ]() -> (r: (
    crossbeam_channel::Sender<T>,
    crossbeam_channel::Receiver<T>,
));

/// Relies on crossbeam_channel::Sender::send: enqueues the message, or
/// returns it inside the error when every receiver is gone.  Whether the
/// send succeeds depends on the other threads, so no outcome is promised;
/// on a channel of bounded capacity the call may also block.  This crate
/// sends only on the channels of its interface, which are unbounded.
pub assume_specification<T>[ crossbeam_channel::Sender::<T>::send ](
    s: &crossbeam_channel::Sender<T>,
    msg: T,
) -> (r: Result<(), crossbeam_channel::SendError<T>>);

/// Relies on Clone for crossbeam_channel::Sender: the clone sends into the
/// same channel as the original.  That link is not visible to the verifier;
/// nothing is assumed of the returned value.
pub assume_specification<T>[ <crossbeam_channel::Sender<T> as Clone>::clone ](
    s: &crossbeam_channel::Sender<T>,
) -> (r: crossbeam_channel::Sender<T>);

/// Opens the progress channel of one fetch cycle: unbounded, its producer
/// half handed to the remote operation, its consumer half to the relay.
pub fn open_progress_channel() -> (r: (
    crossbeam_channel::Sender<ProgressNotification>,
    crossbeam_channel::Receiver<ProgressNotification>,
))
{
    crossbeam_channel::unbounded()
}

/// Pushes the termination sentinel into a progress channel, telling the
/// relay on its other end to exit.  The only error it can surface is
/// `Error::Channel`: the relay is already gone.
pub fn send_done_sentinel(s: &crossbeam_channel::Sender<ProgressNotification>) -> (r: Result<
    (),
    Error,
>)
    ensures
        r matches Err(e) ==> e == Error::Channel,
{
    match s.send(ProgressNotification::Done) {
        Ok(()) => Ok(()),
        Err(_) => Err(Error::Channel),
    }
}

/// Emits one completion notification on the caller-visible notification
/// channel.  The only error it can surface is `Error::Channel`: the
/// notification consumer is already gone.
pub fn emit_fetch_notification(s: &crossbeam_channel::Sender<AsyncGitNotification>) -> (r: Result<
    (),
    Error,
>)
    ensures
        r matches Err(e) ==> e == Error::Channel,
{
    match s.send(AsyncGitNotification::Fetch) {
        Ok(()) => Ok(()),
        Err(_) => Err(Error::Channel),
    }
}

} // verus!

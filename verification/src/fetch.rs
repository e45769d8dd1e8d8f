use vstd::prelude::*;

use crate::cred::{clone_opt_credential, BasicAuthCredential};
use crate::error::Error;
use crate::progress::{AsyncGitNotification, ProgressNotification};

verus! {

/// The parameters of one fetch: which remote, which branch, and which
/// credential to offer.  Immutable once submitted.
#[derive(Clone, Debug)]
pub struct FetchRequest {
    /// The name of the remote to fetch from.
    pub remote: String,
    /// The branch to fetch.
    pub branch: String,
    /// The credential to offer when the remote asks for one.
    pub basic_credential: Option<BasicAuthCredential>,
}

impl FetchRequest {
    /// Copies the request; the copy equals the original.
    pub fn duplicate(&self) -> (r: FetchRequest)
        ensures
            r == *self,
    {
        FetchRequest {
            remote: self.remote.clone(),
            branch: self.branch.clone(),
            basic_credential: clone_opt_credential(&self.basic_credential),
        }
    }
}

/// The in-flight marker, wrapping the active request.  Its presence is the
/// sole busy indicator of the coordinator: it is created when a request is
/// accepted and destroyed when the cycle completes, so at most one exists
/// at any instant.
#[derive(Clone, Debug)]
pub struct FetchState {
    /// The request the running task was started for.
    pub request: FetchRequest,
}

/// What `request` tells its caller to do next.
pub enum RequestOutcome {
    /// A fetch was already in flight; the call changed nothing and no new
    /// task may be started.
    AlreadyPending,
    /// A new cycle was accepted: the caller must start exactly one task
    /// runner for these parameters, handing it this clone of the
    /// notification sender.
    Started(FetchRequest, crossbeam_channel::Sender<AsyncGitNotification>),
}

/// Whether a stored result entry is the one that an outcome of the remote
/// operation maps to: on success the transferred bytes and an empty error
/// text, on failure zero bytes and the error text.
pub open spec fn result_entry_matches(entry: (usize, String), res: Result<usize, String>) -> bool {
    match res {
        Ok(bytes) => entry.0 == bytes && entry.1@ == Seq::<char>::empty(),
        Err(msg) => entry.0 == 0 && entry.1 == msg,
    }
}

/// The single-flight coordinator.  It owns the shared state of the fetch
/// cycle and exposes the non-blocking polling interface; the blocking work
/// itself runs in a task runner outside this crate, which drives the state
/// through the verified transitions below.
pub struct AsyncFetch {
    state: Option<FetchState>,
    last_result: Option<(usize, String)>,
    progress: Option<ProgressNotification>,
    sender: crossbeam_channel::Sender<AsyncGitNotification>,
}

impl AsyncFetch {
    /// Whether a fetch is in flight: the abstract busy flag.
    pub closed spec fn pending(self) -> bool {
        self.state is Some
    }

    /// The parameters of the in-flight fetch, if one is running.
    pub closed spec fn in_flight(self) -> Option<FetchRequest> {
        match self.state {
            Some(st) => Some(st.request),
            None => None,
        }
    }

    /// The outcome of the last completed cycle: bytes transferred and error
    /// text, `None` while no cycle has ever completed.
    pub closed spec fn stored_result(self) -> Option<(usize, String)> {
        self.last_result
    }

    /// The latest progress snapshot of the current cycle.
    pub closed spec fn snapshot(self) -> Option<ProgressNotification> {
        self.progress
    }

    /// The notification sender the coordinator was created with.  No
    /// transition ever replaces it.
    pub closed spec fn notifier(self) -> crossbeam_channel::Sender<AsyncGitNotification> {
        self.sender
    }

    /// What a single `request` call does to the coordinator: nothing when a
    /// fetch is already in flight; otherwise it installs the in-flight
    /// marker for the given parameters and resets the progress snapshot.
    pub closed spec fn spec_request(self, params: FetchRequest) -> AsyncFetch {
        if self.pending() {
            self
        } else {
            AsyncFetch {
                state: Some(FetchState { request: params }),
                last_result: self.last_result,
                progress: None,
                sender: self.sender,
            }
        }
    }

    /// Creates an idle coordinator that reports completions on clones of
    /// the given notification sender.
    pub fn new(sender: &crossbeam_channel::Sender<AsyncGitNotification>) -> (r: AsyncFetch)
        ensures
            !r.pending(),
            r.stored_result() is None,
            r.snapshot() is None,
    {
        AsyncFetch {
            state: None,
            last_result: None,
            progress: None,
            sender: sender.clone(),
        }
    }

    /// Whether a fetch is currently in flight.
    pub fn is_pending(&self) -> (r: bool)
        ensures
            r == self.pending(),
    {
        self.state.is_some()
    }

    /// A snapshot of the last completed cycle's outcome; `None` while no
    /// cycle has ever completed.
    pub fn last_result(&self) -> (r: Option<(usize, String)>)
        ensures
            r == self.stored_result(),
    {
        match &self.last_result {
            Some(t) => Some((t.0, t.1.clone())),
            None => None,
        }
    }

    /// A snapshot of the latest progress of the current cycle.
    pub fn progress(&self) -> (r: Option<ProgressNotification>)
        ensures
            r == self.snapshot(),
    {
        self.progress
    }

    /// Accepts a new fetch unless one is already in flight.
    ///
    /// While a fetch is pending the call is a silent no-op: it succeeds,
    /// changes nothing, and tells the caller not to start a task.  On an
    /// idle coordinator it installs the in-flight marker, resets the
    /// progress snapshot, and tells the caller to start exactly one task
    /// runner for these parameters.  Sequentially it never fails; the
    /// residual race of two concurrent callers surfaces as the `Busy`
    /// error of `set_request`.
    pub fn request(&mut self, params: FetchRequest) -> (r: Result<RequestOutcome, Error>)
        ensures
            r is Ok,
            *final(self) == old(self).spec_request(params),
            old(self).pending() ==> (r matches Ok(o) && o is AlreadyPending) && *final(self)
                == *old(self),
            !old(self).pending() ==> (r matches Ok(o) && o matches RequestOutcome::Started(p, _)
                && p == params) && final(self).pending() && final(self).in_flight() == Some(params)
                && final(self).snapshot() is None
                && final(self).stored_result() == old(self).stored_result(),
    {
        if self.is_pending() {
            return Ok(RequestOutcome::AlreadyPending);
        }

        match self.set_request(&params) {
            Ok(_) => {},
            Err(e) => {
                return Err(e);
            },
        }
        self.progress = None;

        let sender = self.sender.clone();
        Ok(RequestOutcome::Started(params, sender))
    }

    /// Atomically installs the in-flight marker for the given parameters.
    ///
    /// Fails with `Busy` when a marker is already installed: the residual
    /// race of a request that passed the pending check while another was
    /// being accepted.  That race is surfaced, never silently swallowed.
    pub fn set_request(&mut self, params: &FetchRequest) -> (r: Result<(), Error>)
        ensures
            old(self).pending() ==> (r matches Err(e) && e == Error::Busy)
                && *final(self) == *old(self),
            !old(self).pending() ==> r is Ok && final(self).pending() && final(self).in_flight()
                == Some(*params) && final(self).stored_result() == old(self).stored_result()
                && final(self).snapshot() == old(self).snapshot(),
            final(self).notifier() == old(self).notifier(),
    {
        if self.state.is_some() {
            return Err(Error::Busy);
        }

        self.state = Some(FetchState { request: params.duplicate() });

        Ok(())
    }

    /// Destroys the in-flight marker, returning the coordinator to idle.
    /// The stored result and the progress snapshot stay as they are.
    pub fn clear_request(&mut self)
        ensures
            !final(self).pending(),
            final(self).in_flight() is None,
            final(self).stored_result() == old(self).stored_result(),
            final(self).snapshot() == old(self).snapshot(),
            final(self).notifier() == old(self).notifier(),
    {
        self.state = None;
    }

    /// Stores the outcome of the remote operation: on success the
    /// transferred bytes with an empty error text, on failure zero bytes
    /// with the error text.  Everything else stays as it is.
    pub fn set_result(&mut self, res: Result<usize, String>)
        ensures
            final(self).stored_result() matches Some(t) && result_entry_matches(t, res),
            final(self).pending() == old(self).pending(),
            final(self).in_flight() == old(self).in_flight(),
            final(self).snapshot() == old(self).snapshot(),
            final(self).notifier() == old(self).notifier(),
    {
        self.last_result = match res {
            Ok(bytes) => Some((bytes, String::new())),
            Err(msg) => Some((0, msg)),
        };
    }

    /// The tail of a fetch cycle, run whatever the remote operation did:
    /// stores the outcome, then returns the coordinator to idle.  After it
    /// returns, polling observes the terminal state, so the caller emits
    /// the one completion notification only then.
    pub fn complete(&mut self, res: Result<usize, String>)
        ensures
            !final(self).pending(),
            final(self).stored_result() matches Some(t) && result_entry_matches(t, res),
            final(self).snapshot() == old(self).snapshot(),
            final(self).notifier() == old(self).notifier(),
    {
        self.set_result(res);
        self.clear_request();
    }

    /// One relay step: applies an arriving progress event to the shared
    /// snapshot, latest replacing previous, and says whether the relay must
    /// stop.  The `Done` sentinel stops the relay and is never stored.
    pub fn apply_progress(&mut self, event: ProgressNotification) -> (stop: bool)
        ensures
            stop == (event is Done),
            event is Done ==> *final(self) == *old(self),
            !(event is Done) ==> final(self).snapshot() == Some(event)
                && final(self).pending() == old(self).pending()
                && final(self).in_flight() == old(self).in_flight()
                && final(self).stored_result() == old(self).stored_result(),
            final(self).notifier() == old(self).notifier(),
    {
        match event {
            ProgressNotification::Done => true,
            _ => {
                self.progress = Some(event);
                false
            },
        }
    }
}

/// What a whole sequence of `request` calls, with no completion in
/// between, does to the coordinator: each call in turn.
pub open spec fn spec_request_all(c: AsyncFetch, reqs: Seq<FetchRequest>) -> AsyncFetch
    decreases reqs.len(),
{
    if reqs.len() == 0 {
        c
    } else {
        spec_request_all(c.spec_request(reqs[0]), reqs.drop_first())
    }
}

/// A fetch is pending if and only if the parameters of an in-flight
/// request are tracked.
pub proof fn lemma_pending_iff_in_flight(c: AsyncFetch)
    ensures
        c.pending() <==> c.in_flight() is Some,
{
}

/// A request issued while a fetch is in flight changes nothing: it neither
/// replaces the in-flight request's parameters nor touches the stored
/// result or the snapshot.
pub proof fn lemma_request_while_pending_is_noop(c: AsyncFetch, p: FetchRequest)
    requires
        c.pending(),
    ensures
        c.spec_request(p) == c,
{
}

/// A request accepted on an idle coordinator installs exactly its own
/// parameters, resets the progress snapshot to none even if the previous
/// cycle left one behind, and keeps the previous cycle's result readable.
pub proof fn lemma_request_installs(c: AsyncFetch, p: FetchRequest)
    requires
        !c.pending(),
    ensures
        c.spec_request(p).pending(),
        c.spec_request(p).in_flight() == Some(p),
        c.spec_request(p).snapshot() is None,
        c.spec_request(p).stored_result() == c.stored_result(),
{
}

/// Single flight: under any sequence of `request` calls with no completion
/// in between, the coordinator tracks at most one in-flight request.  If
/// one was already in flight the whole sequence changes nothing; on an
/// idle coordinator the first request of the sequence is the one installed
/// and every later one is ignored.
pub proof fn lemma_single_flight(c: AsyncFetch, reqs: Seq<FetchRequest>)
    ensures
        c.pending() ==> spec_request_all(c, reqs) == c,
        !c.pending() && reqs.len() > 0 ==> spec_request_all(c, reqs).in_flight() == Some(
            reqs[0],
        ),
        !c.pending() && reqs.len() == 0 ==> spec_request_all(c, reqs) == c,
    decreases reqs.len(),
{
    if reqs.len() > 0 {
        lemma_single_flight(c.spec_request(reqs[0]), reqs.drop_first());
    }
}

} // verus!

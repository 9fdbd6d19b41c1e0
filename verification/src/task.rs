//! Task handle: a cancellable pending result of one SQLite job.
use vstd::prelude::*;

use crate::error::IsleError;
use crate::token::{CancelToken, Reason, TokenOp};

verus! {

/// What the caller of a job is told, where `None` stands for a reply channel
/// whose sender is gone: the SQLite thread shut down, or dropped the job,
/// without delivering a result.
pub open spec fn resolved<T>(reply: Option<Result<T, IsleError>>) -> Result<T, IsleError> {
    match reply {
        Some(result) => result,
        None => Err(IsleError::Closed),
    }
}

/// What the caller of a job is told.
pub fn resolve<T>(reply: Option<Result<T, IsleError>>) -> (result: Result<T, IsleError>)
    ensures
        result == resolved(reply),
{
    match reply {
        Some(result) => result,
        None => Err(IsleError::Closed),
    }
}

/// The reply that arrives through `rx` was waited for in `world`; `after` and
/// `result` are what came of it.
pub open spec fn receives<W, R, T, F>(
    world: W,
    rx: R,
    recv: F,
    after: W,
    result: Result<T, IsleError>,
) -> bool where F: FnOnce(W, R) -> (W, Option<Result<T, IsleError>>) {
    exists|reply: Option<Result<T, IsleError>>| #[trigger]
        recv.ensures((world, rx), (after, reply)) && result == resolved(reply)
}

/// Handle to a pending SQLite job, whose reply arrives through a receiver of
/// type `R`.
///
/// Dropping a task does **not** cancel its job.
pub struct Task<R> {
    rx: R,
    cancel: CancelToken,
}

impl<R> Task<R> {
    /// The receiver that the reply arrives through.
    pub closed spec fn receiver(self) -> R {
        self.rx
    }

    /// The token of the task's job.
    pub closed spec fn token(self) -> CancelToken {
        self.cancel
    }

    /// A task that is told its job's result through `rx` and cancels it through
    /// `cancel`.
    pub fn new(rx: R, cancel: CancelToken) -> (task: Task<R>)
        ensures
            task.receiver() == rx,
            task.token() == cancel,
    {
        Task { rx, cancel }
    }

    /// Blocks, with `recv`, until the result is available.
    ///
    /// Returns [`IsleError::Closed`] if the SQLite thread went away without
    /// delivering a result.
    pub fn wait<W, T, F>(self, world: W, recv: F) -> (out: (W, Result<T, IsleError>)) where
        F: FnOnce(W, R) -> (W, Option<Result<T, IsleError>>),

        requires
            forall|w: W, rx: R| #[trigger] recv.requires((w, rx)),
        ensures
            receives(world, self.receiver(), recv, out.0, out.1),
    {
        let (after, reply) = recv(world, self.rx);
        (after, resolve(reply))
    }

    /// Cancels the job.
    ///
    /// A queued job is skipped, a running statement is interrupted. The task
    /// resolves to [`IsleError::Cancelled`].
    pub fn cancel(&self)
        ensures
            self.token().made(TokenOp::Fire(Reason::Cancelled)),
    {
        self.cancel.cancel();
    }

    /// Polls for the result, with `poll`, without blocking.
    ///
    /// Returns `None` while the job is still pending.
    pub fn try_recv<T, F>(&self, poll: F) -> (result: Option<Result<T, IsleError>>) where
        F: FnOnce(&R) -> Option<Result<T, IsleError>>,

        requires
            forall|rx: &R| #[trigger] poll.requires((rx,)),
        ensures
            poll.ensures((&self.receiver(),), result),
    {
        poll(&self.rx)
    }

    /// The receiver that the reply arrives through.
    pub fn rx_ref(&self) -> (rx: &R)
        ensures
            *rx == self.receiver(),
    {
        &self.rx
    }

    /// The cancel token, to clone and share with other code.
    pub fn cancel_token(&self) -> (token: &CancelToken)
        ensures
            *token == self.token(),
    {
        &self.cancel
    }
}

} // verus!

//! Async task handle: a cancellable future of one SQLite job.
//!
//! # Drop = cancel
//!
//! Dropping an async task **cancels** its job: a queued job is skipped, a
//! running statement is interrupted. So a job whose future was abandoned does
//! not keep the SQLite thread busy. [`AsyncTask::detach`] opts out of this.
use vstd::prelude::*;

use crate::error::IsleError;
use crate::task::resolve;
use crate::token::{first_reason, CancelToken, Reason, TokenCell, TokenOp};

verus! {

/// What a poll of the reply channel gave.
pub enum Polled<T> {
    /// Nothing yet.
    Pending,
    /// The reply.
    Reply(Result<T, IsleError>),
    /// The sender is gone without a reply.
    Disconnected,
}

/// What a poll of the task gives: `None` while the job is pending.
pub open spec fn poll_result<T>(polled: Polled<T>) -> Option<Result<T, IsleError>> {
    match polled {
        Polled::Pending => None,
        Polled::Reply(result) => Some(result),
        Polled::Disconnected => Some(Err(IsleError::Closed)),
    }
}

/// Async handle to a pending SQLite job, whose reply arrives through a receiver
/// of type `R`.
pub struct AsyncTask<R> {
    rx: R,
    cancel: CancelToken,
    detached: bool,
}

impl<R> AsyncTask<R> {
    /// The receiver that the reply arrives through.
    pub closed spec fn receiver(self) -> R {
        self.rx
    }

    /// The token of the task's job.
    pub closed spec fn token(self) -> CancelToken {
        self.cancel
    }

    /// Whether dropping the task leaves its job alone.
    pub closed spec fn is_detached(self) -> bool {
        self.detached
    }

    /// A task that is told its job's result through `rx` and cancels it through
    /// `cancel`, also when it is dropped.
    pub fn new(rx: R, cancel: CancelToken) -> (task: AsyncTask<R>)
        ensures
            task.receiver() == rx,
            task.token() == cancel,
            !task.is_detached(),
    {
        AsyncTask { rx, cancel, detached: false }
    }

    /// Cancels the job.
    ///
    /// A queued job is skipped, a running statement is interrupted. The task
    /// resolves to [`IsleError::Cancelled`].
    pub fn cancel(&self)
        ensures
            self.token().made(TokenOp::Fire(Reason::Cancelled)),
    {
        self.cancel.cancel();
    }

    /// The cancel token, to clone and share with another task.
    pub fn cancel_token(&self) -> (token: &CancelToken)
        ensures
            *token == self.token(),
    {
        &self.cancel
    }

    /// Detaches the job from this handle: dropping the task no longer cancels
    /// it, so the job runs to completion and its result is discarded.
    pub fn detach(&mut self)
        ensures
            final(self).is_detached(),
            final(self).receiver() == old(self).receiver(),
            final(self).token() == old(self).token(),
    {
        self.detached = true;
    }

    /// Polls for the result.
    ///
    /// A reply channel whose sender is gone resolves to [`IsleError::Closed`]:
    /// the SQLite thread shut down or aborted while the job was queued.
    pub fn poll<T, P>(&mut self, poll: P) -> (result: Option<Result<T, IsleError>>) where
        P: FnOnce(&mut R) -> Polled<T>,

        requires
            forall|rx: &mut R| #[trigger] poll.requires((rx,)),
        ensures
            final(self).token() == old(self).token(),
            final(self).is_detached() == old(self).is_detached(),
            exists|rx: &mut R, polled: Polled<T>|
                *rx == old(self).receiver() && *final(rx) == final(self).receiver() && #[trigger]
                poll.ensures((rx,), polled) && result == poll_result(polled),
    {
        match poll(&mut self.rx) {
            Polled::Pending => None,
            Polled::Reply(result) => Some(result),
            Polled::Disconnected => Some(resolve(None)),
        }
    }

    /// Drops the task: cancels its token with `fire`, unless the task is
    /// detached.
    ///
    /// This is harmless once the job is over, for then nothing is attached to
    /// the token.
    pub fn release<W, F>(&self, world: W, fire: F) -> (after: W) where
        F: FnOnce(W, &CancelToken, Reason) -> W,

        requires
            forall|w: W, t: &CancelToken, r: Reason| #[trigger] fire.requires((w, t, r)),
        ensures
            releases(*self, world, fire, after),
    {
        if self.detached {
            world
        } else {
            fire(world, &self.cancel, Reason::Cancelled)
        }
    }
}

/// `task` was dropped in `world`, which left `after`: its token was cancelled with
/// `fire`, unless the task was detached.
pub open spec fn releases<W, R, F>(task: AsyncTask<R>, world: W, fire: F, after: W) -> bool where
    F: FnOnce(W, &CancelToken, Reason) -> W,
 {
    if task.is_detached() {
        after == world
    } else {
        fire.ensures((world, &task.token(), Reason::Cancelled), after)
    }
}

/// Dropping an async task cancels its job, and dropping a detached one does not: a
/// token that had not fired has then fired for a cancel, one that had fired keeps
/// its reason, and a detached task leaves the token as it was.
///
/// This holds in any world, of which `cell` says what the task's token holds.
pub proof fn drop_cancels_unless_detached<W, H, R, F>(
    task: AsyncTask<R>,
    world: W,
    cell: spec_fn(W) -> TokenCell<H>,
    fire: F,
    after: W,
) where F: FnOnce(W, &CancelToken, Reason) -> W
    requires
        releases(task, world, fire, after),
        forall|w: W, r: Reason, w1: W| #[trigger]
            fire.ensures((w, &task.token(), r), w1) ==> cell(w1) == cell(w).stepped(
                TokenOp::Fire(r),
            ).0,
    ensures
        task.is_detached() ==> after == world,
        !task.is_detached() ==> cell(after).cancelled && cell(after).reason == first_reason(
            cell(world).reason,
            Reason::Cancelled,
        ),
{
}

} // verus!

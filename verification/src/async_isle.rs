//! Async handle and driver of an isle.
//!
//! - [`AsyncIsle`] submits jobs to the SQLite thread.
//! - [`AsyncIsleDriver`] owns the thread's lifecycle and shuts it down:
//!   [`shutdown`](AsyncIsleDriver::shutdown) drains and joins,
//!   [`shutdown_now`](AsyncIsleDriver::shutdown_now) aborts.
//!
//! What is awaited is awaited by the caller; a [`CallStep`] or a
//! [`ShutdownScript`] tells it what to do next.
use vstd::prelude::*;

use crate::async_task::AsyncTask;
use crate::error::IsleError;
use crate::handle::{
    after_deadline, deadline_met, default_settings, is_join_result, join_result, makes, open_plan,
    Admission, Launch, OpenTarget, Settings, Waited, DEFAULT_CHANNEL_CAPACITY,
};
use crate::token::{CancelToken, Reason};
use crate::worker::Request;

verus! {

/// Builder for [`AsyncIsle`] with configurable parameters.
pub struct AsyncIsleBuilder {
    channel_capacity: usize,
    thread_name: String,
    busy_timeout: Option<std::time::Duration>,
    open_flags: Option<rusqlite::OpenFlags>,
}

impl View for AsyncIsleBuilder {
    type V = Settings;

    closed spec fn view(&self) -> Settings {
        Settings {
            channel_capacity: self.channel_capacity,
            thread_name: self.thread_name@,
            busy_timeout: self.busy_timeout,
            open_flags: self.open_flags,
        }
    }
}

impl Default for AsyncIsleBuilder {
    fn default() -> (builder: AsyncIsleBuilder)
        ensures
            builder@ == default_settings("rusqlite-isle-async"@),
    {
        AsyncIsleBuilder {
            channel_capacity: DEFAULT_CHANNEL_CAPACITY,
            thread_name: "rusqlite-isle-async".to_owned(),
            busy_timeout: None,
            open_flags: None,
        }
    }
}

impl AsyncIsleBuilder {
    /// Sets the bounded channel capacity (backpressure limit).
    ///
    /// When the channel is full, [`AsyncIsle::try_call`] and
    /// [`AsyncIsle::spawn_call`] report [`IsleError::QueueFull`]; a call awaits
    /// capacity instead.
    pub fn channel_capacity(self, capacity: usize) -> (builder: AsyncIsleBuilder)
        ensures
            builder@ == (Settings { channel_capacity: capacity, ..self@ }),
    {
        AsyncIsleBuilder { channel_capacity: capacity, ..self }
    }

    /// Sets the OS thread name.
    pub fn thread_name(self, name: &str) -> (builder: AsyncIsleBuilder)
        ensures
            builder@ == (Settings { thread_name: name@, ..self@ }),
    {
        AsyncIsleBuilder { thread_name: name.to_owned(), ..self }
    }

    /// Sets the busy timeout of the connection.
    ///
    /// Lock contention that exceeds this budget surfaces as
    /// [`IsleError::Sqlite`], distinct from the per-call
    /// [`IsleError::Timeout`].
    pub fn busy_timeout(self, timeout: std::time::Duration) -> (builder: AsyncIsleBuilder)
        ensures
            builder@ == (Settings { busy_timeout: Some(timeout), ..self@ }),
    {
        AsyncIsleBuilder { busy_timeout: Some(timeout), ..self }
    }

    /// Opens the database with explicit flags.
    ///
    /// The flags apply to [`spawn`](Self::spawn) and are ignored by
    /// [`open_in_memory`](Self::open_in_memory).
    pub fn open_flags(self, flags: rusqlite::OpenFlags) -> (builder: AsyncIsleBuilder)
        ensures
            builder@ == (Settings { open_flags: Some(flags), ..self@ }),
    {
        AsyncIsleBuilder { open_flags: Some(flags), ..self }
    }

    /// The launch of an isle that opens a database file with these settings.
    ///
    /// A bounded async channel has room for at least one request, and for at
    /// most an eighth of what a `usize` can count.
    pub fn spawn(self, path: std::path::PathBuf) -> (launch: Launch)
        requires
            0 < self@.channel_capacity <= usize::MAX / 8,
        ensures
            launch.follows(self@, OpenTarget::Path(path)),
    {
        self.launch(OpenTarget::Path(path))
    }

    /// The launch of an isle that opens an in-memory database with these
    /// settings, whose channel capacity is bounded as for [`spawn`](Self::spawn).
    pub fn open_in_memory(self) -> (launch: Launch)
        requires
            0 < self@.channel_capacity <= usize::MAX / 8,
        ensures
            launch.follows(self@, OpenTarget::InMemory),
    {
        self.launch(OpenTarget::InMemory)
    }

    fn launch(self, target: OpenTarget) -> (launch: Launch)
        ensures
            launch.follows(self@, target),
    {
        Launch {
            channel_capacity: self.channel_capacity,
            thread_name: self.thread_name,
            busy_timeout: self.busy_timeout,
            open: open_plan(target, self.open_flags),
        }
    }
}

/// A job was made and offered in `world` without waiting for capacity; `after`
/// and `result`, its task, are what came of it.
pub open spec fn offers<W, J, P, R, C, M, S>(
    world: W,
    channel: C,
    make: M,
    try_send: S,
    after: W,
    result: Result<AsyncTask<R>, IsleError>,
) -> bool where
    C: FnOnce() -> (P, R),
    M: FnOnce(CancelToken, P) -> J,
    S: FnOnce(W, Request<J>) -> (W, Admission),
 {
    exists|job: J, rx: R, token: CancelToken, admission: Admission| #[trigger]
        makes(channel, make, job, rx, token) && #[trigger] try_send.ensures(
            (world, Request::Job(job)),
            (after, admission),
        ) && match admission.as_result() {
            Ok(_) => {
                &&& result matches Ok(task)
                &&& task.receiver() == rx
                &&& task.token() == token
                &&& !task.is_detached()
            },
            Err(e) => result == Err::<AsyncTask<R>, IsleError>(e),
        }
}

/// A job was made and offered in `world` without waiting for capacity, and `task`
/// is what its caller got: the job's own task, or one that is not detached and
/// whose reply is already the error.
pub open spec fn offers_task<W, J, P, R, C, M, S, X>(
    world: W,
    channel: C,
    make: M,
    try_send: S,
    failed: X,
    after: W,
    task: AsyncTask<R>,
) -> bool where
    C: FnOnce() -> (P, R),
    M: FnOnce(CancelToken, P) -> J,
    S: FnOnce(W, Request<J>) -> (W, Admission),
    X: FnOnce(IsleError) -> R,
 {
    exists|offered: Result<AsyncTask<R>, IsleError>| #[trigger]
        offers(world, channel, make, try_send, after, offered) && match offered {
            Ok(own) => task == own,
            Err(e) => {
                &&& failed.ensures((e,), task.receiver())
                &&& task.token().began_unfired()
                &&& !task.is_detached()
            },
        }
}

/// What an awaited call does next.
pub enum CallStep<T> {
    /// Await the reply.
    Await,
    /// Return this result.
    Return(Result<T, IsleError>),
}

/// Async handle to a thread-isolated SQLite connection: how jobs are submitted to
/// it.
#[derive(Debug, Clone, Copy)]
pub struct AsyncIsle;

impl AsyncIsle {
    /// Creates a builder for configuring the async isle.
    pub fn builder() -> (builder: AsyncIsleBuilder)
        ensures
            builder@ == default_settings("rusqlite-isle-async"@),
    {
        AsyncIsleBuilder::default()
    }

    /// The launch of an isle that opens a database file (default settings).
    pub fn spawn(path: std::path::PathBuf) -> (launch: Launch)
        ensures
            launch.follows(default_settings("rusqlite-isle-async"@), OpenTarget::Path(path)),
    {
        AsyncIsleBuilder::default().spawn(path)
    }

    /// The launch of an isle that opens an in-memory database (default
    /// settings).
    pub fn open_in_memory() -> (launch: Launch)
        ensures
            launch.follows(default_settings("rusqlite-isle-async"@), OpenTarget::InMemory),
    {
        AsyncIsleBuilder::default().open_in_memory()
    }

    /// Makes a job and the task that awaits it.
    ///
    /// `channel` makes the two ends of the reply channel and `make` the job,
    /// which replies through the sending end and obeys the token. The token is
    /// new, and it is the task's own.
    pub fn make_job_task<J, P, R, C, M>(channel: C, make: M) -> (out: (J, AsyncTask<R>)) where
        C: FnOnce() -> (P, R),
        M: FnOnce(CancelToken, P) -> J,

        requires
            channel.requires(()),
            forall|t: CancelToken, p: P| #[trigger] make.requires((t, p)),
        ensures
            makes(channel, make, out.0, out.1.receiver(), out.1.token()),
            !out.1.is_detached(),
    {
        let token = CancelToken::new();
        let (p, rx) = channel();
        let job = make(token.clone(), p);
        (job, AsyncTask::new(rx, token))
    }

    /// What a call does once its job was sent, having awaited capacity: `sent`
    /// says whether the SQLite thread was still there to receive it.
    pub fn call<T>(sent: bool) -> (step: CallStep<T>)
        ensures
            step == if sent {
                CallStep::Await
            } else {
                CallStep::Return(Err::<T, IsleError>(IsleError::Closed))
            },
    {
        if sent {
            CallStep::Await
        } else {
            CallStep::Return(Err(IsleError::Closed))
        }
    }

    /// What a call with a deadline does after it awaited its reply until the
    /// deadline.
    ///
    /// If the deadline elapsed first, the job is stopped through its token, which
    /// `fire` fires for [`Reason::Timeout`], and the reply, which the job still
    /// delivers, is awaited again.
    pub fn call_timeout<W, R, T, E>(
        world: W,
        task: &AsyncTask<R>,
        waited: Waited<T>,
        fire: E,
    ) -> (out: (W, CallStep<T>)) where E: FnOnce(W, &CancelToken, Reason) -> W
        requires
            forall|w: W, t: &CancelToken, r: Reason| #[trigger] fire.requires((w, t, r)),
        ensures
            match deadline_met(waited) {
                Some(result) => out == (world, CallStep::Return(result)),
                None => out.1 is Await && fire.ensures(
                    (world, &task.token(), Reason::Timeout),
                    out.0,
                ),
            },
    {
        match after_deadline(waited) {
            Some(result) => (world, CallStep::Return(result)),
            None => (fire(world, task.cancel_token(), Reason::Timeout), CallStep::Await),
        }
    }

    /// Submits a job without waiting for queue capacity.
    ///
    /// `channel` and `make` make the job, as in
    /// [`make_job_task`](Self::make_job_task).
    ///
    /// # Errors
    ///
    /// [`IsleError::QueueFull`] when the bounded channel is full,
    /// [`IsleError::Closed`] when the isle has shut down.
    pub fn try_call<W, J, P, R, C, M, S>(world: W, channel: C, make: M, try_send: S) -> (out: (
        W,
        Result<AsyncTask<R>, IsleError>,
    )) where
        C: FnOnce() -> (P, R),
        M: FnOnce(CancelToken, P) -> J,
        S: FnOnce(W, Request<J>) -> (W, Admission),

        requires
            channel.requires(()),
            forall|t: CancelToken, p: P| #[trigger] make.requires((t, p)),
            forall|w: W, r: Request<J>| #[trigger] try_send.requires((w, r)),
        ensures
            offers(world, channel, make, try_send, out.0, out.1),
    {
        let (job, task) = Self::make_job_task(channel, make);
        let (after, admission) = try_send(world, Request::Job(job));
        match admission.result() {
            Ok(_) => (after, Ok(task)),
            Err(e) => (after, Err(e)),
        }
    }

    /// Submits a job without waiting and returns a cancellable task.
    ///
    /// When the job cannot be queued, the task resolves immediately to the
    /// error: `failed` makes a receiver that already holds it.
    pub fn spawn_call<W, J, P, R, C, M, S, X>(
        world: W,
        channel: C,
        make: M,
        try_send: S,
        failed: X,
    ) -> (out: (W, AsyncTask<R>)) where
        C: FnOnce() -> (P, R),
        M: FnOnce(CancelToken, P) -> J,
        S: FnOnce(W, Request<J>) -> (W, Admission),
        X: FnOnce(IsleError) -> R,

        requires
            channel.requires(()),
            forall|t: CancelToken, p: P| #[trigger] make.requires((t, p)),
            forall|w: W, r: Request<J>| #[trigger] try_send.requires((w, r)),
            forall|e: IsleError| #[trigger] failed.requires((e,)),
        ensures
            offers_task(world, channel, make, try_send, failed, out.0, out.1),
    {
        let (after, offered) = Self::try_call(world, channel, make, try_send);
        match offered {
            Ok(task) => (after, task),
            Err(e) => (after, make_error_task(e, failed)),
        }
    }
}

/// Creates a task that resolves to an error immediately.
fn make_error_task<R, M>(err: IsleError, failed: M) -> (task: AsyncTask<R>) where
    M: FnOnce(IsleError) -> R,

    requires
        failed.requires((err,)),
    ensures
        failed.ensures((err,), task.receiver()),
        task.token().began_unfired(),
        !task.is_detached(),
{
    AsyncTask::new(failed(err), CancelToken::new())
}

/// One thing to do while an isle is shut down.
pub enum ShutdownAction<D, K> {
    /// Set the abort flag: from here on the loop drops jobs, and the statement
    /// that is about to be interrupted reports that the isle is closed.
    SetAbort,
    /// Interrupt the connection.
    Interrupt,
    /// Queue the shutdown request, waiting for capacity.
    SendShutdown,
    /// Await the thread's completion signal.
    AwaitDone(D),
    /// Join the thread, which has ended.
    Join(K),
}

/// How far a shutdown has come.
#[derive(Debug, Clone, Copy, PartialEq, Eq, Structural)]
pub enum Stage {
    /// The abort flag comes next.
    Abort,
    /// The interrupt comes next.
    Interrupt,
    /// The shutdown request comes next.
    Send,
    /// The thread is on its way out.
    Finish,
}

/// What remains to be done to see the thread out.
pub open spec fn finish_script<D, K>(
    done: Option<D>,
    join: Option<K>,
) -> Seq<ShutdownAction<D, K>> {
    let signal = match done {
        Some(d) => seq![ShutdownAction::AwaitDone(d)],
        None => Seq::empty(),
    };
    let joined = match join {
        Some(k) => seq![ShutdownAction::Join(k)],
        None => Seq::empty(),
    };
    signal + joined
}

/// What remains to be done from `stage` on.
pub open spec fn shutdown_script<D, K>(
    stage: Stage,
    done: Option<D>,
    join: Option<K>,
) -> Seq<ShutdownAction<D, K>> {
    let finish = finish_script(done, join);
    match stage {
        Stage::Abort => seq![
            ShutdownAction::SetAbort,
            ShutdownAction::Interrupt,
            ShutdownAction::SendShutdown,
        ] + finish,
        Stage::Interrupt => seq![ShutdownAction::Interrupt, ShutdownAction::SendShutdown]
            + finish,
        Stage::Send => seq![ShutdownAction::SendShutdown] + finish,
        Stage::Finish => finish,
    }
}

/// The steps of a shutdown, one after the other.
pub struct ShutdownScript<D, K> {
    stage: Stage,
    done: Option<D>,
    join: Option<K>,
}

impl<D, K> ShutdownScript<D, K> {
    /// What remains to be done.
    pub closed spec fn remaining(self) -> Seq<ShutdownAction<D, K>> {
        shutdown_script(self.stage, self.done, self.join)
    }

    /// The next thing to do, until nothing is left.
    pub fn next(&mut self) -> (action: Option<ShutdownAction<D, K>>)
        ensures
            match action {
                Some(a) => old(self).remaining() == seq![a] + final(self).remaining(),
                None => old(self).remaining().len() == 0 && final(self).remaining().len() == 0,
            },
    {
        match self.stage {
            Stage::Abort => {
                self.stage = Stage::Interrupt;
                Some(ShutdownAction::SetAbort)
            },
            Stage::Interrupt => {
                self.stage = Stage::Send;
                Some(ShutdownAction::Interrupt)
            },
            Stage::Send => {
                self.stage = Stage::Finish;
                Some(ShutdownAction::SendShutdown)
            },
            Stage::Finish => {
                if let Some(d) = self.done.take() {
                    return Some(ShutdownAction::AwaitDone(d));
                }
                if let Some(k) = self.join.take() {
                    return Some(ShutdownAction::Join(k));
                }
                None
            },
        }
    }
}

/// Lifecycle driver of the SQLite thread: the thread's completion signal `D` and
/// the thread itself, `K`.
///
/// Dropping the driver does **not** stop the thread.
pub struct AsyncIsleDriver<D, K> {
    done: Option<D>,
    join: Option<K>,
}

impl<D, K> AsyncIsleDriver<D, K> {
    /// The completion signal, until it is taken.
    pub closed spec fn signal(self) -> Option<D> {
        self.done
    }

    /// The thread, until it is taken.
    pub closed spec fn thread(self) -> Option<K> {
        self.join
    }

    /// The driver of `thread`, which signals its end through `signal`.
    pub fn new(signal: D, thread: K) -> (driver: AsyncIsleDriver<D, K>)
        ensures
            driver.signal() == Some(signal),
            driver.thread() == Some(thread),
    {
        AsyncIsleDriver { done: Some(signal), join: Some(thread) }
    }

    /// Graceful shutdown: drain the queued jobs, stop the thread, join it.
    ///
    /// The shutdown request queues behind the jobs already submitted, so those
    /// run to completion first.
    pub fn shutdown(self) -> (script: ShutdownScript<D, K>)
        ensures
            script.remaining() == shutdown_script(Stage::Send, self.signal(), self.thread()),
    {
        ShutdownScript { stage: Stage::Send, done: self.done, join: self.join }
    }

    /// Immediate shutdown: stop the running statement and discard the queued
    /// jobs.
    ///
    /// The abort flag is set before the statement is interrupted, so the
    /// interrupted job already finds it set and reports [`IsleError::Closed`].
    pub fn shutdown_now(self) -> (script: ShutdownScript<D, K>)
        ensures
            script.remaining() == shutdown_script(Stage::Abort, self.signal(), self.thread()),
    {
        ShutdownScript { stage: Stage::Abort, done: self.done, join: self.join }
    }

    /// What a shutdown returns once its script is done: `joined` says whether the
    /// thread that was joined, if any, ended without panicking.
    pub fn outcome(joined: Option<bool>) -> (result: Result<(), IsleError>)
        ensures
            match joined {
                Some(clean) => is_join_result(clean, result),
                None => result is Ok,
            },
    {
        match joined {
            Some(clean) => join_result(clean),
            None => Ok(()),
        }
    }

    /// Whether the SQLite thread is still alive, which `finished` denies once it
    /// has ended.
    pub fn is_alive<F: FnOnce(&K) -> bool>(&self, finished: F) -> (alive: bool)
        requires
            forall|k: &K| #[trigger] finished.requires((k,)),
        ensures
            match self.thread() {
                None => !alive,
                Some(k) => finished.ensures((&k,), !alive),
            },
    {
        match &self.join {
            None => false,
            Some(k) => !finished(k),
        }
    }
}

/// An immediate shutdown is a graceful one, after the isle was set to abort and
/// its connection interrupted, in that order.
pub proof fn immediate_shutdown_aborts_first<D, K>(done: Option<D>, join: Option<K>)
    ensures
        shutdown_script(Stage::Abort, done, join) == seq![
            ShutdownAction::SetAbort,
            ShutdownAction::Interrupt,
        ] + shutdown_script(Stage::Send, done, join),
{
    assert(shutdown_script(Stage::Abort, done, join) =~= seq![
        ShutdownAction::SetAbort,
        ShutdownAction::Interrupt,
    ] + shutdown_script(Stage::Send, done, join));
}

/// A driver that has its thread ends its shutdown by joining it, after the
/// shutdown request was sent and the thread's completion signal awaited.
pub proof fn shutdown_joins_last<D, K>(done: D, join: K)
    ensures
        shutdown_script(Stage::Send, Some(done), Some(join)) == seq![
            ShutdownAction::SendShutdown,
            ShutdownAction::AwaitDone(done),
            ShutdownAction::Join(join),
        ],
{
    assert(shutdown_script(Stage::Send, Some(done), Some(join)) =~= seq![
        ShutdownAction::SendShutdown,
        ShutdownAction::AwaitDone(done),
        ShutdownAction::Join(join),
    ]);
}

} // verus!

//! The synchronous handle of an isle: how it is configured, launched, used and
//! shut down.
//!
//! What touches threads, channels or the database is supplied by the caller as
//! functions on a world `W` that is handed from one to the next. A function that
//! submits a job also makes it, with a token of its own.
use vstd::prelude::*;

use crate::error::IsleError;
use crate::task::{receives, resolve, resolved, Task};
use crate::token::{CancelToken, Reason};
use crate::worker::Request;

verus! {

/// [`std::path::PathBuf`], carried through to the open call.
#[verifier::external_type_specification]
#[verifier::external_body]
pub struct ExPathBuf(std::path::PathBuf);

/// [`rusqlite::OpenFlags`], carried through to the open call.
#[verifier::external_type_specification]
#[verifier::external_body]
pub struct ExOpenFlags(rusqlite::OpenFlags);

/// Default capacity of the bounded request channel.
pub const DEFAULT_CHANNEL_CAPACITY: usize = 256;

/// What to open on the SQLite thread.
pub enum OpenTarget {
    /// A database file.
    Path(std::path::PathBuf),
    /// An in-memory database.
    InMemory,
}

/// How a database is opened.
pub enum OpenPlan {
    /// A file, with explicit flags.
    WithFlags(std::path::PathBuf, rusqlite::OpenFlags),
    /// A file, with the default flags.
    Default(std::path::PathBuf),
    /// In memory.
    InMemory,
}

/// How `target` is opened when the builder was given `flags`: the flags apply
/// to files only.
pub open spec fn open_plan_of(
    target: OpenTarget,
    flags: Option<rusqlite::OpenFlags>,
) -> OpenPlan {
    match target {
        OpenTarget::Path(path) => match flags {
            Some(flags) => OpenPlan::WithFlags(path, flags),
            None => OpenPlan::Default(path),
        },
        OpenTarget::InMemory => OpenPlan::InMemory,
    }
}

/// How `target` is opened.
pub fn open_plan(target: OpenTarget, flags: Option<rusqlite::OpenFlags>) -> (plan: OpenPlan)
    ensures
        plan == open_plan_of(target, flags),
{
    match target {
        OpenTarget::Path(path) => match flags {
            Some(flags) => OpenPlan::WithFlags(path, flags),
            None => OpenPlan::Default(path),
        },
        OpenTarget::InMemory => OpenPlan::InMemory,
    }
}

/// What a builder has been told.
pub struct Settings {
    /// The capacity of the request channel.
    pub channel_capacity: usize,
    /// The name of the SQLite thread.
    pub thread_name: Seq<char>,
    /// The busy timeout set after opening, if any.
    pub busy_timeout: Option<std::time::Duration>,
    /// The flags that files are opened with, if any.
    pub open_flags: Option<rusqlite::OpenFlags>,
}

/// Everything needed to start the SQLite thread.
pub struct Launch {
    /// The capacity of the request channel.
    pub channel_capacity: usize,
    /// The name of the SQLite thread.
    pub thread_name: String,
    /// The busy timeout to set after opening, if any.
    pub busy_timeout: Option<std::time::Duration>,
    /// How the database is opened.
    pub open: OpenPlan,
}

impl Launch {
    /// This launch opens `target` as `settings` say.
    pub open spec fn follows(self, settings: Settings, target: OpenTarget) -> bool {
        &&& self.channel_capacity == settings.channel_capacity
        &&& self.thread_name@ == settings.thread_name
        &&& self.busy_timeout == settings.busy_timeout
        &&& self.open == open_plan_of(target, settings.open_flags)
    }
}

/// Builder for [`Isle`] with configurable parameters.
pub struct IsleBuilder {
    channel_capacity: usize,
    thread_name: String,
    busy_timeout: Option<std::time::Duration>,
    open_flags: Option<rusqlite::OpenFlags>,
}

impl View for IsleBuilder {
    type V = Settings;

    closed spec fn view(&self) -> Settings {
        Settings {
            channel_capacity: self.channel_capacity,
            thread_name: self.thread_name@,
            busy_timeout: self.busy_timeout,
            open_flags: self.open_flags,
        }
    }
}

/// The settings that a builder starts from, with the thread named `name`.
pub open spec fn default_settings(name: Seq<char>) -> Settings {
    Settings {
        channel_capacity: DEFAULT_CHANNEL_CAPACITY,
        thread_name: name,
        busy_timeout: None,
        open_flags: None,
    }
}

impl Default for IsleBuilder {
    fn default() -> (builder: IsleBuilder)
        ensures
            builder@ == default_settings("rusqlite-isle"@),
    {
        IsleBuilder {
            channel_capacity: DEFAULT_CHANNEL_CAPACITY,
            thread_name: "rusqlite-isle".to_owned(),
            busy_timeout: None,
            open_flags: None,
        }
    }
}

impl IsleBuilder {
    /// Sets the bounded channel capacity (backpressure limit).
    ///
    /// When the channel is full, [`Isle::try_call`] reports
    /// [`IsleError::QueueFull`]; blocking submissions wait for capacity.
    pub fn channel_capacity(self, capacity: usize) -> (builder: IsleBuilder)
        ensures
            builder@ == (Settings { channel_capacity: capacity, ..self@ }),
    {
        IsleBuilder { channel_capacity: capacity, ..self }
    }

    /// Sets the OS thread name.
    pub fn thread_name(self, name: &str) -> (builder: IsleBuilder)
        ensures
            builder@ == (Settings { thread_name: name@, ..self@ }),
    {
        IsleBuilder { thread_name: name.to_owned(), ..self }
    }

    /// Sets the busy timeout of the connection.
    ///
    /// Lock contention that exceeds this budget surfaces as
    /// [`IsleError::Sqlite`], distinct from the per-call
    /// [`IsleError::Timeout`].
    pub fn busy_timeout(self, timeout: std::time::Duration) -> (builder: IsleBuilder)
        ensures
            builder@ == (Settings { busy_timeout: Some(timeout), ..self@ }),
    {
        IsleBuilder { busy_timeout: Some(timeout), ..self }
    }

    /// Opens the database with explicit flags.
    ///
    /// The flags apply to [`spawn`](Self::spawn) and are ignored by
    /// [`open_in_memory`](Self::open_in_memory).
    pub fn open_flags(self, flags: rusqlite::OpenFlags) -> (builder: IsleBuilder)
        ensures
            builder@ == (Settings { open_flags: Some(flags), ..self@ }),
    {
        IsleBuilder { open_flags: Some(flags), ..self }
    }

    fn launch(self, target: OpenTarget) -> (launch: Launch)
        ensures
            launch.follows(self@, target),
    {
        Launch {
            channel_capacity: self.channel_capacity,
            thread_name: self.thread_name,
            busy_timeout: self.busy_timeout,
            open: open_plan(target, self.open_flags),
        }
    }
}

/// The connection that `opened` is ready to serve jobs, or starting it up failed
/// with an error.
///
/// The busy timeout, if any, is set before `init` runs, and `init` runs only if
/// it could be set.
pub open spec fn starts_up<C, B, I>(
    opened: Result<C, rusqlite::Error>,
    busy_timeout: Option<std::time::Duration>,
    set_busy_timeout: B,
    init: I,
    result: Result<C, IsleError>,
) -> bool where
    B: FnOnce(C, std::time::Duration) -> (C, Result<(), rusqlite::Error>),
    I: FnOnce(C) -> (C, Result<(), rusqlite::Error>),
 {
    match opened {
        Err(e) => result == Err::<C, IsleError>(IsleError::Sqlite(e)),
        Ok(conn) => match busy_timeout {
            None => initializes(conn, init, result),
            Some(t) => exists|c1: C, set: Result<(), rusqlite::Error>| #[trigger]
                set_busy_timeout.ensures((conn, t), (c1, set)) && match set {
                    Err(e) => result == Err::<C, IsleError>(IsleError::Sqlite(e)),
                    Ok(_) => initializes(c1, init, result),
                },
        },
    }
}

/// `init` ran on `conn` and left `result`.
pub open spec fn initializes<C, I>(conn: C, init: I, result: Result<C, IsleError>) -> bool where
    I: FnOnce(C) -> (C, Result<(), rusqlite::Error>),
 {
    exists|after: C, done: Result<(), rusqlite::Error>| #[trigger]
        init.ensures((conn,), (after, done)) && match done {
            Err(e) => result == Err::<C, IsleError>(IsleError::Sqlite(e)),
            Ok(_) => result == Ok::<C, IsleError>(after),
        }
}

/// Opens the connection on the SQLite thread and gets it ready for jobs.
///
/// # Errors
///
/// [`IsleError::Sqlite`] if opening, setting the busy timeout or `init` fails.
pub fn start_up<C, O, B, I>(
    plan: OpenPlan,
    busy_timeout: Option<std::time::Duration>,
    open: O,
    set_busy_timeout: B,
    init: I,
) -> (result: Result<C, IsleError>) where
    O: FnOnce(OpenPlan) -> Result<C, rusqlite::Error>,
    B: FnOnce(C, std::time::Duration) -> (C, Result<(), rusqlite::Error>),
    I: FnOnce(C) -> (C, Result<(), rusqlite::Error>),

    requires
        open.requires((plan,)),
        forall|c: C, t: std::time::Duration| #[trigger] set_busy_timeout.requires((c, t)),
        forall|c: C| #[trigger] init.requires((c,)),
    ensures
        exists|opened: Result<C, rusqlite::Error>| #[trigger]
            open.ensures((plan,), opened) && starts_up(
                opened,
                busy_timeout,
                set_busy_timeout,
                init,
                result,
            ),
{
    let opened = open(plan);
    match opened {
        Err(e) => Err(IsleError::Sqlite(e)),
        Ok(conn) => {
            let ready = match busy_timeout {
                None => conn,
                Some(t) => {
                    let (c1, set) = set_busy_timeout(conn, t);
                    match set {
                        Err(e) => {
                            return Err(IsleError::Sqlite(e));
                        },
                        Ok(_) => c1,
                    }
                },
            };
            let (after, done) = init(ready);
            match done {
                Err(e) => Err(IsleError::Sqlite(e)),
                Ok(_) => Ok(after),
            }
        },
    }
}

/// The SQLite thread lived in `world` and left `after`.
///
/// It was started first. If that failed, the error was reported, and nothing else
/// was done. Otherwise what `describe` says of the connection was reported, and
/// only then were jobs served on it.
pub open spec fn lives<W, C, H, S, G, R, V>(
    world: W,
    start: S,
    describe: G,
    report: R,
    serve: V,
    after: W,
) -> bool where
    S: FnOnce(W) -> (W, Result<C, IsleError>),
    G: FnOnce(&C) -> H,
    R: FnOnce(W, Result<H, IsleError>) -> W,
    V: FnOnce(W, C) -> W,
 {
    exists|w1: W, started: Result<C, IsleError>| #[trigger]
        start.ensures((world,), (w1, started)) && match started {
            Err(e) => report.ensures((w1, Err(e)), after),
            Ok(conn) => exists|ready: H, w2: W| #[trigger]
                describe.ensures((&conn,), ready) && #[trigger] report.ensures(
                    (w1, Ok(ready)),
                    w2,
                ) && serve.ensures((w2, conn), after),
        }
}

/// What the SQLite thread does, from its start to its end.
///
/// `start` gets the connection ready, as [`start_up`] does, `report` tells the
/// caller that waits for the isle how that went, and `serve` is the job loop. No
/// job is served before the connection is ready, and none at all if that fails.
pub fn isle_thread<W, C, H, S, G, R, V>(
    world: W,
    start: S,
    describe: G,
    report: R,
    serve: V,
) -> (after: W) where
    S: FnOnce(W) -> (W, Result<C, IsleError>),
    G: FnOnce(&C) -> H,
    R: FnOnce(W, Result<H, IsleError>) -> W,
    V: FnOnce(W, C) -> W,

    requires
        forall|w: W| #[trigger] start.requires((w,)),
        forall|c: &C| #[trigger] describe.requires((c,)),
        forall|w: W, ready: Result<H, IsleError>| #[trigger] report.requires((w, ready)),
        forall|w: W, c: C| #[trigger] serve.requires((w, c)),
    ensures
        lives(world, start, describe, report, serve, after),
{
    let (w1, started) = start(world);
    match started {
        Err(e) => report(w1, Err(e)),
        Ok(conn) => {
            let ready = describe(&conn);
            let w2 = report(w1, Ok(ready));
            serve(w2, conn)
        },
    }
}

/// An isle was started in `world`; `result` and `after` are what came of it.
///
/// A thread that reports an error, or goes away without reporting, is joined.
pub open spec fn launches<W, K, H, S, R, J>(
    world: W,
    launch: Launch,
    spawn: S,
    report: R,
    join: J,
    after: W,
    result: Result<(Isle<K>, H), IsleError>,
) -> bool where
    S: FnOnce(W, Launch) -> (W, Option<K>),
    R: FnOnce(W) -> (W, Option<Result<H, IsleError>>),
    J: FnOnce(W, K) -> W,
 {
    exists|w1: W, thread: Option<K>| #[trigger]
        spawn.ensures((world, launch), (w1, thread)) && match thread {
            None => after == w1 && result == Err::<(Isle<K>, H), IsleError>(IsleError::Closed),
            Some(k) => exists|
                w2: W,
                reported: Option<Result<H, IsleError>>,
                settled: Result<(K, H), IsleError>,
            | #[trigger]
                report.ensures((w1,), (w2, reported)) && #[trigger] settles_launch(
                    w2,
                    k,
                    reported,
                    join,
                    after,
                    settled,
                ) && match settled {
                    Ok(started) => {
                        &&& result matches Ok(isle)
                        &&& isle.0.thread() == Some(started.0)
                        &&& isle.1 == started.1
                    },
                    Err(e) => result == Err::<(Isle<K>, H), IsleError>(e),
                },
        }
}

/// The launch of the thread `thread` was settled in `world` by its report, where
/// `None` says that it went away without one: a thread that is not ready is
/// joined.
pub open spec fn settles_launch<W, K, H, J>(
    world: W,
    thread: K,
    reported: Option<Result<H, IsleError>>,
    join: J,
    after: W,
    result: Result<(K, H), IsleError>,
) -> bool where J: FnOnce(W, K) -> W {
    match resolved(reported) {
        Ok(ready) => after == world && result == Ok::<(K, H), IsleError>((thread, ready)),
        Err(e) => result == Err::<(K, H), IsleError>(e) && join.ensures((world, thread), after),
    }
}

/// Settles the launch of a thread by its report.
///
/// # Errors
///
/// [`IsleError::Closed`] if the thread went away before it reported, and
/// otherwise the error that it reported. The thread has then been joined.
pub fn settle_launch<W, K, H, J>(
    world: W,
    thread: K,
    reported: Option<Result<H, IsleError>>,
    join: J,
) -> (out: (W, Result<(K, H), IsleError>)) where J: FnOnce(W, K) -> W
    requires
        forall|w: W, k: K| #[trigger] join.requires((w, k)),
    ensures
        settles_launch(world, thread, reported, join, out.0, out.1),
{
    match resolve(reported) {
        Ok(ready) => (world, Ok((thread, ready))),
        Err(e) => {
            let after = join(world, thread);
            (after, Err(e))
        },
    }
}

/// The thread that was started, where `None` says that the system refused.
///
/// # Errors
///
/// [`IsleError::Closed`] if there is none.
pub fn started_thread<K>(thread: Option<K>) -> (result: Result<K, IsleError>)
    ensures
        result == match thread {
            Some(k) => Ok::<K, IsleError>(k),
            None => Err(IsleError::Closed),
        },
{
    match thread {
        Some(k) => Ok(k),
        None => Err(IsleError::Closed),
    }
}

/// Starts the SQLite thread and waits for it to report that it is ready.
///
/// # Errors
///
/// [`IsleError::Closed`] if the thread cannot be started or goes away before it
/// reports, and otherwise the error that it reports.
fn spawn_inner<W, K, H, S, R, J>(world: W, launch: Launch, spawn: S, report: R, join: J) -> (out: (
    W,
    Result<(Isle<K>, H), IsleError>,
)) where
    S: FnOnce(W, Launch) -> (W, Option<K>),
    R: FnOnce(W) -> (W, Option<Result<H, IsleError>>),
    J: FnOnce(W, K) -> W,

    requires
        forall|w: W, l: Launch| #[trigger] spawn.requires((w, l)),
        forall|w: W| #[trigger] report.requires((w,)),
        forall|w: W, k: K| #[trigger] join.requires((w, k)),
    ensures
        launches(world, launch, spawn, report, join, out.0, out.1),
{
    let (w1, thread) = spawn(world, launch);
    match started_thread(thread) {
        Err(e) => (w1, Err(e)),
        Ok(k) => {
            let (w2, reported) = report(w1);
            let (w3, settled) = settle_launch(w2, k, reported, join);
            match settled {
                Ok((k, ready)) => (w3, Ok((Isle::new(k), ready))),
                Err(e) => (w3, Err(e)),
            }
        },
    }
}

impl IsleBuilder {
    /// Opens a database file on a dedicated thread with these settings.
    ///
    /// `spawn` starts the thread (`None` if the system refuses), `report` waits
    /// for its report (`None` if it goes away without one), and `join` waits
    /// for it to end. Returns the thread and what it reported.
    ///
    /// # Errors
    ///
    /// [`IsleError::Closed`] if the thread cannot be started or goes away before
    /// it reports, and otherwise the error that it reports.
    pub fn spawn<W, K, H, S, R, J>(
        self,
        world: W,
        path: std::path::PathBuf,
        spawn: S,
        report: R,
        join: J,
    ) -> (out: (W, Result<(Isle<K>, H), IsleError>)) where
        S: FnOnce(W, Launch) -> (W, Option<K>),
        R: FnOnce(W) -> (W, Option<Result<H, IsleError>>),
        J: FnOnce(W, K) -> W,

        requires
            forall|w: W, l: Launch| #[trigger] spawn.requires((w, l)),
            forall|w: W| #[trigger] report.requires((w,)),
            forall|w: W, k: K| #[trigger] join.requires((w, k)),
        ensures
            exists|launch: Launch| #[trigger]
                launch.follows(self@, OpenTarget::Path(path)) && launches(
                    world,
                    launch,
                    spawn,
                    report,
                    join,
                    out.0,
                    out.1,
                ),
    {
        spawn_inner(world, self.launch(OpenTarget::Path(path)), spawn, report, join)
    }

    /// Opens an in-memory database on a dedicated thread with these settings.
    ///
    /// See [`spawn`](Self::spawn).
    pub fn open_in_memory<W, K, H, S, R, J>(self, world: W, spawn: S, report: R, join: J) -> (out: (
        W,
        Result<(Isle<K>, H), IsleError>,
    )) where
        S: FnOnce(W, Launch) -> (W, Option<K>),
        R: FnOnce(W) -> (W, Option<Result<H, IsleError>>),
        J: FnOnce(W, K) -> W,

        requires
            forall|w: W, l: Launch| #[trigger] spawn.requires((w, l)),
            forall|w: W| #[trigger] report.requires((w,)),
            forall|w: W, k: K| #[trigger] join.requires((w, k)),
        ensures
            exists|launch: Launch| #[trigger]
                launch.follows(self@, OpenTarget::InMemory) && launches(
                    world,
                    launch,
                    spawn,
                    report,
                    join,
                    out.0,
                    out.1,
                ),
    {
        spawn_inner(world, self.launch(OpenTarget::InMemory), spawn, report, join)
    }
}

/// What became of a request that was offered to the bounded channel without
/// waiting.
#[derive(Debug, Clone, Copy, PartialEq, Eq, Structural)]
pub enum Admission {
    /// It is queued.
    Accepted,
    /// The channel was full.
    Full,
    /// The SQLite thread is gone.
    Disconnected,
}

impl Admission {
    /// What the submitter is told.
    pub open spec fn as_result(self) -> Result<(), IsleError> {
        match self {
            Admission::Accepted => Ok(()),
            Admission::Full => Err(IsleError::QueueFull),
            Admission::Disconnected => Err(IsleError::Closed),
        }
    }

    /// What the submitter is told.
    pub fn result(self) -> (result: Result<(), IsleError>)
        ensures
            result == self.as_result(),
    {
        match self {
            Admission::Accepted => Ok(()),
            Admission::Full => Err(IsleError::QueueFull),
            Admission::Disconnected => Err(IsleError::Closed),
        }
    }
}

/// What the first wait for a reply gave.
pub enum Waited<T> {
    /// The reply.
    Reply(Result<T, IsleError>),
    /// The deadline elapsed first.
    Elapsed,
    /// The SQLite thread is gone.
    Disconnected,
}

/// What a call with a deadline does after its first wait: `Some` is its result,
/// and `None` says that its token expires and the reply is waited for again.
pub open spec fn deadline_met<T>(waited: Waited<T>) -> Option<Result<T, IsleError>> {
    match waited {
        Waited::Reply(result) => Some(result),
        Waited::Elapsed => None,
        Waited::Disconnected => Some(Err(IsleError::Closed)),
    }
}

/// What a call with a deadline does after its first wait.
pub fn after_deadline<T>(waited: Waited<T>) -> (result: Option<Result<T, IsleError>>)
    ensures
        result == deadline_met(waited),
{
    match waited {
        Waited::Reply(result) => Some(result),
        Waited::Elapsed => None,
        Waited::Disconnected => Some(Err(IsleError::Closed)),
    }
}

/// `job` was made to reply through `rx` and to obey `token`, which was
/// made unfired.
pub open spec fn makes<J, P, R, C, M>(
    channel: C,
    make: M,
    job: J,
    rx: R,
    token: CancelToken,
) -> bool where C: FnOnce() -> (P, R), M: FnOnce(CancelToken, P) -> J {
    &&& token.began_unfired()
    &&& exists|p: P| #[trigger] channel.ensures((), (p, rx)) && make.ensures((token, p), job)
}

/// A job was made and queued in `world`, waiting for capacity; `after` and
/// `result`, its task, are what came of it.
pub open spec fn queues<W, J, P, R, C, M, S>(
    world: W,
    channel: C,
    make: M,
    send: S,
    after: W,
    result: Result<Task<R>, IsleError>,
) -> bool where
    C: FnOnce() -> (P, R),
    M: FnOnce(CancelToken, P) -> J,
    S: FnOnce(W, Request<J>) -> (W, bool),
 {
    exists|job: J, rx: R, token: CancelToken, sent: bool| #[trigger]
        makes(channel, make, job, rx, token) && #[trigger] send.ensures(
            (world, Request::Job(job)),
            (after, sent),
        ) && if sent {
            result matches Ok(task) && task.receiver() == rx && task.token() == token
        } else {
            result == Err::<Task<R>, IsleError>(IsleError::Closed)
        }
}

/// A job was made and offered in `world` without waiting for capacity; `after`
/// and `result`, its task, are what came of it.
pub open spec fn offers<W, J, P, R, C, M, S>(
    world: W,
    channel: C,
    make: M,
    try_send: S,
    after: W,
    result: Result<Task<R>, IsleError>,
) -> bool where
    C: FnOnce() -> (P, R),
    M: FnOnce(CancelToken, P) -> J,
    S: FnOnce(W, Request<J>) -> (W, Admission),
 {
    exists|job: J, rx: R, token: CancelToken, admission: Admission| #[trigger]
        makes(channel, make, job, rx, token) && #[trigger] try_send.ensures(
            (world, Request::Job(job)),
            (after, admission),
        ) && match admission.as_result() {
            Ok(_) => result matches Ok(task) && task.receiver() == rx && task.token() == token,
            Err(e) => result == Err::<Task<R>, IsleError>(e),
        }
}

/// A job was called in `world`: it was queued, and its reply waited for.
pub open spec fn calls<W, J, P, R, T, C, M, S, V>(
    world: W,
    channel: C,
    make: M,
    send: S,
    recv: V,
    after: W,
    result: Result<T, IsleError>,
) -> bool where
    C: FnOnce() -> (P, R),
    M: FnOnce(CancelToken, P) -> J,
    S: FnOnce(W, Request<J>) -> (W, bool),
    V: FnOnce(W, R) -> (W, Option<Result<T, IsleError>>),
 {
    exists|w1: W, queued: Result<Task<R>, IsleError>| #[trigger]
        queues(world, channel, make, send, w1, queued) && match queued {
            Err(e) => after == w1 && result == Err::<T, IsleError>(e),
            Ok(task) => receives(w1, task.receiver(), recv, after, result),
        }
}

/// A job was called in `world` with a deadline: it was queued, and its reply
/// waited for. If the deadline elapsed first, its token expired and the reply,
/// which it still delivers, was waited for again.
pub open spec fn calls_until<W, J, P, R, T, C, M, S, D, E, V>(
    world: W,
    channel: C,
    make: M,
    send: S,
    recv_timeout: D,
    fire: E,
    recv: V,
    after: W,
    result: Result<T, IsleError>,
) -> bool where
    C: FnOnce() -> (P, R),
    M: FnOnce(CancelToken, P) -> J,
    S: FnOnce(W, Request<J>) -> (W, bool),
    D: FnOnce(W, &R) -> (W, Waited<T>),
    E: FnOnce(W, &CancelToken, Reason) -> W,
    V: FnOnce(W, R) -> (W, Option<Result<T, IsleError>>),
 {
    exists|w1: W, queued: Result<Task<R>, IsleError>| #[trigger]
        queues(world, channel, make, send, w1, queued) && match queued {
            Err(e) => after == w1 && result == Err::<T, IsleError>(e),
            Ok(task) => exists|w2: W, waited: Waited<T>| #[trigger]
                recv_timeout.ensures((w1, &task.receiver()), (w2, waited)) && match deadline_met(
                    waited,
                ) {
                    Some(met) => after == w2 && result == met,
                    None => exists|w3: W| #[trigger]
                        fire.ensures((w2, &task.token(), Reason::Timeout), w3) && receives(
                            w3,
                            task.receiver(),
                            recv,
                            after,
                            result,
                        ),
                },
        }
}

/// What is said of a thread that was joined: whether it ended without
/// panicking.
pub open spec fn is_join_result(clean: bool, result: Result<(), IsleError>) -> bool {
    if clean {
        result is Ok
    } else {
        result matches Err(IsleError::Panicked(message)) && message@ == "sqlite thread panicked"@
    }
}

/// What is said of a thread that was joined.
pub fn join_result(clean: bool) -> (result: Result<(), IsleError>)
    ensures
        is_join_result(clean, result),
{
    if clean {
        Ok(())
    } else {
        Err(IsleError::Panicked("sqlite thread panicked".to_owned()))
    }
}

/// An isle was shut down in `world`: the shutdown request was queued behind the
/// jobs already submitted, then the thread was taken and joined, unless an
/// earlier shutdown took it.
pub open spec fn shuts_down<W, J, K, S, X, Y>(
    world: W,
    send: S,
    take_thread: X,
    join: Y,
    after: W,
    result: Result<(), IsleError>,
) -> bool where
    S: FnOnce(W, Request<J>) -> (W, bool),
    X: FnOnce(W) -> (W, Result<Option<K>, String>),
    Y: FnOnce(W, K) -> (W, bool),
 {
    exists|w1: W, w2: W, sent: bool, taken: Result<Option<K>, String>| #[trigger]
        send.ensures((world, Request::Shutdown), (w1, sent)) && #[trigger] take_thread.ensures(
            (w1,),
            (w2, taken),
        ) && match taken {
            Err(message) => after == w2 && result == Err::<(), IsleError>(
                IsleError::Panicked(message),
            ),
            Ok(None) => after == w2 && result is Ok,
            Ok(Some(k)) => exists|clean: bool| #[trigger]
                join.ensures((w2, k), (after, clean)) && is_join_result(clean, result),
        }
}

/// Handle to a thread-isolated SQLite connection (sync API), whose thread is
/// joined through a `K`.
///
/// 1. [`spawn`](Self::spawn) or [`open_in_memory`](Self::open_in_memory) opens
///    the connection on a dedicated thread.
/// 2. [`call`](Self::call), [`call_timeout`](Self::call_timeout),
///    [`try_call`](Self::try_call) and [`spawn_call`](Self::spawn_call) run
///    jobs against it.
/// 3. [`shutdown`](Self::shutdown) drains the queued jobs, stops the thread and
///    joins it.
pub struct Isle<K> {
    join: Option<K>,
}

impl<K> Isle<K> {
    /// The SQLite thread, until it is taken to be joined.
    pub closed spec fn thread(self) -> Option<K> {
        self.join
    }

    /// The handle of the SQLite thread `thread`.
    pub fn new(thread: K) -> (isle: Isle<K>)
        ensures
            isle.thread() == Some(thread),
    {
        Isle { join: Some(thread) }
    }

    /// Creates a builder for configuring the isle.
    pub fn builder() -> (builder: IsleBuilder)
        ensures
            builder@ == default_settings("rusqlite-isle"@),
    {
        IsleBuilder::default()
    }

    /// Opens a database file on a dedicated thread (default settings).
    ///
    /// See [`IsleBuilder::spawn`].
    pub fn spawn<W, H, S, R, J>(
        world: W,
        path: std::path::PathBuf,
        spawn: S,
        report: R,
        join: J,
    ) -> (out: (W, Result<(Isle<K>, H), IsleError>)) where
        S: FnOnce(W, Launch) -> (W, Option<K>),
        R: FnOnce(W) -> (W, Option<Result<H, IsleError>>),
        J: FnOnce(W, K) -> W,

        requires
            forall|w: W, l: Launch| #[trigger] spawn.requires((w, l)),
            forall|w: W| #[trigger] report.requires((w,)),
            forall|w: W, k: K| #[trigger] join.requires((w, k)),
        ensures
            exists|launch: Launch| #[trigger]
                launch.follows(default_settings("rusqlite-isle"@), OpenTarget::Path(path))
                    && launches(world, launch, spawn, report, join, out.0, out.1),
    {
        IsleBuilder::default().spawn(world, path, spawn, report, join)
    }

    /// Opens an in-memory database on a dedicated thread (default settings).
    ///
    /// See [`IsleBuilder::open_in_memory`].
    pub fn open_in_memory<W, H, S, R, J>(world: W, spawn: S, report: R, join: J) -> (out: (
        W,
        Result<(Isle<K>, H), IsleError>,
    )) where
        S: FnOnce(W, Launch) -> (W, Option<K>),
        R: FnOnce(W) -> (W, Option<Result<H, IsleError>>),
        J: FnOnce(W, K) -> W,

        requires
            forall|w: W, l: Launch| #[trigger] spawn.requires((w, l)),
            forall|w: W| #[trigger] report.requires((w,)),
            forall|w: W, k: K| #[trigger] join.requires((w, k)),
        ensures
            exists|launch: Launch| #[trigger]
                launch.follows(default_settings("rusqlite-isle"@), OpenTarget::InMemory)
                    && launches(world, launch, spawn, report, join, out.0, out.1),
    {
        IsleBuilder::default().open_in_memory(world, spawn, report, join)
    }

    /// Makes a job and the task that waits for it.
    ///
    /// `channel` makes the two ends of the reply channel and `make` the job,
    /// which replies through the sending end and obeys the token. The token is
    /// new, and it is the task's own.
    pub fn make_job_task<J, P, R, C, M>(channel: C, make: M) -> (out: (J, Task<R>, CancelToken)) where
        C: FnOnce() -> (P, R),
        M: FnOnce(CancelToken, P) -> J,

        requires
            channel.requires(()),
            forall|t: CancelToken, p: P| #[trigger] make.requires((t, p)),
        ensures
            makes(channel, make, out.0, out.1.receiver(), out.1.token()),
            out.1.token() == out.2,
    {
        let token = CancelToken::new();
        let (p, rx) = channel();
        let job = make(token.clone(), p);
        (job, Task::new(rx, token.clone()), token)
    }

    fn submit_blocking<W, J, P, R, C, M, S>(world: W, channel: C, make: M, send: S) -> (out: (
        W,
        Result<Task<R>, IsleError>,
    )) where
        C: FnOnce() -> (P, R),
        M: FnOnce(CancelToken, P) -> J,
        S: FnOnce(W, Request<J>) -> (W, bool),

        requires
            channel.requires(()),
            forall|t: CancelToken, p: P| #[trigger] make.requires((t, p)),
            forall|w: W, r: Request<J>| #[trigger] send.requires((w, r)),
        ensures
            queues(world, channel, make, send, out.0, out.1),
    {
        let (job, task, _token) = Self::make_job_task(channel, make);
        let (after, sent) = send(world, Request::Job(job));
        if sent {
            (after, Ok(task))
        } else {
            (after, Err(IsleError::Closed))
        }
    }

    /// Runs a job against the connection and waits for its result.
    ///
    /// `channel` and `make` make the job, as in
    /// [`make_job_task`](Self::make_job_task). `send` queues a request, waiting
    /// for capacity, and says whether the SQLite thread is still there to
    /// receive it; `recv` waits for the reply.
    pub fn call<W, J, P, R, T, C, M, S, V>(
        world: W,
        channel: C,
        make: M,
        send: S,
        recv: V,
    ) -> (out: (W, Result<T, IsleError>)) where
        C: FnOnce() -> (P, R),
        M: FnOnce(CancelToken, P) -> J,
        S: FnOnce(W, Request<J>) -> (W, bool),
        V: FnOnce(W, R) -> (W, Option<Result<T, IsleError>>),

        requires
            channel.requires(()),
            forall|t: CancelToken, p: P| #[trigger] make.requires((t, p)),
            forall|w: W, r: Request<J>| #[trigger] send.requires((w, r)),
            forall|w: W, rx: R| #[trigger] recv.requires((w, rx)),
        ensures
            calls(world, channel, make, send, recv, out.0, out.1),
    {
        let (w1, queued) = Self::submit_blocking(world, channel, make, send);
        match queued {
            Err(e) => (w1, Err(e)),
            Ok(task) => task.wait(w1, recv),
        }
    }

    /// Runs a job with a per-call deadline.
    ///
    /// If the deadline elapses before the job completes, the job is stopped
    /// through its token, which `fire` fires for [`Reason::Timeout`], and the
    /// call returns what the job then reports.
    pub fn call_timeout<W, J, P, R, T, C, M, S, D, E, V>(
        world: W,
        channel: C,
        make: M,
        send: S,
        recv_timeout: D,
        fire: E,
        recv: V,
    ) -> (out: (W, Result<T, IsleError>)) where
        C: FnOnce() -> (P, R),
        M: FnOnce(CancelToken, P) -> J,
        S: FnOnce(W, Request<J>) -> (W, bool),
        D: FnOnce(W, &R) -> (W, Waited<T>),
        E: FnOnce(W, &CancelToken, Reason) -> W,
        V: FnOnce(W, R) -> (W, Option<Result<T, IsleError>>),

        requires
            channel.requires(()),
            forall|t: CancelToken, p: P| #[trigger] make.requires((t, p)),
            forall|w: W, r: Request<J>| #[trigger] send.requires((w, r)),
            forall|w: W, rx: &R| #[trigger] recv_timeout.requires((w, rx)),
            forall|w: W, t: &CancelToken, r: Reason| #[trigger] fire.requires((w, t, r)),
            forall|w: W, rx: R| #[trigger] recv.requires((w, rx)),
        ensures
            calls_until(world, channel, make, send, recv_timeout, fire, recv, out.0, out.1),
    {
        let (w1, queued) = Self::submit_blocking(world, channel, make, send);
        match queued {
            Err(e) => (w1, Err(e)),
            Ok(task) => {
                let (w2, waited) = recv_timeout(w1, task.rx_ref());
                match after_deadline(waited) {
                    Some(result) => (w2, result),
                    None => {
                        let w3 = fire(w2, task.cancel_token(), Reason::Timeout);
                        task.wait(w3, recv)
                    },
                }
            },
        }
    }

    /// Submits a job without waiting for queue capacity.
    ///
    /// # Errors
    ///
    /// [`IsleError::QueueFull`] when the bounded channel is full,
    /// [`IsleError::Closed`] when the isle has shut down.
    pub fn try_call<W, J, P, R, C, M, S>(world: W, channel: C, make: M, try_send: S) -> (out: (
        W,
        Result<Task<R>, IsleError>,
    )) where
        C: FnOnce() -> (P, R),
        M: FnOnce(CancelToken, P) -> J,
        S: FnOnce(W, Request<J>) -> (W, Admission),

        requires
            channel.requires(()),
            forall|t: CancelToken, p: P| #[trigger] make.requires((t, p)),
            forall|w: W, r: Request<J>| #[trigger] try_send.requires((w, r)),
        ensures
            offers(world, channel, make, try_send, out.0, out.1),
    {
        let (job, task, _token) = Self::make_job_task(channel, make);
        let (after, admission) = try_send(world, Request::Job(job));
        match admission.result() {
            Ok(_) => (after, Ok(task)),
            Err(e) => (after, Err(e)),
        }
    }

    /// Submits a job and returns its cancellable task.
    ///
    /// Waits for queue capacity as [`call`](Self::call) does.
    pub fn spawn_call<W, J, P, R, C, M, S>(world: W, channel: C, make: M, send: S) -> (out: (
        W,
        Result<Task<R>, IsleError>,
    )) where
        C: FnOnce() -> (P, R),
        M: FnOnce(CancelToken, P) -> J,
        S: FnOnce(W, Request<J>) -> (W, bool),

        requires
            channel.requires(()),
            forall|t: CancelToken, p: P| #[trigger] make.requires((t, p)),
            forall|w: W, r: Request<J>| #[trigger] send.requires((w, r)),
        ensures
            queues(world, channel, make, send, out.0, out.1),
    {
        Self::submit_blocking(world, channel, make, send)
    }

    /// Graceful shutdown: drains the queued jobs, stops the thread, joins it.
    ///
    /// `take_thread` is [`take_thread`](Self::take_thread) under the handle's
    /// lock (`Err` if that lock is poisoned), `join` says whether the thread
    /// ended without panicking.
    pub fn shutdown<W, J, S, X, Y>(world: W, send: S, take_thread: X, join: Y) -> (out: (
        W,
        Result<(), IsleError>,
    )) where
        S: FnOnce(W, Request<J>) -> (W, bool),
        X: FnOnce(W) -> (W, Result<Option<K>, String>),
        Y: FnOnce(W, K) -> (W, bool),

        requires
            forall|w: W, r: Request<J>| #[trigger] send.requires((w, r)),
            forall|w: W| #[trigger] take_thread.requires((w,)),
            forall|w: W, k: K| #[trigger] join.requires((w, k)),
        ensures
            shuts_down(world, send, take_thread, join, out.0, out.1),
    {
        let (w1, _sent) = send(world, Request::Shutdown);
        let (w2, taken) = take_thread(w1);
        match taken {
            Err(message) => (w2, Err(IsleError::Panicked(message))),
            Ok(None) => (w2, Ok(())),
            Ok(Some(k)) => {
                let (w3, clean) = join(w2, k);
                (w3, join_result(clean))
            },
        }
    }

    /// Takes the thread to join it. A second call finds none.
    pub fn take_thread(&mut self) -> (thread: Option<K>)
        ensures
            thread == old(self).thread(),
            final(self).thread() is None,
    {
        self.join.take()
    }

    /// Whether the SQLite thread is still alive: it has not been taken to be
    /// joined, and `finished` denies that it has ended.
    pub fn is_alive<F: FnOnce(&K) -> bool>(&self, finished: F) -> (alive: bool)
        requires
            forall|k: &K| #[trigger] finished.requires((k,)),
        ensures
            match self.thread() {
                None => !alive,
                Some(k) => finished.ensures((&k,), !alive),
            },
    {
        match &self.join {
            None => false,
            Some(k) => !finished(k),
        }
    }
}

/// Open flags are ignored in memory.
pub proof fn open_flags_apply_to_files_only(
    flags: Option<rusqlite::OpenFlags>,
    other: Option<rusqlite::OpenFlags>,
)
    ensures
        open_plan_of(OpenTarget::InMemory, flags) == open_plan_of(OpenTarget::InMemory, other),
{
}

/// `init` runs before any job: the connection that jobs are served on is one that
/// `init` ran on and succeeded. If opening, the busy timeout or `init` fails, that
/// error is reported, and no job is served.
pub proof fn init_runs_before_any_job<W, C, H, S, G, R, V, B, I>(
    world: W,
    start: S,
    describe: G,
    report: R,
    serve: V,
    after: W,
    busy_timeout: Option<std::time::Duration>,
    set_busy_timeout: B,
    init: I,
) where
    S: FnOnce(W) -> (W, Result<C, IsleError>),
    G: FnOnce(&C) -> H,
    R: FnOnce(W, Result<H, IsleError>) -> W,
    V: FnOnce(W, C) -> W,
    B: FnOnce(C, std::time::Duration) -> (C, Result<(), rusqlite::Error>),
    I: FnOnce(C) -> (C, Result<(), rusqlite::Error>),

    requires
        lives(world, start, describe, report, serve, after),
        forall|w: W, w1: W, started: Result<C, IsleError>| #[trigger]
            start.ensures((w,), (w1, started)) ==> exists|opened: Result<C, rusqlite::Error>|
                #[trigger] starts_up(opened, busy_timeout, set_busy_timeout, init, started),
    ensures
        ({
            ||| exists|w1: W, e: rusqlite::Error| #[trigger]
                start.ensures((world,), (w1, Err(IsleError::Sqlite(e)))) && report.ensures(
                    (w1, Err(IsleError::Sqlite(e))),
                    after,
                )
            ||| exists|fresh: C, conn: C, w1: W, w2: W| #[trigger]
                start.ensures((world,), (w1, Ok(conn))) && #[trigger] initializes(
                    fresh,
                    init,
                    Ok(conn),
                ) && #[trigger] serve.ensures((w2, conn), after)
        }),
{
    let (w1, started) = choose|w1: W, started: Result<C, IsleError>| #[trigger]
        start.ensures((world,), (w1, started)) && match started {
            Err(e) => report.ensures((w1, Err(e)), after),
            Ok(conn) => exists|ready: H, w2: W| #[trigger]
                describe.ensures((&conn,), ready) && #[trigger] report.ensures(
                    (w1, Ok(ready)),
                    w2,
                ) && serve.ensures((w2, conn), after),
        };
    let opened = choose|opened: Result<C, rusqlite::Error>| #[trigger]
        starts_up(opened, busy_timeout, set_busy_timeout, init, started);
    match started {
        Err(e) => {
            assert(start.ensures((world,), (w1, Err(IsleError::Sqlite(e->Sqlite_0)))));
        },
        Ok(conn) => {
            assert(exists|fresh: C| #[trigger] initializes(fresh, init, Ok(conn)));
        },
    }
}

/// Only a submission that does not wait reports backpressure: a job that is
/// queued with waiting is queued, or the isle is closed.
pub proof fn waiting_submission_is_never_full<W, J, P, R, C, M, S>(
    world: W,
    channel: C,
    make: M,
    send: S,
    after: W,
    result: Result<Task<R>, IsleError>,
) where
    C: FnOnce() -> (P, R),
    M: FnOnce(CancelToken, P) -> J,
    S: FnOnce(W, Request<J>) -> (W, bool),

    requires
        queues(world, channel, make, send, after, result),
    ensures
        result is Ok || result == Err::<Task<R>, IsleError>(IsleError::Closed),
{
}

/// Shutdown is idempotent: once the thread has been taken, a further shutdown
/// joins nothing and succeeds.
pub proof fn second_shutdown_is_a_no_op<W, J, K, S, X, Y>(
    world: W,
    send: S,
    take_thread: X,
    join: Y,
    after: W,
    result: Result<(), IsleError>,
) where
    S: FnOnce(W, Request<J>) -> (W, bool),
    X: FnOnce(W) -> (W, Result<Option<K>, String>),
    Y: FnOnce(W, K) -> (W, bool),

    requires
        shuts_down(world, send, take_thread, join, after, result),
        forall|w: W, w1: W, taken: Result<Option<K>, String>| #[trigger]
            take_thread.ensures((w,), (w1, taken)) ==> taken == Ok::<Option<K>, String>(None),
    ensures
        result is Ok,
        exists|w1: W, sent: bool| #[trigger]
            send.ensures((world, Request::Shutdown), (w1, sent)) && take_thread.ensures(
                (w1,),
                (after, Ok(None)),
            ),
{
}

/// A closed isle answers every submission with [`IsleError::Closed`]: where the
/// SQLite thread is gone, neither a call, nor a call with a deadline, nor a
/// submission that does not wait reports anything else.
pub proof fn closed_isle_refuses_every_submission<W, J, P, R, T, C, M, S, O, D, E, V>(
    world: W,
    channel: C,
    make: M,
    send: S,
    try_send: O,
    recv_timeout: D,
    fire: E,
    recv: V,
    after: W,
    called: Result<T, IsleError>,
    offered: Result<Task<R>, IsleError>,
) where
    C: FnOnce() -> (P, R),
    M: FnOnce(CancelToken, P) -> J,
    S: FnOnce(W, Request<J>) -> (W, bool),
    O: FnOnce(W, Request<J>) -> (W, Admission),
    D: FnOnce(W, &R) -> (W, Waited<T>),
    E: FnOnce(W, &CancelToken, Reason) -> W,
    V: FnOnce(W, R) -> (W, Option<Result<T, IsleError>>),

    requires
        forall|w: W, r: Request<J>, w1: W, sent: bool| #[trigger]
            send.ensures((w, r), (w1, sent)) ==> !sent,
        forall|w: W, r: Request<J>, w1: W, admission: Admission| #[trigger]
            try_send.ensures((w, r), (w1, admission)) ==> admission == Admission::Disconnected,
    ensures
        calls(world, channel, make, send, recv, after, called) ==> called == Err::<T, IsleError>(
            IsleError::Closed,
        ),
        calls_until(world, channel, make, send, recv_timeout, fire, recv, after, called)
            ==> called == Err::<T, IsleError>(IsleError::Closed),
        queues(world, channel, make, send, after, offered) ==> offered == Err::<Task<R>, IsleError>(
            IsleError::Closed,
        ),
        offers(world, channel, make, try_send, after, offered) ==> offered == Err::<
            Task<R>,
            IsleError,
        >(IsleError::Closed),
{
}

} // verus!

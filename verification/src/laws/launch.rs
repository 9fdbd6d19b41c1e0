//! How an isle is configured, launched and started.
use vstd::prelude::*;

use crate::async_isle::{AsyncIsle, AsyncIsleBuilder};
use crate::error::IsleError;
use crate::handle::{
    isle_thread, open_plan, settle_launch, start_up, started_thread, Isle, IsleBuilder, Launch,
    OpenPlan, OpenTarget,
};

verus! {

/// A file is opened with the flags that were asked for, and with the default flags if
/// none were; an in-memory database is opened in memory, whatever was asked for.
pub proof fn flags_decide_how_a_file_is_opened(
    target: OpenTarget,
    flags: Option<rusqlite::OpenFlags>,
    plan: OpenPlan,
)
    requires
        call_ensures(open_plan, (target, flags), plan),
    ensures
        target matches OpenTarget::Path(path) ==> {
            &&& flags matches Some(f) ==> plan == OpenPlan::WithFlags(path, f)
            &&& flags is None ==> plan == OpenPlan::Default(path)
        },
        target is InMemory ==> plan is InMemory,
{
}

/// Telling an isle builder the capacity of the request channel sets
/// that, to the very value, and nothing else.
pub proof fn isle_channel_capacity_is_set(
    builder: IsleBuilder,
    capacity: usize,
    told: IsleBuilder,
)
    requires
        call_ensures(IsleBuilder::channel_capacity, (builder, capacity), told),
    ensures
        told@.channel_capacity == capacity,
        told@.thread_name == builder@.thread_name,
        told@.busy_timeout == builder@.busy_timeout,
        told@.open_flags == builder@.open_flags,
{
}

/// Telling an isle builder the name of the thread sets
/// that, to the very value, and nothing else.
pub proof fn isle_thread_name_is_set(
    builder: IsleBuilder,
    name: &str,
    told: IsleBuilder,
)
    requires
        call_ensures(IsleBuilder::thread_name, (builder, name), told),
    ensures
        told@.thread_name == name@,
        told@.channel_capacity == builder@.channel_capacity,
        told@.busy_timeout == builder@.busy_timeout,
        told@.open_flags == builder@.open_flags,
{
}

/// Telling an isle builder the busy timeout sets
/// that, to the very value, and nothing else.
pub proof fn isle_busy_timeout_is_set(
    builder: IsleBuilder,
    timeout: std::time::Duration,
    told: IsleBuilder,
)
    requires
        call_ensures(IsleBuilder::busy_timeout, (builder, timeout), told),
    ensures
        told@.busy_timeout == Some(timeout),
        told@.channel_capacity == builder@.channel_capacity,
        told@.thread_name == builder@.thread_name,
        told@.open_flags == builder@.open_flags,
{
}

/// Telling an isle builder the open flags sets
/// that, to the very value, and nothing else.
pub proof fn isle_open_flags_is_set(
    builder: IsleBuilder,
    flags: rusqlite::OpenFlags,
    told: IsleBuilder,
)
    requires
        call_ensures(IsleBuilder::open_flags, (builder, flags), told),
    ensures
        told@.open_flags == Some(flags),
        told@.channel_capacity == builder@.channel_capacity,
        told@.thread_name == builder@.thread_name,
        told@.busy_timeout == builder@.busy_timeout,
{
}

/// Telling an async isle builder the capacity of the request channel sets
/// that, to the very value, and nothing else.
pub proof fn async_isle_channel_capacity_is_set(
    builder: AsyncIsleBuilder,
    capacity: usize,
    told: AsyncIsleBuilder,
)
    requires
        call_ensures(AsyncIsleBuilder::channel_capacity, (builder, capacity), told),
    ensures
        told@.channel_capacity == capacity,
        told@.thread_name == builder@.thread_name,
        told@.busy_timeout == builder@.busy_timeout,
        told@.open_flags == builder@.open_flags,
{
}

/// Telling an async isle builder the name of the thread sets
/// that, to the very value, and nothing else.
pub proof fn async_isle_thread_name_is_set(
    builder: AsyncIsleBuilder,
    name: &str,
    told: AsyncIsleBuilder,
)
    requires
        call_ensures(AsyncIsleBuilder::thread_name, (builder, name), told),
    ensures
        told@.thread_name == name@,
        told@.channel_capacity == builder@.channel_capacity,
        told@.busy_timeout == builder@.busy_timeout,
        told@.open_flags == builder@.open_flags,
{
}

/// Telling an async isle builder the busy timeout sets
/// that, to the very value, and nothing else.
pub proof fn async_isle_busy_timeout_is_set(
    builder: AsyncIsleBuilder,
    timeout: std::time::Duration,
    told: AsyncIsleBuilder,
)
    requires
        call_ensures(AsyncIsleBuilder::busy_timeout, (builder, timeout), told),
    ensures
        told@.busy_timeout == Some(timeout),
        told@.channel_capacity == builder@.channel_capacity,
        told@.thread_name == builder@.thread_name,
        told@.open_flags == builder@.open_flags,
{
}

/// Telling an async isle builder the open flags sets
/// that, to the very value, and nothing else.
pub proof fn async_isle_open_flags_is_set(
    builder: AsyncIsleBuilder,
    flags: rusqlite::OpenFlags,
    told: AsyncIsleBuilder,
)
    requires
        call_ensures(AsyncIsleBuilder::open_flags, (builder, flags), told),
    ensures
        told@.open_flags == Some(flags),
        told@.channel_capacity == builder@.channel_capacity,
        told@.thread_name == builder@.thread_name,
        told@.busy_timeout == builder@.busy_timeout,
{
}

/// A builder that was told nothing has room for 256 requests, a thread name of its own,
/// no busy timeout and no open flags.
pub proof fn builders_start_from_the_defaults<K>(
    builder: IsleBuilder,
    async_builder: AsyncIsleBuilder,
)
    ensures
        call_ensures(Isle::<K>::builder, (), builder) || call_ensures(
            <IsleBuilder as Default>::default,
            (),
            builder,
        ) ==> {
            &&& builder@.channel_capacity == 256
            &&& builder@.thread_name == "rusqlite-isle"@
            &&& builder@.busy_timeout is None
            &&& builder@.open_flags is None
        },
        call_ensures(AsyncIsle::builder, (), async_builder) || call_ensures(
            <AsyncIsleBuilder as Default>::default,
            (),
            async_builder,
        ) ==> {
            &&& async_builder@.channel_capacity == 256
            &&& async_builder@.thread_name == "rusqlite-isle-async"@
            &&& async_builder@.busy_timeout is None
            &&& async_builder@.open_flags is None
        },
{
}

/// An async isle is launched as its builder was told: with that capacity, that thread
/// name and that busy timeout, and a file with those flags if there are any, whatever
/// the other settings are. In memory the flags do not matter.
pub proof fn async_isle_is_launched_as_told(
    builder: AsyncIsleBuilder,
    path: std::path::PathBuf,
    launch: Launch,
)
    ensures
        call_ensures(AsyncIsleBuilder::spawn, (builder, path), launch) ==> {
            &&& launch.channel_capacity == builder@.channel_capacity
            &&& launch.thread_name@ == builder@.thread_name
            &&& launch.busy_timeout == builder@.busy_timeout
            &&& builder@.open_flags matches Some(flags) ==> launch.open == OpenPlan::WithFlags(
                path,
                flags,
            )
            &&& builder@.open_flags is None ==> launch.open == OpenPlan::Default(path)
        },
        call_ensures(AsyncIsleBuilder::open_in_memory, (builder,), launch) ==> {
            &&& launch.channel_capacity == builder@.channel_capacity
            &&& launch.thread_name@ == builder@.thread_name
            &&& launch.busy_timeout == builder@.busy_timeout
            &&& launch.open is InMemory
        },
{
}

/// The flags that an async builder was told last are the ones that a file is opened
/// with: telling it flags and then launching opens the file with those flags, and
/// launches it in everything else as without them.
pub proof fn told_flags_open_the_file(
    builder: AsyncIsleBuilder,
    flags: rusqlite::OpenFlags,
    told: AsyncIsleBuilder,
    path: std::path::PathBuf,
    before: Launch,
    after: Launch,
)
    requires
        call_ensures(AsyncIsleBuilder::open_flags, (builder, flags), told),
        call_ensures(AsyncIsleBuilder::spawn, (builder, path), before),
        call_ensures(AsyncIsleBuilder::spawn, (told, path), after),
    ensures
        after.open == OpenPlan::WithFlags(path, flags),
        after.channel_capacity == before.channel_capacity,
        after.thread_name@ == before.thread_name@,
        after.busy_timeout == before.busy_timeout,
{
}

/// An async isle with default settings has room for 256 requests, a thread name of its
/// own, no busy timeout, and opens a file with the default flags.
pub proof fn default_async_isle(path: std::path::PathBuf, launch: Launch)
    ensures
        call_ensures(AsyncIsle::spawn, (path,), launch) ==> launch.open == OpenPlan::Default(path),
        call_ensures(AsyncIsle::open_in_memory, (), launch) ==> launch.open is InMemory,
        call_ensures(AsyncIsle::spawn, (path,), launch) || call_ensures(
            AsyncIsle::open_in_memory,
            (),
            launch,
        ) ==> {
            &&& launch.channel_capacity == 256
            &&& launch.thread_name@ == "rusqlite-isle-async"@
            &&& launch.busy_timeout is None
        },
{
}

/// The SQLite thread of an isle is started as its builder was told: with that capacity,
/// that thread name and that busy timeout, and a file is opened with those flags if
/// there are any, whatever the other settings are. In memory the flags do not matter.
/// Without a builder the defaults apply.
pub proof fn isle_is_launched_as_told<W, K, H, S, R, J>(
    builder: IsleBuilder,
    world: W,
    path: std::path::PathBuf,
    spawn: S,
    report: R,
    join: J,
    out: (W, Result<(Isle<K>, H), IsleError>),
) where
    S: FnOnce(W, Launch) -> (W, Option<K>),
    R: FnOnce(W) -> (W, Option<Result<H, IsleError>>),
    J: FnOnce(W, K) -> W,

    ensures
        call_ensures(
            IsleBuilder::spawn::<W, K, H, S, R, J>,
            (builder, world, path, spawn, report, join),
            out,
        ) ==> exists|launch: Launch, w1: W, thread: Option<K>| #[trigger]
            spawn.ensures((world, launch), (w1, thread)) && {
                &&& launch.channel_capacity == builder@.channel_capacity
                &&& launch.thread_name@ == builder@.thread_name
                &&& launch.busy_timeout == builder@.busy_timeout
                &&& builder@.open_flags matches Some(flags) ==> launch.open == OpenPlan::WithFlags(
                    path,
                    flags,
                )
                &&& builder@.open_flags is None ==> launch.open == OpenPlan::Default(path)
            },
        call_ensures(
            IsleBuilder::open_in_memory::<W, K, H, S, R, J>,
            (builder, world, spawn, report, join),
            out,
        ) ==> exists|launch: Launch, w1: W, thread: Option<K>| #[trigger]
            spawn.ensures((world, launch), (w1, thread)) && {
                &&& launch.channel_capacity == builder@.channel_capacity
                &&& launch.thread_name@ == builder@.thread_name
                &&& launch.busy_timeout == builder@.busy_timeout
                &&& launch.open is InMemory
            },
        call_ensures(
            Isle::<K>::spawn::<W, H, S, R, J>,
            (world, path, spawn, report, join),
            out,
        ) ==> exists|launch: Launch, w1: W, thread: Option<K>| #[trigger]
            spawn.ensures((world, launch), (w1, thread)) && {
                &&& launch.channel_capacity == 256
                &&& launch.thread_name@ == "rusqlite-isle"@
                &&& launch.busy_timeout is None
                &&& launch.open == OpenPlan::Default(path)
            },
        call_ensures(
            Isle::<K>::open_in_memory::<W, H, S, R, J>,
            (world, spawn, report, join),
            out,
        ) ==> exists|launch: Launch, w1: W, thread: Option<K>| #[trigger]
            spawn.ensures((world, launch), (w1, thread)) && {
                &&& launch.channel_capacity == 256
                &&& launch.thread_name@ == "rusqlite-isle"@
                &&& launch.busy_timeout is None
                &&& launch.open is InMemory
            },
{
}

/// However an isle is opened, it is there if and only if its thread could be started and
/// reported that it is ready: then the thread is its own, what was reported is handed
/// on, and nothing is joined. A thread that reports an error is joined, and that error is
/// the result, whatever it is. A thread that goes away without a report is joined too,
/// and the isle is closed, as it is if there is no thread.
pub proof fn isle_opens_if_its_thread_is_ready<W, K, H, S, R, J>(
    builder: IsleBuilder,
    world: W,
    path: std::path::PathBuf,
    spawn: S,
    report: R,
    join: J,
    out: (W, Result<(Isle<K>, H), IsleError>),
) where
    S: FnOnce(W, Launch) -> (W, Option<K>),
    R: FnOnce(W) -> (W, Option<Result<H, IsleError>>),
    J: FnOnce(W, K) -> W,

    requires
        ({
            ||| call_ensures(
                IsleBuilder::spawn::<W, K, H, S, R, J>,
                (builder, world, path, spawn, report, join),
                out,
            )
            ||| call_ensures(
                IsleBuilder::open_in_memory::<W, K, H, S, R, J>,
                (builder, world, spawn, report, join),
                out,
            )
            ||| call_ensures(
                Isle::<K>::spawn::<W, H, S, R, J>,
                (world, path, spawn, report, join),
                out,
            )
            ||| call_ensures(
                Isle::<K>::open_in_memory::<W, H, S, R, J>,
                (world, spawn, report, join),
                out,
            )
        }),
    ensures
        exists|launch: Launch, w1: W, thread: Option<K>| #[trigger]
            spawn.ensures((world, launch), (w1, thread)) && {
                &&& thread is None ==> out == (
                    w1,
                    Err::<(Isle<K>, H), IsleError>(IsleError::Closed),
                )
                &&& thread matches Some(k) ==> exists|
                    w2: W,
                    reported: Option<Result<H, IsleError>>,
                | #[trigger]
                    report.ensures((w1,), (w2, reported)) && {
                        &&& reported matches Some(Ok(ready)) ==> {
                            &&& out.0 == w2
                            &&& out.1 matches Ok(opened)
                            &&& opened.0.thread() == Some(k)
                            &&& opened.1 == ready
                        }
                        &&& reported matches Some(Err(e)) ==> out.1 == Err::<
                            (Isle<K>, H),
                            IsleError,
                        >(e) && join.ensures((w2, k), out.0)
                        &&& reported is None ==> out.1 == Err::<(Isle<K>, H), IsleError>(
                            IsleError::Closed,
                        ) && join.ensures((w2, k), out.0)
                    }
            },
{
}

/// A launch is settled by the report of its thread: a thread that is ready is handed on
/// with what it reported, and one that is not is joined, with the error that it reported
/// or, without a report, a closed isle.
pub proof fn launch_is_settled_by_the_report<W, K, H, J>(
    world: W,
    thread: K,
    reported: Option<Result<H, IsleError>>,
    join: J,
    out: (W, Result<(K, H), IsleError>),
) where J: FnOnce(W, K) -> W
    requires
        call_ensures(settle_launch::<W, K, H, J>, (world, thread, reported, join), out),
    ensures
        reported matches Some(Ok(ready)) ==> out == (
            world,
            Ok::<(K, H), IsleError>((thread, ready)),
        ),
        reported matches Some(Err(e)) ==> out.1 == Err::<(K, H), IsleError>(e) && join.ensures(
            (world, thread),
            out.0,
        ),
        reported is None ==> out.1 == Err::<(K, H), IsleError>(IsleError::Closed) && join.ensures(
            (world, thread),
            out.0,
        ),
{
}

/// A thread that was started is handed on; without one the isle is closed.
pub proof fn started_thread_is_handed_on<K>(thread: Option<K>, result: Result<K, IsleError>)
    requires
        call_ensures(started_thread::<K>, (thread,), result),
    ensures
        thread matches Some(k) ==> result == Ok::<K, IsleError>(k),
        thread is None ==> result == Err::<K, IsleError>(IsleError::Closed),
{
}

/// A connection is ready if and only if it was opened as planned, its busy timeout was
/// set, if one was asked for, and `init` then ran on it and succeeded. Whatever fails
/// first is reported as it is.
pub proof fn connection_is_ready_after_init<C, O, B, I>(
    plan: OpenPlan,
    busy_timeout: Option<std::time::Duration>,
    open: O,
    set_busy_timeout: B,
    init: I,
    result: Result<C, IsleError>,
) where
    O: FnOnce(OpenPlan) -> Result<C, rusqlite::Error>,
    B: FnOnce(C, std::time::Duration) -> (C, Result<(), rusqlite::Error>),
    I: FnOnce(C) -> (C, Result<(), rusqlite::Error>),

    requires
        call_ensures(
            start_up::<C, O, B, I>,
            (plan, busy_timeout, open, set_busy_timeout, init),
            result,
        ),
    ensures
        exists|opened: Result<C, rusqlite::Error>| #[trigger]
            open.ensures((plan,), opened) && {
                &&& opened matches Err(e) ==> result == Err::<C, IsleError>(IsleError::Sqlite(e))
                &&& opened is Ok && busy_timeout is None ==> exists|
                    after: C,
                    done: Result<(), rusqlite::Error>,
                | #[trigger]
                    init.ensures((opened->Ok_0,), (after, done)) && {
                        &&& done is Ok ==> result == Ok::<C, IsleError>(after)
                        &&& done matches Err(e) ==> result == Err::<C, IsleError>(
                            IsleError::Sqlite(e),
                        )
                    }
                &&& opened is Ok && busy_timeout is Some ==> exists|
                    timed: C,
                    set: Result<(), rusqlite::Error>,
                | #[trigger]
                    set_busy_timeout.ensures(
                        (opened->Ok_0, busy_timeout->Some_0),
                        (timed, set),
                    ) && {
                        &&& set matches Err(e) ==> result == Err::<C, IsleError>(
                            IsleError::Sqlite(e),
                        )
                        &&& set is Ok ==> exists|after: C, done: Result<(), rusqlite::Error>|
                            #[trigger]
                            init.ensures((timed,), (after, done)) && {
                                &&& done is Ok ==> result == Ok::<C, IsleError>(after)
                                &&& done matches Err(e) ==> result == Err::<C, IsleError>(
                                    IsleError::Sqlite(e),
                                )
                            }
                    }
            },
{
}

/// The SQLite thread reports how its start went, once, before it serves: if the start
/// failed, that error, whatever it is, and it serves nothing; otherwise what is said of
/// the connection, which is then the one that is served.
pub proof fn thread_reports_before_it_serves<W, C, H, S, G, R, V>(
    world: W,
    start: S,
    describe: G,
    report: R,
    serve: V,
    after: W,
) where
    S: FnOnce(W) -> (W, Result<C, IsleError>),
    G: FnOnce(&C) -> H,
    R: FnOnce(W, Result<H, IsleError>) -> W,
    V: FnOnce(W, C) -> W,

    requires
        call_ensures(
            isle_thread::<W, C, H, S, G, R, V>,
            (world, start, describe, report, serve),
            after,
        ),
    ensures
        exists|w1: W, started: Result<C, IsleError>| #[trigger]
            start.ensures((world,), (w1, started)) && {
                &&& started matches Err(e) ==> report.ensures((w1, Err::<H, IsleError>(e)), after)
                &&& started matches Ok(conn) ==> exists|ready: H, w2: W| #[trigger]
                    describe.ensures((&conn,), ready) && #[trigger] report.ensures(
                        (w1, Ok::<H, IsleError>(ready)),
                        w2,
                    ) && serve.ensures((w2, conn), after)
            },
{
}

} // verus!

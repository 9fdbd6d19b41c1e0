//! Jobs as the SQLite thread sees them: the order of their steps, what is told of them,
//! and the loop that serves them.
use vstd::prelude::*;
use vstd::string::to_string_from_display_ensures;

use crate::error::{failure_kind_of, IsleError};
use crate::job::{
    make_job, normalize_error, panic_message, run_job, run_on_connection, Caught, Job, JobOutcome,
    PanicPayload,
};
use crate::token::{Attached, CancelToken, Checked, Ready};
use crate::worker::{run_loop, runs, serve_next, serves, Request, Turn};

verus! {

/// An error is an interrupt if and only if its result code is `SQLITE_INTERRUPT`:
/// contention is none.
pub proof fn only_an_interrupt_is_one(e: rusqlite::Error, interrupted: bool)
    requires
        call_ensures(IsleError::is_interrupt, (&e,), interrupted),
    ensures
        failure_kind_of(e) is Interrupted ==> interrupted,
        failure_kind_of(e) is Busy ==> !interrupted,
        failure_kind_of(e) is Other ==> !interrupted,
{
}

/// An SQLite error becomes [`IsleError::Sqlite`] with that very error in it.
pub proof fn sqlite_errors_are_kept(e: rusqlite::Error, err: IsleError)
    requires
        call_ensures(<IsleError as From<rusqlite::Error>>::from, (e,), err),
    ensures
        err == IsleError::Sqlite(e),
{
}

/// The text of an error says which error it is, and what it holds.
pub proof fn errors_read_as_what_they_are(err: IsleError, text: String)
    requires
        call_ensures(IsleError::message, (&err,), text),
    ensures
        err is Cancelled ==> text@ == "cancelled"@,
        err is Timeout ==> text@ == "timeout"@,
        err is Closed ==> text@ == "isle closed"@,
        err is QueueFull ==> text@ == "queue full (backpressure)"@,
        err matches IsleError::Panicked(message) ==> text@ == "job panicked: "@ + message@,
        err matches IsleError::Sqlite(e) ==> exists|inner: String| #[trigger]
            to_string_from_display_ensures(&e, inner) && text@ == "sqlite error: "@ + inner@,
{
}

/// The message of a panic is the text that it was raised with, whatever it is and
/// however it was given.
pub proof fn panic_text_is_kept(payload: PanicPayload, message: String)
    requires
        call_ensures(panic_message, (payload,), message),
    ensures
        payload matches PanicPayload::Literal(text) ==> message@ == text@,
        payload matches PanicPayload::Owned(text) ==> message@ == text@,
        payload is Other ==> message@ == "unknown panic payload"@,
{
}

/// The error of a failed job stays that very error, unless it is an interrupt. An
/// interrupt is folded into what the token holds, whatever the isle does; without
/// that into a closed isle if the isle is aborting; and otherwise stays what it is. The
/// isle is asked only in the last two cases.
pub proof fn only_interrupts_are_folded<W, A>(
    world: W,
    e: rusqlite::Error,
    held: Option<IsleError>,
    aborting: A,
    out: (W, IsleError),
) where A: FnOnce(W) -> (W, bool)
    requires
        call_ensures(normalize_error::<W, A>, (world, e, held, aborting), out),
    ensures
        !(failure_kind_of(e) is Interrupted) ==> out == (world, IsleError::Sqlite(e)),
        failure_kind_of(e) is Interrupted && held is Some ==> out == (world, held->Some_0),
        failure_kind_of(e) is Interrupted && held is None ==> exists|abort: bool| #[trigger]
            aborting.ensures((world,), (out.0, abort)) && {
                &&& abort ==> out.1 is Closed
                &&& !abort ==> out.1 == IsleError::Sqlite(e)
            },
{
}

/// A job whose token was found fired tells that, and does nothing else. Any other job is
/// attached, runs, is detached, and only then tells how it ended, once:
///
/// - a value is told if the token had not fired as it was detached, and otherwise why it
///   had;
/// - an error that is no interrupt is told as it is, and an interrupt as its cause;
/// - a panic is told with its text.
///
/// The job counts as panicked if and only if its closure panicked.
pub proof fn job_does_its_steps_in_order<W, Y, X, T, F, A, R, D, B, S>(
    world: W,
    check: F,
    attach: A,
    run: R,
    detach: D,
    aborting: B,
    respond: S,
    out: (W, JobOutcome),
) where
    F: FnOnce(W) -> Checked<W, Y>,
    A: FnOnce(Y) -> X,
    R: FnOnce(X) -> (X, Caught<T>),
    D: FnOnce(X) -> (W, Option<IsleError>),
    B: FnOnce(W) -> (W, bool),
    S: FnOnce(W, Result<T, IsleError>) -> W,

    requires
        call_ensures(
            run_job::<W, Y, X, T, F, A, R, D, B, S>,
            (world, check, attach, run, detach, aborting, respond),
            out,
        ),
    ensures
        exists|checked: Checked<W, Y>| #[trigger]
            check.ensures((world,), checked) && {
                &&& checked matches Checked::Fired(w1, err) ==> out.1 is Completed
                    && respond.ensures((w1, Err::<T, IsleError>(err)), out.0)
                &&& checked matches Checked::Clear(y) ==> exists|
                    x: X,
                    x1: X,
                    caught: Caught<T>,
                    w1: W,
                    held: Option<IsleError>,
                |
                    attach.ensures((y,), x) && #[trigger] run.ensures((x,), (x1, caught))
                        && #[trigger] detach.ensures((x1,), (w1, held)) && {
                        &&& caught is Panicked <==> out.1 is Panicked
                        &&& caught is Returned && held is None ==> respond.ensures(
                            (w1, Ok::<T, IsleError>(caught->Returned_0)),
                            out.0,
                        )
                        &&& caught is Returned && held is Some ==> respond.ensures(
                            (w1, Err::<T, IsleError>(held->Some_0)),
                            out.0,
                        )
                        &&& caught matches Caught::Failed(e) ==> {
                            &&& !(failure_kind_of(e) is Interrupted) ==> respond.ensures(
                                (w1, Err::<T, IsleError>(IsleError::Sqlite(e))),
                                out.0,
                            )
                            &&& failure_kind_of(e) is Interrupted && held is Some
                                ==> respond.ensures(
                                (w1, Err::<T, IsleError>(held->Some_0)),
                                out.0,
                            )
                            &&& failure_kind_of(e) is Interrupted && held is None ==> exists|
                                w2: W,
                                abort: bool,
                            | #[trigger]
                                aborting.ensures((w1,), (w2, abort)) && {
                                    &&& abort ==> respond.ensures(
                                        (w2, Err::<T, IsleError>(IsleError::Closed)),
                                        out.0,
                                    )
                                    &&& !abort ==> respond.ensures(
                                        (w2, Err::<T, IsleError>(IsleError::Sqlite(e))),
                                        out.0,
                                    )
                                }
                        }
                        &&& caught matches Caught::Panicked(payload) ==> exists|
                            message: String,
                        | #[trigger]
                            respond.ensures(
                                (w1, Err::<T, IsleError>(IsleError::Panicked(message))),
                                out.0,
                            ) && {
                                &&& payload matches PanicPayload::Literal(text) ==> message@
                                    == text@
                                &&& payload matches PanicPayload::Owned(text) ==> message@ == text@
                                &&& payload is Other ==> message@ == "unknown panic payload"@
                            }
                    }
            },
{
}

/// A job that is run on a connection looks at its own token first. If that had fired, it
/// tells so and leaves the connection alone. Otherwise it runs while its connection is
/// attached to that token, and tells how it ended once the connection is detached, as
/// [any job](job_does_its_steps_in_order). A job that was made and then served does the
/// same, with what it was made of.
pub proof fn job_runs_under_its_own_token<T, R, B, S>(
    conn: rusqlite::Connection,
    token: CancelToken,
    run: R,
    aborting: B,
    respond: S,
    job: Job<R, B, S>,
    out: (rusqlite::Connection, JobOutcome),
) where
    R: FnOnce(Attached) -> (Attached, Caught<T>),
    B: FnOnce(rusqlite::Connection) -> (rusqlite::Connection, bool),
    S: FnOnce(rusqlite::Connection, Result<T, IsleError>) -> rusqlite::Connection,

    requires
        ({
            ||| call_ensures(
                run_on_connection::<T, R, B, S>,
                (conn, &token, run, aborting, respond),
                out,
            )
            ||| call_ensures(make_job::<R, B, S>, (run, token, aborting, respond), job)
                && call_ensures(Job::<R, B, S>::serve::<T>, (job, conn), out)
        }),
    ensures
        exists|checked: Checked<rusqlite::Connection, Ready>| #[trigger]
            call_ensures(CancelToken::check, (&token, conn), checked) && {
                &&& checked matches Checked::Fired(same, err) ==> {
                    &&& same == conn
                    &&& out.1 is Completed
                    &&& respond.ensures((conn, Err::<T, IsleError>(err)), out.0)
                }
                &&& checked matches Checked::Clear(ready) ==> exists|
                    a: Attached,
                    a1: Attached,
                    caught: Caught<T>,
                    c1: rusqlite::Connection,
                    held: Option<IsleError>,
                |
                    call_ensures(Ready::start, (ready,), a) && a.connection() == conn && a.of()
                        == token && #[trigger] run.ensures((a,), (a1, caught)) && #[trigger]
                    call_ensures(Attached::end, (a1,), (c1, held)) && c1 == a1.connection()
                        && {
                        &&& caught is Panicked <==> out.1 is Panicked
                        &&& caught is Returned && held is None ==> respond.ensures(
                            (c1, Ok::<T, IsleError>(caught->Returned_0)),
                            out.0,
                        )
                        &&& caught is Returned && held is Some ==> respond.ensures(
                            (c1, Err::<T, IsleError>(held->Some_0)),
                            out.0,
                        )
                        &&& caught matches Caught::Failed(e) ==> {
                            &&& !(failure_kind_of(e) is Interrupted) ==> respond.ensures(
                                (c1, Err::<T, IsleError>(IsleError::Sqlite(e))),
                                out.0,
                            )
                            &&& failure_kind_of(e) is Interrupted && held is Some
                                ==> respond.ensures(
                                (c1, Err::<T, IsleError>(held->Some_0)),
                                out.0,
                            )
                            &&& failure_kind_of(e) is Interrupted && held is None ==> exists|
                                c2: rusqlite::Connection,
                                abort: bool,
                            | #[trigger]
                                aborting.ensures((c1,), (c2, abort)) && {
                                    &&& abort ==> respond.ensures(
                                        (c2, Err::<T, IsleError>(IsleError::Closed)),
                                        out.0,
                                    )
                                    &&& !abort ==> respond.ensures(
                                        (c2, Err::<T, IsleError>(IsleError::Sqlite(e))),
                                        out.0,
                                    )
                                }
                        }
                        &&& caught matches Caught::Panicked(payload) ==> exists|
                            message: String,
                        | #[trigger]
                            respond.ensures(
                                (c1, Err::<T, IsleError>(IsleError::Panicked(message))),
                                out.0,
                            ) && {
                                &&& payload matches PanicPayload::Literal(text) ==> message@
                                    == text@
                                &&& payload matches PanicPayload::Owned(text) ==> message@ == text@
                                &&& payload is Other ==> message@ == "unknown panic payload"@
                            }
                    }
            },
{
}

/// The loop took a turn from `world` to `after`, and goes on after it if `more`.
pub open spec fn takes_a_turn<W, J, N, B, R, X, H>(
    world: W,
    next: N,
    aborting: B,
    run: R,
    discard: X,
    healthy: H,
    after: W,
    more: bool,
) -> bool where
    N: Fn(W) -> (W, Option<Request<J>>),
    B: Fn(W) -> (W, bool),
    R: Fn(W, J) -> (W, JobOutcome),
    X: Fn(W, J) -> W,
    H: Fn(W) -> (W, bool),
 {
    exists|w1: W, request: Option<Request<J>>| #[trigger]
        next.ensures((world,), (w1, request)) && {
            &&& request is None ==> after == w1 && !more
            &&& request == Some(Request::<J>::Shutdown) ==> after == w1 && !more
            &&& request matches Some(Request::Job(job)) ==> exists|w2: W, abort: bool| #[trigger]
                aborting.ensures((w1,), (w2, abort)) && {
                    &&& abort ==> discard.ensures((w2, job), after) && more
                    &&& !abort ==> exists|w3: W, outcome: JobOutcome| #[trigger]
                        run.ensures((w2, job), (w3, outcome)) && {
                            &&& outcome is Completed ==> after == w3 && more
                            &&& outcome is Panicked ==> healthy.ensures((w3,), (after, more))
                        }
                }
        }
}

/// One request is served in one turn of the loop:
///
/// - a channel without senders and a shutdown request end the loop, with nothing done;
/// - a job that arrives while the isle is aborting is dropped, and the loop goes on;
/// - any other job is run, once, and the loop goes on, unless the job panicked and the
///   connection is not healthy.
pub proof fn request_is_served<W, J, N, B, R, X, H>(
    world: W,
    next: N,
    aborting: B,
    run: R,
    discard: X,
    healthy: H,
    out: (W, bool),
) where
    N: Fn(W) -> (W, Option<Request<J>>),
    B: Fn(W) -> (W, bool),
    R: Fn(W, J) -> (W, JobOutcome),
    X: Fn(W, J) -> W,
    H: Fn(W) -> (W, bool),

    requires
        ({
            ||| call_ensures(
                serve_next::<W, J, N, B, R, X, H>,
                (world, &next, &aborting, &run, &discard, &healthy),
                out,
            )
            ||| takes_a_turn(world, next, aborting, run, discard, healthy, out.0, out.1)
        }),
    ensures
        exists|w1: W, request: Option<Request<J>>| #[trigger]
            next.ensures((world,), (w1, request)) && {
                &&& request is None ==> out.0 == w1 && !out.1
                &&& request == Some(Request::<J>::Shutdown) ==> out.0 == w1 && !out.1
                &&& request matches Some(Request::Job(job)) ==> exists|
                    w2: W,
                    abort: bool,
                | #[trigger]
                    aborting.ensures((w1,), (w2, abort)) && {
                        &&& abort ==> discard.ensures((w2, job), out.0) && out.1
                        &&& !abort ==> exists|w3: W, outcome: JobOutcome| #[trigger]
                            run.ensures((w2, job), (w3, outcome)) && {
                                &&& outcome is Completed ==> out.0 == w3 && out.1
                                &&& outcome is Panicked ==> healthy.ensures((w3,), (out.0, out.1))
                            }
                    }
            },
{
}

/// The loop went through `worlds`, one [turn](takes_a_turn) from each to the next, and
/// went on after each or not, as `went_on` says.
pub open spec fn takes_turns<W, J, N, B, R, X, H>(
    worlds: Seq<W>,
    next: N,
    aborting: B,
    run: R,
    discard: X,
    healthy: H,
    went_on: Seq<bool>,
) -> bool where
    N: Fn(W) -> (W, Option<Request<J>>),
    B: Fn(W) -> (W, bool),
    R: Fn(W, J) -> (W, JobOutcome),
    X: Fn(W, J) -> W,
    H: Fn(W) -> (W, bool),
 {
    &&& worlds.len() == went_on.len() + 1
    &&& forall|i: int|
        #![trigger worlds[i]]
        0 <= i < went_on.len() ==> takes_a_turn(
            worlds[i],
            next,
            aborting,
            run,
            discard,
            healthy,
            worlds[i + 1],
            went_on[i],
        )
}

/// The loop takes one turn after the other, of at most `limit`, through `worlds`; in
/// each a request [is served](request_is_served). It goes on after every turn but the
/// last, and ends if and only if it does not go on after that one.
pub proof fn loop_takes_one_turn_after_the_other<W, J, N, B, R, X, H>(
    world: W,
    limit: u64,
    next: N,
    aborting: B,
    run: R,
    discard: X,
    healthy: H,
    out: (W, bool),
) where
    N: Fn(W) -> (W, Option<Request<J>>),
    B: Fn(W) -> (W, bool),
    R: Fn(W, J) -> (W, JobOutcome),
    X: Fn(W, J) -> W,
    H: Fn(W) -> (W, bool),

    requires
        call_ensures(
            run_loop::<W, J, N, B, R, X, H>,
            (world, limit, &next, &aborting, &run, &discard, &healthy),
            out,
        ),
    ensures
        exists|worlds: Seq<W>, went_on: Seq<bool>| #[trigger]
            takes_turns(worlds, next, aborting, run, discard, healthy, went_on) && {
                &&& worlds[0] == world
                &&& worlds.last() == out.0
                &&& out.1 ==> went_on.len() == limit
                &&& !out.1 ==> 0 < went_on.len() <= limit
                &&& forall|i: int|
                    0 <= i < went_on.len() ==> (#[trigger] went_on[i] <==> out.1 || i
                        < went_on.len() - 1)
            },
{
    let (worlds, turns) = choose|worlds: Seq<W>, turns: Seq<Turn<J>>| #[trigger]
        runs(worlds, next, aborting, run, discard, healthy, turns) && worlds[0] == world
            && worlds.last() == out.0 && if out.1 {
            turns.len() == limit && (limit > 0 ==> turns.last().continues())
        } else {
            0 < turns.len() <= limit && !turns.last().continues()
        };
    let went_on = Seq::new(turns.len(), |i: int| turns[i].continues());
    assert forall|i: int|
        #![trigger worlds[i]]
        0 <= i < went_on.len() implies takes_a_turn(
        worlds[i],
        next,
        aborting,
        run,
        discard,
        healthy,
        worlds[i + 1],
        went_on[i],
    ) by {
        assert(serves(
            worlds[i],
            next,
            aborting,
            run,
            discard,
            healthy,
            turns[i],
            worlds[i + 1],
        ));
    }
    assert(takes_turns(worlds, next, aborting, run, discard, healthy, went_on));
    assert forall|i: int| 0 <= i < went_on.len() implies (#[trigger] went_on[i] <==> out.1 || i
        < went_on.len() - 1) by {
        assert(i < turns.len() - 1 ==> turns[i].continues());
    }
}

} // verus!

//! One job: how it is run and what its caller is told.
//!
//! A job is driven through a sequence of effects that its caller supplies as
//! functions on a value `W`, the world that they act on (for an isle: its
//! connection). Each takes the world and hands it on, so a contract can say in
//! which order they ran and with which arguments. The world changes its type as
//! the job goes on: it is a `Y` once the job may start, and an `X` while it is
//! attached to the job's token.
use vstd::prelude::*;

use crate::error::{failure_kind_of, FailureKind, IsleError};
use crate::token::{called_with, error_of, Attached, CancelToken, Checked, Ready, Reason};

verus! {

/// What a panicking job left behind, by the type of its payload.
pub enum PanicPayload {
    /// A string literal.
    Literal(String),
    /// An owned string.
    Owned(String),
    /// A payload of any other type.
    Other,
}

/// How a job closure ended.
pub enum Caught<T> {
    /// It returned a value.
    Returned(T),
    /// It returned an error.
    Failed(rusqlite::Error),
    /// It panicked.
    Panicked(PanicPayload),
}

/// What the worker needs to know after a job.
#[derive(Debug, Clone, Copy, PartialEq, Eq, Structural)]
pub enum JobOutcome {
    /// The job ran to completion (success, error, or skipped before it ran).
    Completed,
    /// The job closure panicked; the connection has to pass a health check
    /// before it serves further jobs.
    Panicked,
}

/// The readable text of a panic payload.
pub open spec fn panic_text(payload: PanicPayload) -> Seq<char> {
    match payload {
        PanicPayload::Literal(s) => s@,
        PanicPayload::Owned(s) => s@,
        PanicPayload::Other => "unknown panic payload"@,
    }
}

/// Extracts a readable message from a panic payload.
pub fn panic_message(payload: PanicPayload) -> (message: String)
    ensures
        message@ == panic_text(payload),
{
    match payload {
        PanicPayload::Literal(s) => s,
        PanicPayload::Owned(s) => s,
        PanicPayload::Other => "unknown panic payload".to_owned(),
    }
}

/// The error that a failed job reports, given what its token maps to and
/// whether the isle is aborting.
///
/// Only `SQLITE_INTERRUPT` is folded back: into the reason that the token
/// holds, else into [`IsleError::Closed`] when the isle is aborting. Every
/// other error, `SQLITE_BUSY` among them, stays [`IsleError::Sqlite`].
pub open spec fn normalized(
    e: rusqlite::Error,
    fired: Option<IsleError>,
    aborting: bool,
) -> IsleError {
    if failure_kind_of(e) != FailureKind::Interrupted {
        IsleError::Sqlite(e)
    } else {
        match fired {
            Some(err) => err,
            None => if aborting {
                IsleError::Closed
            } else {
                IsleError::Sqlite(e)
            },
        }
    }
}

/// What a job that returned `value` reports, given what its token maps to once the
/// job is over: a job that was cancelled, or outlived its deadline, before it
/// completed reports that.
pub open spec fn completed<T>(value: T, fired: Option<IsleError>) -> Result<T, IsleError> {
    match fired {
        Some(err) => Err(err),
        None => Ok(value),
    }
}

/// `err` and `after` are what [`normalize_error`] leaves: the abort flag is asked
/// for only about an interrupt that the token does not account for.
pub open spec fn normalizes<W, A>(
    world: W,
    e: rusqlite::Error,
    held: Option<IsleError>,
    aborting: A,
    after: W,
    err: IsleError,
) -> bool where A: FnOnce(W) -> (W, bool) {
    if failure_kind_of(e) == FailureKind::Interrupted && held is None {
        exists|abort: bool| #[trigger]
            aborting.ensures((world,), (after, abort)) && err == normalized(e, None, abort)
    } else {
        after == world && err == normalized(e, held, false)
    }
}

/// Maps a rusqlite error to an [`IsleError`], folding `SQLITE_INTERRUPT` back
/// into the isle-level reason that triggered it: `held`, what the token maps to,
/// or an abort of the isle.
pub fn normalize_error<W, A>(
    world: W,
    e: rusqlite::Error,
    held: Option<IsleError>,
    aborting: A,
) -> (out: (W, IsleError)) where A: FnOnce(W) -> (W, bool)
    requires
        forall|w: W| #[trigger] aborting.requires((w,)),
    ensures
        normalizes(world, e, held, aborting, out.0, out.1),
{
    if IsleError::is_interrupt(&e) {
        if let Some(err) = held {
            return (world, err);
        }
        let (after, abort) = aborting(world);
        if abort {
            return (after, IsleError::Closed);
        }
        return (after, IsleError::Sqlite(e));
    }
    (world, IsleError::Sqlite(e))
}

/// The job of a closure that ended as `caught` in `world`, with a token that maps
/// to `held` by then, was settled: `after` is the world once its caller was told
/// the result.
pub open spec fn settles<W, T, A, S>(
    world: W,
    caught: Caught<T>,
    held: Option<IsleError>,
    aborting: A,
    respond: S,
    after: W,
    outcome: JobOutcome,
) -> bool where A: FnOnce(W) -> (W, bool), S: FnOnce(W, Result<T, IsleError>) -> W {
    match caught {
        Caught::Returned(value) => outcome == JobOutcome::Completed && respond.ensures(
            (world, completed(value, held)),
            after,
        ),
        Caught::Failed(e) => outcome == JobOutcome::Completed && exists|w1: W, err: IsleError|
            normalizes(world, e, held, aborting, w1, err) && #[trigger] respond.ensures(
                (w1, Err(err)),
                after,
            ),
        Caught::Panicked(payload) => outcome == JobOutcome::Panicked && exists|message: String|
            message@ == panic_text(payload) && #[trigger] respond.ensures(
                (world, Err(IsleError::Panicked(message))),
                after,
            ),
    }
}

/// A closure was run between `attach` and `detach`, from `y` on, and left `after`
/// and `outcome`: its caller was told the result that is settled by what the token
/// mapped to as it was detached.
pub open spec fn runs_attached<W, Y, X, T, A, R, D, B, S>(
    y: Y,
    attach: A,
    run: R,
    detach: D,
    aborting: B,
    respond: S,
    after: W,
    outcome: JobOutcome,
) -> bool where
    A: FnOnce(Y) -> X,
    R: FnOnce(X) -> (X, Caught<T>),
    D: FnOnce(X) -> (W, Option<IsleError>),
    B: FnOnce(W) -> (W, bool),
    S: FnOnce(W, Result<T, IsleError>) -> W,
 {
    exists|x: X, x1: X, caught: Caught<T>, w1: W, held: Option<IsleError>|
        attach.ensures((y,), x) && #[trigger] run.ensures((x,), (x1, caught)) && #[trigger]
        detach.ensures((x1,), (w1, held)) && settles(
            w1,
            caught,
            held,
            aborting,
            respond,
            after,
            outcome,
        )
}

/// The steps of a closure that was run attached: what it was attached as, what it
/// left, how it ended, the world with the connection detached, and what the token
/// mapped to then.
pub(crate) proof fn steps_of<W, Y, X, T, A, R, D, B, S>(
    y: Y,
    attach: A,
    run: R,
    detach: D,
    aborting: B,
    respond: S,
    after: W,
    outcome: JobOutcome,
) -> (steps: (X, X, Caught<T>, W, Option<IsleError>)) where
    A: FnOnce(Y) -> X,
    R: FnOnce(X) -> (X, Caught<T>),
    D: FnOnce(X) -> (W, Option<IsleError>),
    B: FnOnce(W) -> (W, bool),
    S: FnOnce(W, Result<T, IsleError>) -> W,

    requires
        runs_attached(y, attach, run, detach, aborting, respond, after, outcome),
    ensures
        attach.ensures((y,), steps.0),
        run.ensures((steps.0,), (steps.1, steps.2)),
        detach.ensures((steps.1,), (steps.3, steps.4)),
        settles(steps.3, steps.2, steps.4, aborting, respond, after, outcome),
{
    choose|x: X, x1: X, caught: Caught<T>, w1: W, held: Option<IsleError>|
        attach.ensures((y,), x) && #[trigger] run.ensures((x,), (x1, caught)) && #[trigger]
        detach.ensures((x1,), (w1, held)) && settles(
            w1,
            caught,
            held,
            aborting,
            respond,
            after,
            outcome,
        )
}

/// A job whose token was looked at, as `checked` says, went on from there and left
/// `after` and `outcome`.
///
/// A token that had fired is answered with its error, and nothing else is done.
/// Otherwise the closure [runs attached](runs_attached).
pub open spec fn goes_on<W, Y, X, T, A, R, D, B, S>(
    checked: Checked<W, Y>,
    attach: A,
    run: R,
    detach: D,
    aborting: B,
    respond: S,
    after: W,
    outcome: JobOutcome,
) -> bool where
    A: FnOnce(Y) -> X,
    R: FnOnce(X) -> (X, Caught<T>),
    D: FnOnce(X) -> (W, Option<IsleError>),
    B: FnOnce(W) -> (W, bool),
    S: FnOnce(W, Result<T, IsleError>) -> W,
 {
    match checked {
        Checked::Fired(w1, err) => outcome == JobOutcome::Completed && respond.ensures(
            (w1, Err(err)),
            after,
        ),
        Checked::Clear(y) => runs_attached(
            y,
            attach,
            run,
            detach,
            aborting,
            respond,
            after,
            outcome,
        ),
    }
}

/// A job was run in `world`, and left `after` and `outcome`.
///
/// A token that had fired by the time the job was taken from the queue is
/// answered with its error, and nothing else is done. Otherwise the interrupt
/// handle is attached, the closure runs, the handle is detached, and the
/// caller is told the result that is settled by what the token held at that
/// moment.
pub open spec fn job_ran<W, Y, X, T, F, A, R, D, B, S>(
    world: W,
    check: F,
    attach: A,
    run: R,
    detach: D,
    aborting: B,
    respond: S,
    after: W,
    outcome: JobOutcome,
) -> bool where
    F: FnOnce(W) -> Checked<W, Y>,
    A: FnOnce(Y) -> X,
    R: FnOnce(X) -> (X, Caught<T>),
    D: FnOnce(X) -> (W, Option<IsleError>),
    B: FnOnce(W) -> (W, bool),
    S: FnOnce(W, Result<T, IsleError>) -> W,
 {
    exists|checked: Checked<W, Y>| #[trigger]
        check.ensures((world,), checked) && goes_on(
            checked,
            attach,
            run,
            detach,
            aborting,
            respond,
            after,
            outcome,
        )
}

/// Runs one job to its end and tells its caller the result.
///
/// In order:
///
/// 1. `check`, the queued-stage check: a token that has fired is answered with
///    its error, and the connection is not touched;
/// 2. `attach` registers the connection's interrupt handle on the token;
/// 3. `run` runs the closure and catches its panic;
/// 4. `detach` forgets the handle, so that a late fire cannot hit the next
///    job, and says what the token maps to at that moment;
/// 5. a value is reported if the token had not fired by then, and otherwise
///    the token's error; an error is normalized, and a panic becomes
///    [`IsleError::Panicked`].
pub fn run_job<W, Y, X, T, F, A, R, D, B, S>(
    world: W,
    check: F,
    attach: A,
    run: R,
    detach: D,
    aborting: B,
    respond: S,
) -> (out: (W, JobOutcome)) where
    F: FnOnce(W) -> Checked<W, Y>,
    A: FnOnce(Y) -> X,
    R: FnOnce(X) -> (X, Caught<T>),
    D: FnOnce(X) -> (W, Option<IsleError>),
    B: FnOnce(W) -> (W, bool),
    S: FnOnce(W, Result<T, IsleError>) -> W,

    requires
        forall|w: W| #[trigger] check.requires((w,)),
        forall|y: Y| #[trigger] attach.requires((y,)),
        forall|x: X| #[trigger] run.requires((x,)),
        forall|x: X| #[trigger] detach.requires((x,)),
        forall|w: W| #[trigger] aborting.requires((w,)),
        forall|w: W, result: Result<T, IsleError>| #[trigger] respond.requires((w, result)),
    ensures
        job_ran(world, check, attach, run, detach, aborting, respond, out.0, out.1),
{
    match check(world) {
        Checked::Fired(w1, err) => {
            let after = respond(w1, Err(err));
            (after, JobOutcome::Completed)
        },
        Checked::Clear(y) => {
            let x = attach(y);
            let (x1, caught) = run(x);
            let (w1, held) = detach(x1);
            match caught {
                Caught::Returned(value) => {
                    let result = match held {
                        Some(err) => Err(err),
                        None => Ok(value),
                    };
                    (respond(w1, result), JobOutcome::Completed)
                },
                Caught::Failed(e) => {
                    let (w2, err) = normalize_error(w1, e, held, aborting);
                    (respond(w2, Err(err)), JobOutcome::Completed)
                },
                Caught::Panicked(payload) => {
                    let message = panic_message(payload);
                    (respond(w1, Err(IsleError::Panicked(message))), JobOutcome::Panicked)
                },
            }
        },
    }
}

/// A job with the cancel token `token` was run on `conn`, and left `after` and
/// `outcome`.
///
/// The steps are those of [`job_ran`], and the connection goes through them in
/// this order: the look at the token has it first, then it is attached, then the
/// closure has it, then it is detached, and only then is the caller told, by what
/// the token held as it was detached.
pub open spec fn token_job_ran<T, R, B, S>(
    conn: rusqlite::Connection,
    token: CancelToken,
    run: R,
    aborting: B,
    respond: S,
    after: rusqlite::Connection,
    outcome: JobOutcome,
) -> bool where
    R: FnOnce(Attached) -> (Attached, Caught<T>),
    B: FnOnce(rusqlite::Connection) -> (rusqlite::Connection, bool),
    S: FnOnce(rusqlite::Connection, Result<T, IsleError>) -> rusqlite::Connection,
 {
    exists|checked: Checked<rusqlite::Connection, Ready>| #[trigger]
        call_ensures(CancelToken::check, (&token, conn), checked) && goes_on(
            checked,
            Ready::start,
            run,
            Attached::end,
            aborting,
            respond,
            after,
            outcome,
        )
}

/// Runs one job on a connection, under its cancel token, as [`run_job`] does.
///
/// The connection is attached to `token` while `run` has it: it is attached
/// before, and detached again before the caller is told the result.
pub fn run_on_connection<T, R, B, S>(
    conn: rusqlite::Connection,
    token: &CancelToken,
    run: R,
    aborting: B,
    respond: S,
) -> (out: (rusqlite::Connection, JobOutcome)) where
    R: FnOnce(Attached) -> (Attached, Caught<T>),
    B: FnOnce(rusqlite::Connection) -> (rusqlite::Connection, bool),
    S: FnOnce(rusqlite::Connection, Result<T, IsleError>) -> rusqlite::Connection,

    requires
        forall|a: Attached| #[trigger] run.requires((a,)),
        forall|c: rusqlite::Connection| #[trigger] aborting.requires((c,)),
        forall|c: rusqlite::Connection, result: Result<T, IsleError>| #[trigger]
            respond.requires((c, result)),
    ensures
        token_job_ran(conn, *token, run, aborting, respond, out.0, out.1),
{
    let check = |c: rusqlite::Connection| -> (checked: Checked<rusqlite::Connection, Ready>)
        ensures
            call_ensures(CancelToken::check, (token, c), checked),
        {
            called_with(CancelToken::check, token, c)
        };
    run_job(conn, check, Ready::start, run, Attached::end, aborting, respond)
}

/// A job that waits to be run: the closure `run`, under the token `token`, in an
/// isle that `aborting` is asked about, with the reply going to `respond`.
///
/// A job that is dropped instead of being run drops these, and calls none of
/// them.
pub struct Job<R, B, S> {
    /// The job's cancel token.
    pub token: CancelToken,
    /// Runs the job's closure and catches its panic.
    pub run: R,
    /// Says whether the isle is aborting.
    pub aborting: B,
    /// Tells the job's caller the result.
    pub respond: S,
}

/// Makes a job. Nothing is called until it is run.
pub fn make_job<R, B, S>(run: R, token: CancelToken, aborting: B, respond: S) -> (job: Job<R, B, S>)
    ensures
        job == (Job { token, run, aborting, respond }),
{
    Job { token, run, aborting, respond }
}

impl<R, B, S> Job<R, B, S> {
    /// Runs the job on a connection, as [`run_on_connection`] does.
    pub fn serve<T>(self, conn: rusqlite::Connection) -> (out: (
        rusqlite::Connection,
        JobOutcome,
    )) where
        R: FnOnce(Attached) -> (Attached, Caught<T>),
        B: FnOnce(rusqlite::Connection) -> (rusqlite::Connection, bool),
        S: FnOnce(rusqlite::Connection, Result<T, IsleError>) -> rusqlite::Connection,

        requires
            forall|a: Attached| #[trigger] self.run.requires((a,)),
            forall|c: rusqlite::Connection| #[trigger] self.aborting.requires((c,)),
            forall|c: rusqlite::Connection, result: Result<T, IsleError>| #[trigger]
                self.respond.requires((c, result)),
        ensures
            token_job_ran(
                conn,
                self.token,
                self.run,
                self.aborting,
                self.respond,
                out.0,
                out.1,
            ),
    {
        run_on_connection(conn, &self.token, self.run, self.aborting, self.respond)
    }
}

/// Lock contention is never taken for a deadline: whatever its token and its
/// isle say, a job that fails with `SQLITE_BUSY` reports that error itself.
pub proof fn busy_stays_a_sqlite_error(
    e: rusqlite::Error,
    fired: Option<IsleError>,
    aborting: bool,
)
    requires
        failure_kind_of(e) == FailureKind::Busy,
    ensures
        normalized(e, fired, aborting) == IsleError::Sqlite(e),
{
}

/// An interrupted job reports the reason that its token holds, also in an isle
/// that is aborting; without one it reports that the isle is closed if it is
/// aborting, and otherwise the interrupt itself.
pub proof fn interrupt_reports_what_triggered_it(
    e: rusqlite::Error,
    held: Option<Reason>,
    aborting: bool,
)
    requires
        failure_kind_of(e) == FailureKind::Interrupted,
    ensures
        normalized(e, error_of(held), aborting) == match held {
            Some(reason) => reason.as_error(),
            None => if aborting {
                IsleError::Closed
            } else {
                IsleError::Sqlite(e)
            },
        },
{
}

/// [`IsleError::Timeout`] is reserved for the isle's own deadline, and
/// [`IsleError::Cancelled`] for a cancel: a failed job reports one of them only
/// if its token holds that reason.
pub proof fn reported_reason_is_the_tokens_own(
    e: rusqlite::Error,
    held: Option<Reason>,
    aborting: bool,
)
    ensures
        normalized(e, error_of(held), aborting) == IsleError::Timeout ==> held == Some(
            Reason::Timeout,
        ),
        normalized(e, error_of(held), aborting) == IsleError::Cancelled ==> held == Some(
            Reason::Cancelled,
        ),
{
}

/// A job whose token has fired before it starts does not touch the connection:
/// if looking at the token leaves the world alone, the only thing that happens
/// to it is that the caller is told the token's error.
pub proof fn skipped_job_leaves_the_connection_alone<W, Y, X, T, F, A, R, D, B, S>(
    world: W,
    check: F,
    attach: A,
    run: R,
    detach: D,
    aborting: B,
    respond: S,
    after: W,
    outcome: JobOutcome,
    err: IsleError,
) where
    F: FnOnce(W) -> Checked<W, Y>,
    A: FnOnce(Y) -> X,
    R: FnOnce(X) -> (X, Caught<T>),
    D: FnOnce(X) -> (W, Option<IsleError>),
    B: FnOnce(W) -> (W, bool),
    S: FnOnce(W, Result<T, IsleError>) -> W,

    requires
        job_ran(world, check, attach, run, detach, aborting, respond, after, outcome),
        forall|checked: Checked<W, Y>| #[trigger]
            check.ensures((world,), checked) ==> checked == Checked::<W, Y>::Fired(world, err),
    ensures
        outcome == JobOutcome::Completed,
        respond.ensures((world, Err(err)), after),
{
}

/// A job that returned a value reports that value if its token had not fired when
/// it was detached, and otherwise why its token fired: a job that completes after
/// its cancel, or after its deadline, does not report its value.
pub proof fn late_value_is_not_reported<W, T, A, S>(
    world: W,
    value: T,
    held: Option<Reason>,
    aborting: A,
    respond: S,
    after: W,
    outcome: JobOutcome,
) where A: FnOnce(W) -> (W, bool), S: FnOnce(W, Result<T, IsleError>) -> W
    requires
        settles(
            world,
            Caught::Returned(value),
            error_of(held),
            aborting,
            respond,
            after,
            outcome,
        ),
    ensures
        outcome == JobOutcome::Completed,
        held is None ==> respond.ensures((world, Ok(value)), after),
        held matches Some(reason) ==> respond.ensures((world, Err(reason.as_error())), after),
{
}

/// What a job does to the world, as a log keeps it.
pub enum JobEffect<T> {
    /// The connection was attached to the token.
    Attached,
    /// The closure ran.
    Ran,
    /// The connection was detached from the token.
    Detached,
    /// The caller was told the result.
    Responded(Result<T, IsleError>),
}

/// The log after a job that ran its closure, or did not, and told `told`.
pub open spec fn answered<T>(
    log: Seq<JobEffect<T>>,
    ran: bool,
    told: Result<T, IsleError>,
) -> Seq<JobEffect<T>> {
    let before = if ran {
        log.push(JobEffect::Attached).push(JobEffect::Ran).push(JobEffect::Detached)
    } else {
        log
    };
    before.push(JobEffect::Responded(told))
}

/// A job that is run answers exactly once, as the last thing that it does, and
/// runs its closure at most once, attached: if and only if its token had not fired
/// when it was looked at first. Its outcome is [`JobOutcome::Panicked`] if and only
/// if the closure panicked.
///
/// This holds in any world, of which `log`, `ylog` and `xlog` say what was done to
/// it.
pub proof fn job_answers_exactly_once<W, Y, X, T, F, A, R, D, B, S>(
    world: W,
    log: spec_fn(W) -> Seq<JobEffect<T>>,
    ylog: spec_fn(Y) -> Seq<JobEffect<T>>,
    xlog: spec_fn(X) -> Seq<JobEffect<T>>,
    check: F,
    attach: A,
    run: R,
    detach: D,
    aborting: B,
    respond: S,
    after: W,
    outcome: JobOutcome,
) where
    F: FnOnce(W) -> Checked<W, Y>,
    A: FnOnce(Y) -> X,
    R: FnOnce(X) -> (X, Caught<T>),
    D: FnOnce(X) -> (W, Option<IsleError>),
    B: FnOnce(W) -> (W, bool),
    S: FnOnce(W, Result<T, IsleError>) -> W,

    requires
        job_ran(world, check, attach, run, detach, aborting, respond, after, outcome),
        forall|w: W, checked: Checked<W, Y>| #[trigger]
            check.ensures((w,), checked) ==> log(w) == match checked {
                Checked::Fired(w1, _) => log(w1),
                Checked::Clear(y) => ylog(y),
            },
        forall|y: Y, x: X| #[trigger]
            attach.ensures((y,), x) ==> xlog(x) == ylog(y).push(JobEffect::Attached),
        forall|x: X, x1: X, caught: Caught<T>| #[trigger]
            run.ensures((x,), (x1, caught)) ==> xlog(x1) == xlog(x).push(JobEffect::Ran),
        forall|x: X, w: W, held: Option<IsleError>| #[trigger]
            detach.ensures((x,), (w, held)) ==> log(w) == xlog(x).push(JobEffect::Detached),
        forall|w: W, w1: W, abort: bool| #[trigger]
            aborting.ensures((w,), (w1, abort)) ==> log(w1) == log(w),
        forall|w: W, result: Result<T, IsleError>, w1: W| #[trigger]
            respond.ensures((w, result), w1) ==> log(w1) == log(w).push(
                JobEffect::Responded(result),
            ),
    ensures
        exists|checked: Checked<W, Y>, told: Result<T, IsleError>| #[trigger]
            check.ensures((world,), checked) && log(after) == #[trigger] answered(
                log(world),
                checked is Clear,
                told,
            ) && if checked is Clear {
                exists|x: X, x1: X, caught: Caught<T>| #[trigger]
                    run.ensures((x,), (x1, caught)) && (outcome == JobOutcome::Panicked
                        <==> caught is Panicked)
            } else {
                outcome == JobOutcome::Completed
            },
{
    let checked = choose|checked: Checked<W, Y>| #[trigger]
        check.ensures((world,), checked) && goes_on(
            checked,
            attach,
            run,
            detach,
            aborting,
            respond,
            after,
            outcome,
        );
    match checked {
        Checked::Fired(_, err) => {
            assert(log(after) == answered(log(world), checked is Clear, Err(err)));
        },
        Checked::Clear(y) => {
            let (x, x1, caught, w1, held) = steps_of(
                y,
                attach,
                run,
                detach,
                aborting,
                respond,
                after,
                outcome,
            );
            match caught {
                Caught::Returned(value) => {
                    assert(log(after) == answered(log(world), true, completed(value, held)));
                },
                Caught::Failed(e) => {
                    let (w2, err) = choose|w2: W, err: IsleError|
                        normalizes(w1, e, held, aborting, w2, err) && #[trigger] respond.ensures(
                            (w2, Err(err)),
                            after,
                        );
                    assert(log(w2) == log(w1));
                    assert(log(after) == answered(log(world), true, Err(err)));
                },
                Caught::Panicked(payload) => {
                    let message = choose|message: String|
                        message@ == panic_text(payload) && #[trigger] respond.ensures(
                            (w1, Err(IsleError::Panicked(message))),
                            after,
                        );
                    assert(log(after) == answered(
                        log(world),
                        true,
                        Err(IsleError::Panicked(message)),
                    ));
                },
            }
        },
    }
}

} // verus!

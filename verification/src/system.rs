//! An isle as a whole: what holds however its callers and its SQLite thread
//! interleave.
//!
//! The callers submit jobs, fire tokens, shut the isle down and let go of it at
//! any time. The SQLite thread takes the requests in order. It takes a job from the
//! channel, reads the abort flag, looks at the job's token, attaches the connection
//! to it and runs the closure; between any two of these, and while the job runs, the
//! callers go on. Each [`Event`] is one indivisible step of either side.
use vstd::prelude::*;

use crate::error::{failure_kind_of, FailureKind, IsleError};
use crate::job::{
    completed, goes_on, normalized, normalizes, panic_text, settles, steps_of, token_job_ran,
    Caught, JobOutcome,
};
use crate::task::resolved;
use crate::token::{
    error_of, Attached, CancelToken, Checked, Ready, Reason, TokenCell, TokenOp,
};
use crate::worker::{step_of, Request, Step};

verus! {

/// Where the SQLite thread stands.
pub enum Phase {
    /// Between jobs.
    Idle,
    /// This job was taken from the channel; the abort flag has not been read for
    /// it yet.
    Taken(nat),
    /// The isle was found not to be aborting; the token of this job has not been
    /// looked at yet.
    Admitted(nat),
    /// The token of this job was found not to have fired; the connection is not
    /// attached to it yet.
    Checked(nat),
    /// The job runs, and its connection has been interrupted since it was
    /// attached, or not.
    Running(nat, bool),
    /// The thread has left its loop.
    Gone,
}

/// How a job ended.
pub enum Ending {
    /// It was skipped because its token had fired.
    Skipped(Reason),
    /// It was dropped because the isle was aborting.
    Discarded,
    /// It was run, and its connection was interrupted meanwhile, or not.
    Ran(bool),
}

/// An isle and the jobs submitted to it, which are numbered.
///
/// There is one connection, so a token's handle is `()`.
pub struct IsleState {
    /// The token of each submitted job.
    pub tokens: Map<nat, TokenCell<()>>,
    /// The requests that wait in the channel.
    pub queue: Seq<Request<nat>>,
    /// Whether someone can still send into the channel.
    pub connected: bool,
    /// Where the SQLite thread stands.
    pub phase: Phase,
    /// The jobs that are over.
    pub ended: Map<nat, Ending>,
    /// Whether the isle is aborting.
    pub aborting: bool,
}

/// One indivisible step.
pub enum Event {
    /// A caller submits a new job.
    Submit(nat),
    /// Someone queues a shutdown request.
    Shutdown,
    /// Someone fires the token of a job.
    Fire(nat, Reason),
    /// The isle starts to abort.
    Abort,
    /// Whoever aborts the isle interrupts its connection.
    Interrupt,
    /// The last one who could send into the channel lets go of it.
    LetGo,
    /// The SQLite thread takes the next request from the channel.
    Take,
    /// The SQLite thread reads the abort flag for the job that it took.
    ReadAbort,
    /// The SQLite thread looks at the token of the job that it took.
    Look,
    /// The SQLite thread finds the channel empty and without senders.
    Disconnect,
    /// The SQLite thread attaches the connection to the token of the job that
    /// it took.
    Attach,
    /// The job's closure returned, and the SQLite thread detaches the
    /// connection.
    Finish,
    /// The job's closure panicked, and the SQLite thread detaches the connection
    /// and checks its health, with this result.
    Panic(bool),
}

impl IsleState {
    /// The job numbered `job` waits in the channel.
    pub open spec fn waiting(self, job: nat) -> bool {
        self.queue.contains(Request::Job(job))
    }

    /// The job numbered `job` is being served: it was taken from the channel and is
    /// not over.
    pub open spec fn serving(self, job: nat) -> bool {
        match self.phase {
            Phase::Taken(j) => j == job,
            Phase::Admitted(j) => j == job,
            Phase::Checked(j) => j == job,
            Phase::Running(j, _) => j == job,
            _ => false,
        }
    }

    /// The abort flag has not been read for the job numbered `job` yet.
    pub open spec fn unread(self, job: nat) -> bool {
        self.waiting(job) || self.phase == Phase::Taken(job)
    }

    /// The token of the job numbered `job` has not been looked at yet.
    pub open spec fn unlooked(self, job: nat) -> bool {
        self.unread(job) || self.phase == Phase::Admitted(job)
    }

    /// The token of the job numbered `job` was found not to have fired, and the job
    /// is about to run or runs.
    pub open spec fn started(self, job: nat) -> bool {
        self.phase == Phase::Checked(job) || self.running(job)
    }

    /// The job numbered `job` runs on the connection.
    pub open spec fn running(self, job: nat) -> bool {
        self.phase matches Phase::Running(j, _) && j == job
    }

    /// `event` can happen now: a thread that is gone, or that everyone has let go
    /// of, is sent nothing, and a connection is interrupted from outside only by
    /// whoever aborts its isle.
    pub open spec fn enabled(self, event: Event) -> bool {
        match event {
            Event::Submit(job) => !self.tokens.contains_key(job) && self.connected && !(
            self.phase is Gone),
            Event::Shutdown => self.connected && !(self.phase is Gone),
            Event::Fire(job, _) => self.tokens.contains_key(job),
            Event::Abort => true,
            Event::Interrupt => self.aborting,
            Event::LetGo => self.connected,
            Event::Take => self.phase is Idle && self.queue.len() > 0,
            Event::ReadAbort => self.phase is Taken,
            Event::Look => self.phase is Admitted,
            Event::Disconnect => self.phase is Idle && self.queue.len() == 0 && !self.connected,
            Event::Attach => self.phase is Checked,
            Event::Finish => self.phase is Running,
            Event::Panic(_) => self.phase is Running,
        }
    }

    /// The operation that `event` makes on a token, and on whose.
    pub open spec fn token_op(self, event: Event) -> Option<(nat, TokenOp<()>)> {
        match event {
            Event::Fire(job, reason) => Some((job, TokenOp::Fire(reason))),
            Event::Attach => Some((self.phase->Checked_0, TokenOp::Attach(()))),
            Event::Finish => Some((self.phase->Running_0, TokenOp::Detach)),
            Event::Panic(_) => Some((self.phase->Running_0, TokenOp::Detach)),
            _ => None,
        }
    }

    /// `event` interrupts the connection.
    pub open spec fn interrupts(self, event: Event) -> bool {
        match self.token_op(event) {
            Some((job, op)) => self.tokens[job].stepped(op).1 is Some,
            None => event is Interrupt,
        }
    }

    /// The phase after the connection was interrupted, or not.
    pub open spec fn hit(self, interrupted: bool) -> Phase {
        match self.phase {
            Phase::Running(job, hit) => Phase::Running(job, hit || interrupted),
            phase => phase,
        }
    }

    /// The isle after `event`.
    pub open spec fn after(self, event: Event) -> IsleState {
        let stepped = match self.token_op(event) {
            Some((job, op)) => IsleState {
                tokens: self.tokens.insert(job, self.tokens[job].stepped(op).0),
                ..self
            },
            None => self,
        };
        match event {
            Event::Submit(job) => IsleState {
                tokens: self.tokens.insert(job, TokenCell::unfired()),
                queue: self.queue.push(Request::Job(job)),
                ..self
            },
            Event::Shutdown => IsleState { queue: self.queue.push(Request::Shutdown), ..self },
            Event::Fire(_, _) => IsleState { phase: self.hit(self.interrupts(event)), ..stepped },
            Event::Abort => IsleState { aborting: true, ..self },
            Event::Interrupt => IsleState { phase: self.hit(true), ..self },
            Event::LetGo => IsleState { connected: false, ..self },
            Event::Take => IsleState {
                queue: self.queue.drop_first(),
                phase: match self.queue[0] {
                    Request::Job(job) => Phase::Taken(job),
                    Request::Shutdown => Phase::Gone,
                },
                ..self
            },
            Event::ReadAbort => match step_of(
                Some(Request::Job(self.phase->Taken_0)),
                self.aborting,
            ) {
                Step::Discard(job) => IsleState {
                    phase: Phase::Idle,
                    ended: self.ended.insert(job, Ending::Discarded),
                    ..self
                },
                _ => IsleState { phase: Phase::Admitted(self.phase->Taken_0), ..self },
            },
            Event::Look => match self.tokens[self.phase->Admitted_0].reason {
                Some(reason) => IsleState {
                    phase: Phase::Idle,
                    ended: self.ended.insert(self.phase->Admitted_0, Ending::Skipped(reason)),
                    ..self
                },
                None => IsleState { phase: Phase::Checked(self.phase->Admitted_0), ..self },
            },
            Event::Disconnect => IsleState { phase: Phase::Gone, ..self },
            Event::Attach => IsleState {
                phase: Phase::Running(self.phase->Checked_0, self.interrupts(event)),
                ..stepped
            },
            Event::Finish => IsleState {
                phase: Phase::Idle,
                ended: self.ended.insert(self.phase->Running_0, Ending::Ran(self.phase->Running_1)),
                ..stepped
            },
            Event::Panic(healthy) => IsleState {
                phase: if healthy {
                    Phase::Idle
                } else {
                    Phase::Gone
                },
                ended: self.ended.insert(self.phase->Running_0, Ending::Ran(self.phase->Running_1)),
                ..stepped
            },
        }
    }

    /// What every reachable state of an isle satisfies.
    pub open spec fn wf(self) -> bool {
        // A submitted job is in exactly one place: in the channel, being
        // served, or over.
        &&& forall|job: nat| #[trigger]
            self.tokens.contains_key(job) <==> self.waiting(job) || self.serving(job)
                || self.ended.contains_key(job)
        &&& forall|i: int, j: int|
            0 <= i < j < self.queue.len() && #[trigger] self.queue[i] is Job ==> self.queue[i]
                != #[trigger] self.queue[j]
        &&& forall|job: nat| #[trigger]
            self.waiting(job) ==> !self.serving(job) && !self.ended.contains_key(job)
        &&& forall|job: nat| #[trigger] self.ended.contains_key(job) ==> !self.serving(job)
        // The connection is attached to the token of the job that runs, and to
        // no other.
        &&& forall|job: nat| #[trigger]
            self.tokens.contains_key(job) ==> (self.tokens[job].handle is Some <==> self.running(
                job,
            ))
        // A running job whose token has fired has been interrupted, and one
        // that has been interrupted has a token that fired or an isle that is
        // aborting.
        &&& self.phase matches Phase::Running(job, hit) ==> {
            &&& self.tokens[job].reason is Some ==> hit
            &&& hit ==> self.tokens[job].reason is Some || self.aborting
        }
    }
}

/// An isle to which nothing has been submitted.
pub open spec fn idle_isle() -> IsleState {
    IsleState {
        tokens: Map::empty(),
        queue: Seq::empty(),
        connected: true,
        phase: Phase::Idle,
        ended: Map::empty(),
        aborting: false,
    }
}

/// The isle went through `states`, one event from each to the next, from a state
/// to which nothing had been submitted.
pub open spec fn is_run(states: Seq<IsleState>, events: Seq<Event>) -> bool {
    &&& states.len() == events.len() + 1
    &&& states[0] == idle_isle()
    &&& forall|i: int|
        #![trigger events[i]]
        0 <= i < events.len() ==> states[i].enabled(events[i]) && states[i + 1]
            == states[i].after(events[i])
}

/// One event keeps an isle well-formed.
pub proof fn event_keeps_wf(s: IsleState, event: Event)
    requires
        s.wf(),
        s.enabled(event),
    ensures
        s.after(event).wf(),
{
    let t = s.after(event);
    match event {
        Event::Submit(new) => {
            assert(!s.waiting(new));
            assert forall|i: int| 0 <= i < s.queue.len() implies #[trigger] s.queue[i]
                != Request::Job(new) by {
                assert(s.queue.contains(s.queue[i]));
            }
            pushed_requests(s.queue, Request::Job(new));
            assert forall|job: nat| #[trigger] t.waiting(job) implies !t.serving(job)
                && !t.ended.contains_key(job) by {
                if job != new {
                    assert(s.waiting(job));
                } else {
                    assert(!s.tokens.contains_key(new));
                }
            }
        },
        Event::Shutdown => {
            pushed_requests(s.queue, Request::Shutdown);
            assert forall|job: nat| #[trigger] t.waiting(job) implies s.waiting(job) by {}
        },
        Event::Take => {
            let head = s.queue[0];
            assert(s.queue.contains(head));
            assert forall|request: Request<nat>| request is Job implies (
            #[trigger] t.queue.contains(request) <==> s.queue.contains(request) && request
                != head) by {
                if t.queue.contains(request) {
                    let i = choose|i: int| 0 <= i < t.queue.len() && t.queue[i] == request;
                    assert(s.queue[i + 1] == request);
                }
                if s.queue.contains(request) && request != head {
                    let i = choose|i: int| 0 <= i < s.queue.len() && s.queue[i] == request;
                    assert(t.queue[i - 1] == request);
                }
            }
            assert forall|job: nat| #[trigger] t.waiting(job) implies s.waiting(job) by {}
            if let Request::Job(job) = head {
                assert(s.waiting(job));
            }
        },
        _ => {
            assert forall|job: nat| #[trigger] t.waiting(job) implies s.waiting(job) by {}
        },
    }
}

proof fn pushed_requests(queue: Seq<Request<nat>>, new: Request<nat>)
    ensures
        forall|request: Request<nat>| #[trigger]
            queue.push(new).contains(request) <==> queue.contains(request) || request == new,
{
    let longer = queue.push(new);
    assert forall|request: Request<nat>| #[trigger] longer.contains(request) <==> queue.contains(
        request,
    ) || request == new by {
        if queue.contains(request) {
            let i = choose|i: int| 0 <= i < queue.len() && queue[i] == request;
            assert(longer[i] == request);
        }
        if request == new {
            assert(longer[queue.len() as int] == request);
        }
    }
}

/// Every state of a run is well-formed.
pub proof fn run_is_wf(states: Seq<IsleState>, events: Seq<Event>, at: int)
    requires
        is_run(states, events),
        0 <= at < states.len(),
    ensures
        states[at].wf(),
    decreases at,
{
    if at > 0 {
        run_is_wf(states, events, at - 1);
        assert(states[at - 1].enabled(events[at - 1]));
        event_keeps_wf(states[at - 1], events[at - 1]);
    } else {
        let s = idle_isle();
        assert forall|job: nat| !#[trigger] s.waiting(job) by {}
    }
}

/// Firing a token interrupts the connection only while the token's own job
/// runs: a cancel that comes late, or early, cannot hit another job.
pub proof fn fire_interrupts_its_own_job_only(
    states: Seq<IsleState>,
    events: Seq<Event>,
    at: int,
    job: nat,
    reason: Reason,
)
    requires
        is_run(states, events),
        0 <= at < events.len(),
        events[at] == Event::Fire(job, reason),
    ensures
        states[at].interrupts(events[at]) <==> states[at].running(job),
{
    run_is_wf(states, events, at);
    assert(states[at].enabled(events[at]));
}

/// Once a job is over, firing its token does nothing to the connection, and the
/// isle goes on serving the job that it was serving.
pub proof fn late_fire_changes_nothing_but_the_token(
    states: Seq<IsleState>,
    events: Seq<Event>,
    at: int,
    job: nat,
    reason: Reason,
)
    requires
        is_run(states, events),
        0 <= at < events.len(),
        events[at] == Event::Fire(job, reason),
        states[at].ended.contains_key(job),
    ensures
        !states[at].interrupts(events[at]),
        states[at + 1].queue == states[at].queue,
        states[at + 1].phase == states[at].phase,
        states[at + 1].ended == states[at].ended,
        forall|other: nat|
            other != job && #[trigger] states[at].tokens.contains_key(other)
                ==> states[at + 1].tokens[other] == states[at].tokens[other],
{
    run_is_wf(states, events, at);
    assert(states[at].enabled(events[at]));
}

/// A job that is over stays over, with the ending that it had: its caller is
/// told one result.
pub proof fn job_ends_once(
    states: Seq<IsleState>,
    events: Seq<Event>,
    at: int,
    later: int,
    job: nat,
)
    requires
        is_run(states, events),
        0 <= at <= later < states.len(),
        states[at].ended.contains_key(job),
    ensures
        states[later].ended.contains_key(job),
        states[later].ended[job] == states[at].ended[job],
    decreases later - at,
{
    if at < later {
        job_ends_once(states, events, at, later - 1, job);
        run_is_wf(states, events, later - 1);
        assert(states[later - 1].enabled(events[later - 1]));
    }
}

/// A fired token keeps its reason.
pub proof fn fired_token_keeps_its_reason(
    states: Seq<IsleState>,
    events: Seq<Event>,
    at: int,
    later: int,
    job: nat,
)
    requires
        is_run(states, events),
        0 <= at <= later < states.len(),
        states[at].tokens.contains_key(job),
        states[at].tokens[job].reason is Some,
    ensures
        states[later].tokens.contains_key(job),
        states[later].tokens[job].reason == states[at].tokens[job].reason,
    decreases later - at,
{
    if at < later {
        fired_token_keeps_its_reason(states, events, at, later - 1, job);
        assert(states[later - 1].enabled(events[later - 1]));
    }
}

/// An isle that aborts goes on aborting.
pub proof fn abort_is_final(states: Seq<IsleState>, events: Seq<Event>, at: int, later: int)
    requires
        is_run(states, events),
        0 <= at <= later < states.len(),
        states[at].aborting,
    ensures
        states[later].aborting,
    decreases later - at,
{
    if at < later {
        abort_is_final(states, events, at, later - 1);
        assert(states[later - 1].enabled(events[later - 1]));
    }
}

/// A job whose token fires while the job is queued, or at any time before the
/// SQLite thread looks at the token, is never run: it is skipped for the reason that
/// its token holds, or dropped by an aborting isle.
pub proof fn job_fired_while_queued_never_runs(
    states: Seq<IsleState>,
    events: Seq<Event>,
    at: int,
    later: int,
    job: nat,
)
    requires
        is_run(states, events),
        0 <= at <= later < states.len(),
        states[at].unlooked(job),
        states[at].tokens[job].reason is Some,
    ensures
        !states[later].started(job),
        states[later].ended.contains_key(job) ==> {
            ||| states[later].ended[job] == Ending::Skipped(
                states[at].tokens[job].reason->Some_0,
            )
            ||| states[later].ended[job] == Ending::Discarded && states[later].aborting
        },
    decreases later - at,
{
    run_is_wf(states, events, at);
    if at < later {
        job_fired_while_queued_never_runs(states, events, at, later - 1, job);
        run_is_wf(states, events, later - 1);
        assert(states[at].tokens.contains_key(job));
        fired_token_keeps_its_reason(states, events, at, later - 1, job);
        assert(states[later - 1].enabled(events[later - 1]));
    }
}

/// A job that is queued when the isle starts to abort, or for which the SQLite
/// thread has not read the abort flag yet, is never run, and its token is never
/// looked at.
pub proof fn job_queued_at_abort_never_runs(
    states: Seq<IsleState>,
    events: Seq<Event>,
    at: int,
    later: int,
    job: nat,
)
    requires
        is_run(states, events),
        0 <= at <= later < states.len(),
        states[at].unread(job),
        states[at].aborting,
    ensures
        !states[later].started(job),
        states[later].phase != Phase::Admitted(job),
        states[later].ended.contains_key(job) ==> states[later].ended[job] == Ending::Discarded,
    decreases later - at,
{
    run_is_wf(states, events, at);
    if at < later {
        job_queued_at_abort_never_runs(states, events, at, later - 1, job);
        run_is_wf(states, events, later - 1);
        abort_is_final(states, events, at, later - 1);
        assert(states[at].tokens.contains_key(job));
        job_stays_known(states, events, at, later - 1, job);
        assert(states[later - 1].enabled(events[later - 1]));
    }
}

proof fn job_stays_known(
    states: Seq<IsleState>,
    events: Seq<Event>,
    at: int,
    later: int,
    job: nat,
)
    requires
        is_run(states, events),
        0 <= at <= later < states.len(),
        states[at].tokens.contains_key(job),
    ensures
        states[later].tokens.contains_key(job),
    decreases later - at,
{
    if at < later {
        job_stays_known(states, events, at, later - 1, job);
        assert(states[later - 1].enabled(events[later - 1]));
    }
}

/// An isle whose thread is gone serves nothing more and accepts nothing more: no
/// further job ends, and none is submitted. The callers of the jobs that still
/// wait find their reply channel without a sender.
pub proof fn gone_isle_serves_nothing(
    states: Seq<IsleState>,
    events: Seq<Event>,
    at: int,
    later: int,
)
    requires
        is_run(states, events),
        0 <= at <= later < states.len(),
        states[at].phase is Gone,
    ensures
        states[later].phase is Gone,
        states[later].ended == states[at].ended,
        states[later].queue == states[at].queue,
        states[later].tokens.dom() == states[at].tokens.dom(),
    decreases later - at,
{
    if at < later {
        gone_isle_serves_nothing(states, events, at, later - 1);
        let s = states[later - 1];
        assert(s.enabled(events[later - 1]));
        assert(states[later].tokens.dom() =~= s.tokens.dom());
    }
}

/// An isle that everyone has let go of finishes what was submitted to it: when its
/// thread finds the channel empty and without senders, every job is over.
pub proof fn abandoned_isle_finishes_its_queue(
    states: Seq<IsleState>,
    events: Seq<Event>,
    at: int,
    job: nat,
)
    requires
        is_run(states, events),
        0 <= at < events.len(),
        events[at] is Disconnect,
        states[at].tokens.contains_key(job),
    ensures
        states[at].ended.contains_key(job),
        states[at + 1].phase is Gone,
{
    run_is_wf(states, events, at);
    assert(states[at].enabled(events[at]));
    assert(!states[at].waiting(job));
}

/// No cancel of a running job is lost: if the token of a job has fired by the
/// time its closure ends, the connection was interrupted after it was attached
/// to the job, even if the token fired between the look at it and the start.
pub proof fn fired_running_job_was_interrupted(
    states: Seq<IsleState>,
    events: Seq<Event>,
    at: int,
    job: nat,
)
    requires
        is_run(states, events),
        0 <= at < events.len(),
        events[at] is Finish || events[at] is Panic,
        states[at].running(job),
        states[at].tokens[job].reason is Some,
    ensures
        states[at + 1].ended[job] == Ending::Ran(true),
{
    run_is_wf(states, events, at);
    assert(states[at].enabled(events[at]));
}

/// An interrupt comes from the token of the job that it hits, or from an abort of
/// the isle: no other job's token and no earlier cancel interrupts a job.
pub proof fn interrupt_has_its_cause(
    states: Seq<IsleState>,
    events: Seq<Event>,
    at: int,
    job: nat,
)
    requires
        is_run(states, events),
        0 <= at < states.len(),
        states[at].phase == Phase::Running(job, true),
    ensures
        states[at].tokens[job].reason is Some || states[at].aborting,
{
    run_is_wf(states, events, at);
}

/// `told` is what the caller of a job that ended as `ending` is told.
///
/// If the job was run, its closure ended as `caught`, and `held` and `aborting`
/// are what its token and its isle said then. A job that was dropped drops the
/// sending end of its reply channel.
pub open spec fn answers<T>(
    ending: Ending,
    caught: Caught<T>,
    held: Option<Reason>,
    aborting: bool,
    told: Result<T, IsleError>,
) -> bool {
    match ending {
        Ending::Skipped(reason) => told == Err::<T, IsleError>(reason.as_error()),
        Ending::Discarded => told == resolved::<T>(None),
        Ending::Ran(_) => match caught {
            Caught::Returned(value) => told == completed(value, error_of(held)),
            Caught::Failed(e) => told == Err::<T, IsleError>(
                normalized(e, error_of(held), aborting),
            ),
            Caught::Panicked(payload) => {
                &&& told matches Err(IsleError::Panicked(message))
                &&& message@ == panic_text(payload)
            },
        },
    }
}

/// A job that was run replies its answer, and nothing else, if asking whether the
/// isle is aborting leaves the world alone.
pub proof fn job_that_ran_replies_its_answer<W, T, A, S>(
    world: W,
    caught: Caught<T>,
    held: Option<Reason>,
    abort: bool,
    hit: bool,
    aborting: A,
    respond: S,
    after: W,
    outcome: JobOutcome,
) where A: FnOnce(W) -> (W, bool), S: FnOnce(W, Result<T, IsleError>) -> W
    requires
        settles(world, caught, error_of(held), aborting, respond, after, outcome),
        forall|w: W, w1: W, b: bool| #[trigger]
            aborting.ensures((w,), (w1, b)) ==> w1 == w && b == abort,
    ensures
        exists|told: Result<T, IsleError>|
            answers(Ending::Ran(hit), caught, held, abort, told) && #[trigger] respond.ensures(
                (world, told),
                after,
            ),
{
    match caught {
        Caught::Failed(e) => {
            let (w1, err) = choose|w1: W, err: IsleError|
                normalizes(world, e, error_of(held), aborting, w1, err) && #[trigger]
                respond.ensures((w1, Err(err)), after);
            assert(w1 == world && err == normalized(e, error_of(held), abort));
        },
        _ => {},
    }
}

/// What a served job replies is the answer to how it ended, as the laws here speak
/// of it: it was skipped for the reason that its token was found to hold, or it was
/// run, and its token held `held` as the connection was detached from it.
pub proof fn served_job_replies_its_answer<T, R, B, S>(
    conn: rusqlite::Connection,
    token: CancelToken,
    run: R,
    aborting: B,
    respond: S,
    after: rusqlite::Connection,
    outcome: JobOutcome,
    abort: bool,
    hit: bool,
) where
    R: FnOnce(Attached) -> (Attached, Caught<T>),
    B: FnOnce(rusqlite::Connection) -> (rusqlite::Connection, bool),
    S: FnOnce(rusqlite::Connection, Result<T, IsleError>) -> rusqlite::Connection,

    requires
        token_job_ran(conn, token, run, aborting, respond, after, outcome),
        forall|c: rusqlite::Connection, c1: rusqlite::Connection, b: bool| #[trigger]
            aborting.ensures((c,), (c1, b)) ==> c1 == c && b == abort,
    ensures
        (exists|cell: TokenCell<rusqlite::InterruptHandle>| #[trigger]
            token.found(cell) && match cell.reason {
                Some(reason) => respond.ensures((conn, Err(reason.as_error())), after),
                None => served_and_answered(token, run, respond, after, abort, hit),
            }),
{
    let checked = choose|checked: Checked<rusqlite::Connection, Ready>| #[trigger]
        call_ensures(CancelToken::check, (&token, conn), checked) && goes_on(
            checked,
            Ready::start,
            run,
            Attached::end,
            aborting,
            respond,
            after,
            outcome,
        );
    if let Checked::Clear(ready) = checked {
        let (a, a1, caught, c1, held) = steps_of(
            ready,
            Ready::start,
            run,
            Attached::end,
            aborting,
            respond,
            after,
            outcome,
        );
        let cell = choose|cell: TokenCell<rusqlite::InterruptHandle>| #[trigger]
            a1.of().ended(cell) && held == error_of(cell.reason);
        job_that_ran_replies_its_answer(
            c1,
            caught,
            cell.reason,
            abort,
            hit,
            aborting,
            respond,
            after,
            outcome,
        );
        let told = choose|told: Result<T, IsleError>|
            answers(Ending::Ran(hit), caught, cell.reason, abort, told) && #[trigger]
            respond.ensures((c1, told), after);
        assert(served_and_answered(token, run, respond, after, abort, hit));
    }
}

/// A job was run while its connection was attached to `token`, and then, with the
/// connection detached, replied the answer to how its closure ended and to what its
/// token held as it was detached.
pub open spec fn served_and_answered<T, R, S>(
    token: CancelToken,
    run: R,
    respond: S,
    after: rusqlite::Connection,
    abort: bool,
    hit: bool,
) -> bool where
    R: FnOnce(Attached) -> (Attached, Caught<T>),
    S: FnOnce(rusqlite::Connection, Result<T, IsleError>) -> rusqlite::Connection,
 {
    exists|
        a: Attached,
        a1: Attached,
        caught: Caught<T>,
        cell: TokenCell<rusqlite::InterruptHandle>,
        told: Result<T, IsleError>,
    |
        a.of() == token && #[trigger] run.ensures((a,), (a1, caught)) && #[trigger] a1.of().ended(
            cell,
        ) && answers(Ending::Ran(hit), caught, cell.reason, abort, told) && #[trigger]
        respond.ensures((a1.connection(), told), after)
}

/// A caller whose queued job is cancelled, or whose deadline elapses while its
/// job is queued or at any time before the SQLite thread looks at its token, is told
/// so, unless the isle is aborting and drops the job first: then the caller is told
/// that the isle is closed.
pub proof fn job_fired_while_queued_is_told_why<T>(
    states: Seq<IsleState>,
    events: Seq<Event>,
    at: int,
    later: int,
    job: nat,
    reason: Reason,
    caught: Caught<T>,
    held: Option<Reason>,
    aborting: bool,
    told: Result<T, IsleError>,
)
    requires
        is_run(states, events),
        0 <= at < later < states.len(),
        events[at] == Event::Fire(job, reason),
        states[at].unlooked(job),
        states[at].tokens[job].reason is None,
        states[later].ended.contains_key(job),
        answers(states[later].ended[job], caught, held, aborting, told),
    ensures
        ({
            ||| told == Err::<T, IsleError>(reason.as_error())
            ||| told == Err::<T, IsleError>(IsleError::Closed) && states[later].aborting
        }),
{
    run_is_wf(states, events, at);
    assert(states[at].enabled(events[at]));
    assert(states[at].waiting(job) ==> states[at + 1].waiting(job));
    job_fired_while_queued_never_runs(states, events, at + 1, later, job);
}

/// A caller whose running job is cancelled, or outlives its deadline, is told so:
/// if its token has fired by the time its closure returns a value, or the
/// `SQLITE_INTERRUPT` that stopped it, the answer is the reason that the token
/// holds. Any other error, and a panic, is reported as it is.
pub proof fn job_fired_while_running_is_told_why<T>(
    states: Seq<IsleState>,
    events: Seq<Event>,
    at: int,
    job: nat,
    reason: Reason,
    caught: Caught<T>,
    aborting: bool,
    told: Result<T, IsleError>,
)
    requires
        is_run(states, events),
        0 <= at < events.len(),
        events[at] is Finish,
        states[at].running(job),
        states[at].tokens[job].reason == Some(reason),
        answers(states[at + 1].ended[job], caught, Some(reason), aborting, told),
    ensures
        states[at + 1].ended[job] == Ending::Ran(true),
        caught is Returned ==> told == Err::<T, IsleError>(reason.as_error()),
        caught matches Caught::Failed(e) ==> told == Err::<T, IsleError>(
            if failure_kind_of(e) == FailureKind::Interrupted {
                reason.as_error()
            } else {
                IsleError::Sqlite(e)
            },
        ),
{
    fired_running_job_was_interrupted(states, events, at, job);
}

/// A job that runs when its isle is shut down at once, by setting it to abort and
/// then interrupting its connection, is interrupted, and if that stopped it, and
/// its own token has not fired, its caller is told that the isle is closed.
pub proof fn job_running_at_immediate_shutdown_is_told_closed<T>(
    states: Seq<IsleState>,
    events: Seq<Event>,
    at: int,
    end: int,
    job: nat,
    e: rusqlite::Error,
    told: Result<T, IsleError>,
)
    requires
        is_run(states, events),
        0 <= at < end < events.len(),
        events[at] is Interrupt,
        states[at].running(job),
        events[end] is Finish,
        states[end].running(job),
        states[end].tokens[job].reason is None,
        failure_kind_of(e) == FailureKind::Interrupted,
        answers(
            states[end + 1].ended[job],
            Caught::Failed(e),
            states[end].tokens[job].reason,
            states[end].aborting,
            told,
        ),
    ensures
        states[end + 1].ended[job] == Ending::Ran(true),
        told == Err::<T, IsleError>(IsleError::Closed),
{
    assert(states[at].enabled(events[at]));
    assert(states[at + 1].phase == Phase::Running(job, true));
    abort_is_final(states, events, at, end);
    hit_job_stays_hit(states, events, at + 1, end, job);
    assert(states[end].enabled(events[end]));
}

proof fn hit_job_stays_hit(
    states: Seq<IsleState>,
    events: Seq<Event>,
    at: int,
    later: int,
    job: nat,
)
    requires
        is_run(states, events),
        0 <= at <= later < states.len(),
        states[at].phase == Phase::Running(job, true),
    ensures
        states[later].phase == Phase::Running(job, true) || states[later].ended.contains_key(job),
        states[later].running(job) ==> states[later].phase == Phase::Running(job, true),
    decreases later - at,
{
    if at < later {
        hit_job_stays_hit(states, events, at, later - 1, job);
        run_is_wf(states, events, later - 1);
        run_is_wf(states, events, later);
        assert(states[later - 1].enabled(events[later - 1]));
        if states[later - 1].ended.contains_key(job) {
            job_ends_once(states, events, later - 1, later, job);
        }
    }
}

} // verus!

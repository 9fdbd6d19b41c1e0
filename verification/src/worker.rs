//! The job loop of the SQLite thread.
//!
//! [`serve_next`] serves one request, and [`run_loop`] goes on until the loop
//! ends. What happens while one request is served is a [`Turn`]; the jobs that
//! a sequence of turns runs are [`served`].
use vstd::prelude::*;

use crate::job::JobOutcome;

verus! {

/// Request sent from handles to the SQLite thread.
pub enum Request<J> {
    /// Run a job.
    Job(J),
    /// Graceful shutdown: the jobs queued ahead of this message are served
    /// first.
    Shutdown,
}

/// What the loop does with a received request.
pub enum Step<J> {
    /// Leave the loop.
    Exit,
    /// Drop the job without running it; its caller observes that the isle is
    /// closed.
    Discard(J),
    /// Run the job.
    Run(J),
}

/// What the loop does with `request`, where `None` stands for a channel whose
/// senders are all gone.
pub open spec fn step_of<J>(request: Option<Request<J>>, aborting: bool) -> Step<J> {
    match request {
        None => Step::Exit,
        Some(Request::Shutdown) => Step::Exit,
        Some(Request::Job(job)) => if aborting {
            Step::Discard(job)
        } else {
            Step::Run(job)
        },
    }
}

/// What the loop meets while it serves one request.
pub struct Turn<J> {
    /// The request that the channel delivered; `None` when every sender is
    /// gone.
    pub request: Option<Request<J>>,
    /// Whether the abort flag was set when the request was delivered.
    pub aborting: bool,
    /// How the job ended, if it was run.
    pub outcome: JobOutcome,
    /// What the health check says, if it is made.
    pub healthy: bool,
}

impl<J> Turn<J> {
    /// What the loop does in this turn.
    pub open spec fn step(self) -> Step<J> {
        step_of(self.request, self.aborting)
    }

    /// Whether the loop goes on after this turn.
    pub open spec fn continues(self) -> bool {
        match self.step() {
            Step::Exit => false,
            Step::Discard(_) => true,
            Step::Run(_) => self.outcome == JobOutcome::Completed || self.healthy,
        }
    }
}

/// The loop served one request in `world`, met `turn` and left `after`.
///
/// The abort flag is read only when a job arrives, and the health check is
/// made only after a job panicked.
pub open spec fn serves<W, J, N, B, R, X, H>(
    world: W,
    next: N,
    aborting: B,
    run: R,
    discard: X,
    healthy: H,
    turn: Turn<J>,
    after: W,
) -> bool where
    N: Fn(W) -> (W, Option<Request<J>>),
    B: Fn(W) -> (W, bool),
    R: Fn(W, J) -> (W, JobOutcome),
    X: Fn(W, J) -> W,
    H: Fn(W) -> (W, bool),
 {
    exists|w1: W| #[trigger]
        next.ensures((world,), (w1, turn.request)) && match turn.step() {
            Step::Exit => after == w1,
            Step::Discard(job) => exists|w2: W| #[trigger]
                aborting.ensures((w1,), (w2, true)) && discard.ensures((w2, job), after),
            Step::Run(job) => exists|w2: W, w3: W| #[trigger]
                aborting.ensures((w1,), (w2, false)) && #[trigger] run.ensures(
                    (w2, job),
                    (w3, turn.outcome),
                ) && match turn.outcome {
                    JobOutcome::Completed => after == w3,
                    JobOutcome::Panicked => healthy.ensures((w3,), (after, turn.healthy)),
                },
        }
}

/// The loop served one request in `world` and left `after`; `more` says whether it
/// goes on.
pub open spec fn serves_one<W, J, N, B, R, X, H>(
    world: W,
    next: N,
    aborting: B,
    run: R,
    discard: X,
    healthy: H,
    after: W,
    more: bool,
) -> bool where
    N: Fn(W) -> (W, Option<Request<J>>),
    B: Fn(W) -> (W, bool),
    R: Fn(W, J) -> (W, JobOutcome),
    X: Fn(W, J) -> W,
    H: Fn(W) -> (W, bool),
 {
    exists|turn: Turn<J>| #[trigger]
        serves(world, next, aborting, run, discard, healthy, turn, after) && more
            == turn.continues()
}

/// Serves one request and says whether the loop goes on.
///
/// The loop ends on a shutdown request (the jobs ahead of it have been
/// served), on a channel whose senders are all gone, and on a failed health
/// check after a panic: the isle must not serve further jobs on a connection
/// that may be broken. While the isle is aborting, jobs are dropped without
/// being run.
pub fn serve_next<W, J, N, B, R, X, H>(
    world: W,
    next: &N,
    aborting: &B,
    run: &R,
    discard: &X,
    healthy: &H,
) -> (out: (W, bool)) where
    N: Fn(W) -> (W, Option<Request<J>>),
    B: Fn(W) -> (W, bool),
    R: Fn(W, J) -> (W, JobOutcome),
    X: Fn(W, J) -> W,
    H: Fn(W) -> (W, bool),

    requires
        forall|w: W| #[trigger] next.requires((w,)),
        forall|w: W| #[trigger] aborting.requires((w,)),
        forall|w: W, job: J| #[trigger] run.requires((w, job)),
        forall|w: W, job: J| #[trigger] discard.requires((w, job)),
        forall|w: W| #[trigger] healthy.requires((w,)),
    ensures
        serves_one(world, *next, *aborting, *run, *discard, *healthy, out.0, out.1),
{
    let (w1, request) = next(world);
    let ghost turn = Turn {
        request,
        aborting: false,
        outcome: JobOutcome::Completed,
        healthy: true,
    };
    match request {
        Some(Request::Job(job)) => {
            let (w2, abort) = aborting(w1);
            if abort {
                let after = discard(w2, job);
                assert(serves(
                    world,
                    *next,
                    *aborting,
                    *run,
                    *discard,
                    *healthy,
                    Turn { aborting: true, ..turn },
                    after,
                ));
                return (after, true);
            }
            let (w3, outcome) = run(w2, job);
            match outcome {
                JobOutcome::Completed => {
                    assert(serves(
                        world,
                        *next,
                        *aborting,
                        *run,
                        *discard,
                        *healthy,
                        Turn { outcome, ..turn },
                        w3,
                    ));
                    (w3, true)
                },
                JobOutcome::Panicked => {
                    let (w4, sound) = healthy(w3);
                    assert(serves(
                        world,
                        *next,
                        *aborting,
                        *run,
                        *discard,
                        *healthy,
                        Turn { outcome, healthy: sound, ..turn },
                        w4,
                    ));
                    (w4, sound)
                },
            }
        },
        _ => {
            assert(serves(world, *next, *aborting, *run, *discard, *healthy, turn, w1));
            (w1, false)
        },
    }
}

/// The loop went through `worlds`, one turn of `turns` from each to the next, and
/// went on after every turn but perhaps the last.
pub open spec fn runs<W, J, N, B, R, X, H>(
    worlds: Seq<W>,
    next: N,
    aborting: B,
    run: R,
    discard: X,
    healthy: H,
    turns: Seq<Turn<J>>,
) -> bool where
    N: Fn(W) -> (W, Option<Request<J>>),
    B: Fn(W) -> (W, bool),
    R: Fn(W, J) -> (W, JobOutcome),
    X: Fn(W, J) -> W,
    H: Fn(W) -> (W, bool),
 {
    &&& worlds.len() == turns.len() + 1
    &&& forall|i: int|
        #![trigger turns[i]]
        0 <= i < turns.len() ==> serves(
            worlds[i],
            next,
            aborting,
            run,
            discard,
            healthy,
            turns[i],
            worlds[i + 1],
        )
    &&& forall|i: int| 0 <= i < turns.len() - 1 ==> (#[trigger] turns[i]).continues()
}

/// Runs the job loop for at most `limit` requests and says whether it has to go
/// on: `false` once the loop has ended.
pub fn run_loop<W, J, N, B, R, X, H>(
    world: W,
    limit: u64,
    next: &N,
    aborting: &B,
    run: &R,
    discard: &X,
    healthy: &H,
) -> (out: (W, bool)) where
    N: Fn(W) -> (W, Option<Request<J>>),
    B: Fn(W) -> (W, bool),
    R: Fn(W, J) -> (W, JobOutcome),
    X: Fn(W, J) -> W,
    H: Fn(W) -> (W, bool),

    requires
        forall|w: W| #[trigger] next.requires((w,)),
        forall|w: W| #[trigger] aborting.requires((w,)),
        forall|w: W, job: J| #[trigger] run.requires((w, job)),
        forall|w: W, job: J| #[trigger] discard.requires((w, job)),
        forall|w: W| #[trigger] healthy.requires((w,)),
    ensures
        exists|worlds: Seq<W>, turns: Seq<Turn<J>>| #[trigger]
            runs(worlds, *next, *aborting, *run, *discard, *healthy, turns) && worlds[0] == world
                && worlds.last() == out.0 && if out.1 {
                turns.len() == limit && (limit > 0 ==> turns.last().continues())
            } else {
                0 < turns.len() <= limit && !turns.last().continues()
            },
{
    let mut here = world;
    let mut left: u64 = limit;
    let ghost mut worlds = seq![world];
    let ghost mut turns: Seq<Turn<J>> = Seq::empty();
    while left > 0
        invariant
            forall|w: W| #[trigger] next.requires((w,)),
            forall|w: W| #[trigger] aborting.requires((w,)),
            forall|w: W, job: J| #[trigger] run.requires((w, job)),
            forall|w: W, job: J| #[trigger] discard.requires((w, job)),
            forall|w: W| #[trigger] healthy.requires((w,)),
            runs(worlds, *next, *aborting, *run, *discard, *healthy, turns),
            forall|i: int| 0 <= i < turns.len() ==> (#[trigger] turns[i]).continues(),
            worlds[0] == world,
            worlds.last() == here,
            turns.len() + left == limit,
        decreases left,
    {
        let (after, more) = serve_next(here, next, aborting, run, discard, healthy);
        proof {
            let turn = choose|turn: Turn<J>| #[trigger]
                serves(here, *next, *aborting, *run, *discard, *healthy, turn, after) && more
                    == turn.continues();
            let longer = turns.push(turn);
            let visited = worlds.push(after);
            assert forall|i: int|
                #![trigger longer[i]]
                0 <= i < longer.len() implies serves(
                visited[i],
                *next,
                *aborting,
                *run,
                *discard,
                *healthy,
                longer[i],
                visited[i + 1],
            ) by {
                if i < turns.len() {
                    assert(longer[i] == turns[i]);
                }
            }
            assert forall|i: int| 0 <= i < longer.len() - 1 implies (
            #[trigger] longer[i]).continues() by {
                assert(longer[i] == turns[i]);
            }
            assert(runs(visited, *next, *aborting, *run, *discard, *healthy, longer));
            turns = longer;
            worlds = visited;
        }
        if !more {
            return (after, false);
        }
        here = after;
        left = left - 1;
    }
    (here, true)
}

/// The jobs that the loop runs, in order, when it meets `turns`: the first turn
/// after which it does not go on is its last.
pub open spec fn served<J>(turns: Seq<Turn<J>>) -> Seq<J>
    decreases turns.len(),
{
    if turns.len() == 0 {
        Seq::empty()
    } else {
        let first = match turns[0].step() {
            Step::Run(job) => seq![job],
            _ => Seq::empty(),
        };
        if turns[0].continues() {
            first + served(turns.drop_first())
        } else {
            first
        }
    }
}

/// The jobs delivered in `turns`, in order.
pub open spec fn delivered<J>(turns: Seq<Turn<J>>) -> Seq<J>
    decreases turns.len(),
{
    if turns.len() == 0 {
        Seq::empty()
    } else {
        let first = match turns[0].request {
            Some(Request::Job(job)) => seq![job],
            _ => Seq::empty(),
        };
        first + delivered(turns.drop_first())
    }
}

/// Shutdown drains: when the isle is not aborting and no health check fails,
/// every job queued ahead of the shutdown request is run, in the order in which
/// it was queued, and no job behind it is.
pub proof fn shutdown_drains_queued_jobs<J>(
    ahead: Seq<Turn<J>>,
    shutdown: Turn<J>,
    behind: Seq<Turn<J>>,
)
    requires
        forall|i: int|
            0 <= i < ahead.len() ==> (#[trigger] ahead[i]).request matches Some(Request::Job(_)),
        forall|i: int| 0 <= i < ahead.len() ==> !(#[trigger] ahead[i]).aborting,
        forall|i: int|
            0 <= i < ahead.len() ==> (#[trigger] ahead[i]).outcome == JobOutcome::Completed
                || ahead[i].healthy,
        shutdown.request == Some(Request::<J>::Shutdown),
    ensures
        served(ahead + seq![shutdown] + behind) == delivered(ahead),
        served(ahead + seq![shutdown] + behind).len() == ahead.len(),
    decreases ahead.len(),
{
    let turns = ahead + seq![shutdown] + behind;
    if ahead.len() == 0 {
        assert(turns[0] == shutdown);
    } else {
        let rest = ahead.drop_first();
        assert(turns[0] == ahead[0]);
        assert(turns.drop_first() =~= rest + seq![shutdown] + behind);
        assert forall|i: int| 0 <= i < rest.len() implies {
            &&& (#[trigger] rest[i]).request matches Some(Request::Job(_))
            &&& !rest[i].aborting
            &&& rest[i].outcome == JobOutcome::Completed || rest[i].healthy
        } by {
            assert(rest[i] == ahead[i + 1]);
        }
        shutdown_drains_queued_jobs(rest, shutdown, behind);
    }
}

/// An aborting isle runs nothing: a job delivered while the abort flag is set
/// is dropped.
pub proof fn abort_discards_queued_jobs<J>(turns: Seq<Turn<J>>)
    requires
        forall|i: int| 0 <= i < turns.len() ==> (#[trigger] turns[i]).aborting,
    ensures
        served(turns).len() == 0,
    decreases turns.len(),
{
    if turns.len() > 0 {
        let rest = turns.drop_first();
        assert(turns[0].aborting);
        assert forall|i: int| 0 <= i < rest.len() implies (#[trigger] rest[i]).aborting by {
            assert(rest[i] == turns[i + 1]);
        }
        abort_discards_queued_jobs(rest);
    }
}

/// A broken connection serves nothing more: after a job that panicked and a
/// health check that failed, no further job is run.
pub proof fn failed_health_check_closes<J>(
    before: Seq<Turn<J>>,
    broken: Turn<J>,
    behind: Seq<Turn<J>>,
)
    requires
        broken.step() is Run,
        broken.outcome == JobOutcome::Panicked,
        !broken.healthy,
    ensures
        served(before + seq![broken] + behind) == served(before + seq![broken]),
    decreases before.len(),
{
    let turns = before + seq![broken] + behind;
    let short = before + seq![broken];
    assert(turns[0] == short[0]);
    if before.len() > 0 {
        let rest = before.drop_first();
        assert(turns.drop_first() =~= rest + seq![broken] + behind);
        assert(short.drop_first() =~= rest + seq![broken]);
        failed_health_check_closes(rest, broken, behind);
    }
}

/// Jobs are run at most once and in the order of delivery: what the loop runs
/// is what was delivered, with some jobs left out.
pub proof fn jobs_are_served_in_order<J>(turns: Seq<Turn<J>>)
    ensures
        is_subsequence(served(turns), delivered(turns)),
    decreases turns.len(),
{
    if turns.len() > 0 {
        let rest = turns.drop_first();
        jobs_are_served_in_order(rest);
        let tail = served(rest);
        match turns[0].request {
            Some(Request::Job(job)) => {
                if turns[0].aborting {
                    assert(served(turns) =~= tail);
                    assert(delivered(turns).drop_first() =~= delivered(rest));
                    assert(is_subsequence(tail, delivered(turns)));
                } else {
                    let all = delivered(turns);
                    let kept = served(turns);
                    assert(all[0] == job && kept[0] == job);
                    assert(all.drop_first() =~= delivered(rest));
                    if turns[0].continues() {
                        assert(kept.drop_first() =~= tail);
                    } else {
                        assert(kept.drop_first() =~= Seq::empty());
                    }
                    assert(is_subsequence(kept.drop_first(), all.drop_first()));
                    assert(is_subsequence(kept, all));
                }
            },
            _ => {},
        }
    }
}

/// `part` is `whole` with some elements left out.
pub open spec fn is_subsequence<J>(part: Seq<J>, whole: Seq<J>) -> bool
    decreases whole.len(),
{
    if part.len() == 0 {
        true
    } else if whole.len() == 0 {
        false
    } else {
        ||| part[0] == whole[0] && is_subsequence(part.drop_first(), whole.drop_first())
        ||| is_subsequence(part, whole.drop_first())
    }
}

/// What the loop does to the world, as a log keeps it.
pub enum LoopEffect<J> {
    /// A job was run.
    Ran(J),
    /// A job was dropped.
    Discarded(J),
}

/// A job that is delivered is either run, once, or dropped, once, and no other job
/// is touched in its turn. So a dropped job is never run, and answers nobody.
///
/// This holds in any world, of which `log` says what was done to it.
pub proof fn delivered_job_is_run_or_dropped<W, J, N, B, R, X, H>(
    world: W,
    log: spec_fn(W) -> Seq<LoopEffect<J>>,
    next: N,
    aborting: B,
    run: R,
    discard: X,
    healthy: H,
    turn: Turn<J>,
    after: W,
) where
    N: Fn(W) -> (W, Option<Request<J>>),
    B: Fn(W) -> (W, bool),
    R: Fn(W, J) -> (W, JobOutcome),
    X: Fn(W, J) -> W,
    H: Fn(W) -> (W, bool),

    requires
        serves(world, next, aborting, run, discard, healthy, turn, after),
        forall|w: W, w1: W, r: Option<Request<J>>| #[trigger]
            next.ensures((w,), (w1, r)) ==> log(w1) == log(w),
        forall|w: W, w1: W, b: bool| #[trigger]
            aborting.ensures((w,), (w1, b)) ==> log(w1) == log(w),
        forall|w: W, job: J, w1: W, o: JobOutcome| #[trigger]
            run.ensures((w, job), (w1, o)) ==> log(w1) == log(w).push(LoopEffect::Ran(job)),
        forall|w: W, job: J, w1: W| #[trigger]
            discard.ensures((w, job), w1) ==> log(w1) == log(w).push(LoopEffect::Discarded(job)),
        forall|w: W, w1: W, b: bool| #[trigger]
            healthy.ensures((w,), (w1, b)) ==> log(w1) == log(w),
    ensures
        log(after) == match turn.step() {
            Step::Exit => log(world),
            Step::Discard(job) => log(world).push(LoopEffect::Discarded(job)),
            Step::Run(job) => log(world).push(LoopEffect::Ran(job)),
        },
{
}

} // verus!

//! Jobs as their callers see them: submission, the reply, the deadline, the cancel.
use vstd::prelude::*;

use crate::async_isle::{AsyncIsle, CallStep};
use crate::async_task::{AsyncTask, Polled};
use crate::error::IsleError;
use crate::handle::{after_deadline, Admission, Isle, Waited};
use crate::task::{resolve, Task};
use crate::token::{CancelToken, Reason, TokenOp};
use crate::worker::Request;

verus! {

/// The caller of a job is told the job's reply itself, whatever it is, and that the
/// isle is closed only where there is none.
pub proof fn reply_is_passed_on<T>(
    reply: Option<Result<T, IsleError>>,
    result: Result<T, IsleError>,
)
    requires
        call_ensures(resolve::<T>, (reply,), result),
    ensures
        reply matches Some(r) ==> result == r,
        reply is None ==> result == Err::<T, IsleError>(IsleError::Closed),
{
}

/// A call with a deadline whose reply comes in time returns that reply itself,
/// whatever it is. It gives up waiting if and only if the deadline elapsed, and
/// reports a closed isle where the SQLite thread is gone. So it never makes up an
/// [`IsleError::Timeout`] of its own.
pub proof fn reply_in_time_is_returned<T>(
    waited: Waited<T>,
    result: Option<Result<T, IsleError>>,
)
    requires
        call_ensures(after_deadline::<T>, (waited,), result),
    ensures
        waited matches Waited::Reply(r) ==> result == Some(r),
        waited is Elapsed <==> result is None,
        waited is Disconnected ==> result == Some(Err::<T, IsleError>(IsleError::Closed)),
        result == Some(Err::<T, IsleError>(IsleError::Timeout)) ==> waited == Waited::Reply(
            Err::<T, IsleError>(IsleError::Timeout),
        ),
{
}

/// A task waits for the reply on the receiver that it was made with, and returns the
/// reply itself; without one it reports a closed isle.
pub proof fn task_waits_for_its_reply<W, R, T, F>(
    rx: R,
    token: CancelToken,
    task: Task<R>,
    world: W,
    recv: F,
    out: (W, Result<T, IsleError>),
) where F: FnOnce(W, R) -> (W, Option<Result<T, IsleError>>)
    requires
        call_ensures(Task::<R>::new, (rx, token), task),
        call_ensures(Task::<R>::wait::<W, T, F>, (task, world, recv), out),
    ensures
        exists|reply: Option<Result<T, IsleError>>| #[trigger]
            recv.ensures((world, rx), (out.0, reply)) && {
                &&& reply matches Some(r) ==> out.1 == r
                &&& reply is None ==> out.1 == Err::<T, IsleError>(IsleError::Closed)
            },
{
}

/// A poll of a task is a poll of the receiver that it was made with, and a cancel of it
/// a cancel of the token that it was made with.
pub proof fn task_is_its_receiver_and_its_token<R, T, F>(
    rx: R,
    token: CancelToken,
    task: Task<R>,
    poll: F,
    polled: Option<Result<T, IsleError>>,
    shown: &R,
    lent: &CancelToken,
) where F: FnOnce(&R) -> Option<Result<T, IsleError>>
    requires
        call_ensures(Task::<R>::new, (rx, token), task),
    ensures
        call_ensures(Task::<R>::try_recv::<T, F>, (&task, poll), polled) ==> poll.ensures(
            (&rx,),
            polled,
        ),
        call_ensures(Task::<R>::rx_ref, (&task,), shown) ==> *shown == rx,
        call_ensures(Task::<R>::cancel_token, (&task,), lent) ==> *lent == token,
        call_ensures(Task::<R>::cancel, (&task,), ()) ==> token.made(
            TokenOp::Fire(Reason::Cancelled),
        ),
{
}

/// An async task that finds a reply resolves to that reply itself, whatever it is. It
/// is pending if and only if its channel is, and reports a closed isle only where the
/// sender is gone without a reply. Polling changes neither its token nor whether it is
/// detached.
pub proof fn polled_task_resolves_to_its_reply<R, T, P>(poll: P, found: Polled<T>) where
    P: FnOnce(&mut R) -> Polled<T>,

    requires
        forall|rx: &mut R, polled: Polled<T>| #[trigger]
            poll.ensures((rx,), polled) ==> polled == found,
    ensures
        forall|task: &mut AsyncTask<R>, result: Option<Result<T, IsleError>>| #[trigger]
            call_ensures(AsyncTask::<R>::poll::<T, P>, (task, poll), result) ==> {
                &&& found matches Polled::Reply(r) ==> result == Some(r)
                &&& found is Pending <==> result is None
                &&& found is Disconnected ==> result == Some(
                    Err::<T, IsleError>(IsleError::Closed),
                )
                &&& final(task).token() == task.token()
                &&& final(task).is_detached() == task.is_detached()
            },
{
}

/// What a poll of an async task gives comes from one poll of its own receiver: a reply
/// that was there is the result, and an error that nobody replied is a closed isle.
pub proof fn polled_task_makes_nothing_up<R, T, P>(poll: P) where P: FnOnce(&mut R) -> Polled<T>
    ensures
        forall|task: &mut AsyncTask<R>, result: Option<Result<T, IsleError>>| #[trigger]
            call_ensures(AsyncTask::<R>::poll::<T, P>, (task, poll), result) ==> exists|
                rx: &mut R,
                polled: Polled<T>,
            | #[trigger]
                poll.ensures((rx,), polled) && {
                    &&& *rx == task.receiver()
                    &&& *final(rx) == final(task).receiver()
                    &&& polled matches Polled::Reply(r) ==> result == Some(r)
                    &&& polled is Pending ==> result is None
                    &&& polled is Disconnected ==> result == Some(
                        Err::<T, IsleError>(IsleError::Closed),
                    )
                },
{
}

/// An async task that is dropped fires the token that it was made with, for a cancel,
/// unless it was detached: then nothing happens.
pub proof fn dropped_task_fires_its_token<W, R, F>(
    rx: R,
    token: CancelToken,
    task: AsyncTask<R>,
    world: W,
    fire: F,
    after: W,
) where F: FnOnce(W, &CancelToken, Reason) -> W
    requires
        call_ensures(AsyncTask::<R>::new, (rx, token), task),
        call_ensures(AsyncTask::<R>::release::<W, F>, (&task, world, fire), after),
    ensures
        fire.ensures((world, &token, Reason::Cancelled), after),
{
}

/// A detached task is left alone when it is dropped, and keeps its receiver and its
/// token.
pub proof fn detached_task_is_left_alone<W, R, F>(world: W, fire: F) where
    F: FnOnce(W, &CancelToken, Reason) -> W,

    ensures
        forall|task: &mut AsyncTask<R>, after: W|
            #![trigger
                call_ensures(AsyncTask::<R>::detach, (task,), ()),
                call_ensures(AsyncTask::<R>::release::<W, F>, (&*final(task), world, fire), after)
            ]
            call_ensures(AsyncTask::<R>::detach, (task,), ()) ==> {
                &&& call_ensures(
                    AsyncTask::<R>::release::<W, F>,
                    (&*final(task), world, fire),
                    after,
                ) ==> after == world
                &&& final(task).receiver() == task.receiver()
                &&& final(task).token() == task.token()
            },
{
}

/// An async task cancels and lends the token that it was made with.
pub proof fn async_task_is_its_receiver_and_its_token<R>(
    rx: R,
    token: CancelToken,
    task: AsyncTask<R>,
    lent: &CancelToken,
)
    requires
        call_ensures(AsyncTask::<R>::new, (rx, token), task),
    ensures
        task.receiver() == rx,
        call_ensures(AsyncTask::<R>::cancel_token, (&task,), lent) ==> *lent == token,
        call_ensures(AsyncTask::<R>::cancel, (&task,), ()) ==> token.made(
            TokenOp::Fire(Reason::Cancelled),
        ),
{
}

/// What a submission that does not wait is told: it is accepted, or the channel is
/// full, or the isle is closed, and these are three different answers.
pub proof fn admissions_are_told_apart(admission: Admission, result: Result<(), IsleError>)
    requires
        call_ensures(Admission::result, (admission,), result),
    ensures
        admission is Accepted <==> result is Ok,
        admission is Full <==> result == Err::<(), IsleError>(IsleError::QueueFull),
        admission is Disconnected <==> result == Err::<(), IsleError>(IsleError::Closed),
{
}

/// A job and its task belong together: the job obeys the token that the task cancels,
/// which was made unfired, and replies into the channel that the task receives from.
pub proof fn job_and_task_belong_together<K, J, P, R, C, M>(
    channel: C,
    make: M,
    out: (J, Task<R>, CancelToken),
    async_out: (J, AsyncTask<R>),
) where C: FnOnce() -> (P, R), M: FnOnce(CancelToken, P) -> J
    ensures
        call_ensures(Isle::<K>::make_job_task::<J, P, R, C, M>, (channel, make), out) ==> {
            &&& exists|p: P| #[trigger]
                channel.ensures((), (p, out.1.receiver())) && make.ensures(
                    (out.1.token(), p),
                    out.0,
                )
            &&& out.2 == out.1.token()
            &&& out.1.token().began_unfired()
        },
        call_ensures(AsyncIsle::make_job_task::<J, P, R, C, M>, (channel, make), async_out) ==> {
            &&& exists|p: P| #[trigger]
                channel.ensures((), (p, async_out.1.receiver())) && make.ensures(
                    (async_out.1.token(), p),
                    async_out.0,
                )
            &&& async_out.1.token().began_unfired()
            &&& !async_out.1.is_detached()
        },
{
}

/// A call sends its job, once, and waits for the reply on the channel that the job
/// replies into: the reply itself is its result, whatever it is. It reports a closed
/// isle if the job could not be sent, without waiting, or if no reply comes.
pub proof fn call_returns_the_reply<W, K, J, P, R, T, C, M, S, V>(
    world: W,
    channel: C,
    make: M,
    send: S,
    recv: V,
    out: (W, Result<T, IsleError>),
) where
    C: FnOnce() -> (P, R),
    M: FnOnce(CancelToken, P) -> J,
    S: FnOnce(W, Request<J>) -> (W, bool),
    V: FnOnce(W, R) -> (W, Option<Result<T, IsleError>>),

    requires
        call_ensures(
            Isle::<K>::call::<W, J, P, R, T, C, M, S, V>,
            (world, channel, make, send, recv),
            out,
        ),
    ensures
        exists|token: CancelToken, p: P, rx: R, job: J, w1: W, sent: bool|
            token.began_unfired() && #[trigger] channel.ensures((), (p, rx)) && #[trigger]
            make.ensures((token, p), job) && #[trigger] send.ensures(
                (world, Request::Job(job)),
                (w1, sent),
            ) && {
                &&& !sent ==> out == (w1, Err::<T, IsleError>(IsleError::Closed))
                &&& sent ==> exists|reply: Option<Result<T, IsleError>>| #[trigger]
                    recv.ensures((w1, rx), (out.0, reply)) && {
                        &&& reply matches Some(r) ==> out.1 == r
                        &&& reply is None ==> out.1 == Err::<T, IsleError>(IsleError::Closed)
                    }
            },
{
}

/// A call with a deadline sends its job, once, and waits for the reply. A reply that
/// comes in time is its result, whatever it is, and the token is left alone. If the
/// deadline elapses first, the job's own token is fired for a timeout, and the reply
/// that then comes on the same channel is the result. It reports a closed isle if the
/// job could not be sent or no reply comes.
pub proof fn call_with_a_deadline_returns_the_reply<W, K, J, P, R, T, C, M, S, D, E, V>(
    world: W,
    channel: C,
    make: M,
    send: S,
    recv_timeout: D,
    fire: E,
    recv: V,
    out: (W, Result<T, IsleError>),
) where
    C: FnOnce() -> (P, R),
    M: FnOnce(CancelToken, P) -> J,
    S: FnOnce(W, Request<J>) -> (W, bool),
    D: FnOnce(W, &R) -> (W, Waited<T>),
    E: FnOnce(W, &CancelToken, Reason) -> W,
    V: FnOnce(W, R) -> (W, Option<Result<T, IsleError>>),

    requires
        call_ensures(
            Isle::<K>::call_timeout::<W, J, P, R, T, C, M, S, D, E, V>,
            (world, channel, make, send, recv_timeout, fire, recv),
            out,
        ),
    ensures
        exists|token: CancelToken, p: P, rx: R, job: J, w1: W, sent: bool|
            token.began_unfired() && #[trigger] channel.ensures((), (p, rx)) && #[trigger]
            make.ensures((token, p), job) && #[trigger] send.ensures(
                (world, Request::Job(job)),
                (w1, sent),
            ) && {
                &&& !sent ==> out == (w1, Err::<T, IsleError>(IsleError::Closed))
                &&& sent ==> exists|w2: W, waited: Waited<T>| #[trigger]
                    recv_timeout.ensures((w1, &rx), (w2, waited)) && {
                        &&& waited matches Waited::Reply(r) ==> out == (w2, r)
                        &&& waited is Disconnected ==> out == (
                            w2,
                            Err::<T, IsleError>(IsleError::Closed),
                        )
                        &&& waited is Elapsed ==> exists|
                            w3: W,
                            reply: Option<Result<T, IsleError>>,
                        | #[trigger]
                            fire.ensures((w2, &token, Reason::Timeout), w3) && #[trigger]
                            recv.ensures((w3, rx), (out.0, reply)) && {
                                &&& reply matches Some(r) ==> out.1 == r
                                &&& reply is None ==> out.1 == Err::<T, IsleError>(
                                    IsleError::Closed,
                                )
                            }
                    }
            },
{
}

/// A submission that waits for capacity sends its job, once. It gets the job's own task
/// if the job was sent, and otherwise reports a closed isle.
pub proof fn spawned_job_has_its_task<W, K, J, P, R, C, M, S>(
    world: W,
    channel: C,
    make: M,
    send: S,
    out: (W, Result<Task<R>, IsleError>),
) where
    C: FnOnce() -> (P, R),
    M: FnOnce(CancelToken, P) -> J,
    S: FnOnce(W, Request<J>) -> (W, bool),

    requires
        call_ensures(
            Isle::<K>::spawn_call::<W, J, P, R, C, M, S>,
            (world, channel, make, send),
            out,
        ),
    ensures
        exists|token: CancelToken, p: P, rx: R, job: J, sent: bool|
            token.began_unfired() && #[trigger] channel.ensures((), (p, rx)) && #[trigger]
            make.ensures((token, p), job) && #[trigger] send.ensures(
                (world, Request::Job(job)),
                (out.0, sent),
            ) && {
                &&& !sent ==> out.1 == Err::<Task<R>, IsleError>(IsleError::Closed)
                &&& sent ==> (out.1 matches Ok(task) && task.receiver() == rx && task.token()
                    == token)
            },
{
}

/// A submission that does not wait offers its job, once. It gets the job's own task if
/// the job was accepted, and otherwise is told that the channel is full, or that the
/// isle is closed, whichever it is.
pub proof fn offered_job_has_its_task<W, K, J, P, R, C, M, S>(
    world: W,
    channel: C,
    make: M,
    try_send: S,
    out: (W, Result<Task<R>, IsleError>),
    async_out: (W, Result<AsyncTask<R>, IsleError>),
) where
    C: FnOnce() -> (P, R),
    M: FnOnce(CancelToken, P) -> J,
    S: FnOnce(W, Request<J>) -> (W, Admission),

    ensures
        call_ensures(
            Isle::<K>::try_call::<W, J, P, R, C, M, S>,
            (world, channel, make, try_send),
            out,
        ) ==> exists|token: CancelToken, p: P, rx: R, job: J, admission: Admission|
            token.began_unfired() && #[trigger] channel.ensures((), (p, rx)) && #[trigger]
            make.ensures((token, p), job) && #[trigger] try_send.ensures(
                (world, Request::Job(job)),
                (out.0, admission),
            ) && {
                &&& admission is Full ==> out.1 == Err::<Task<R>, IsleError>(IsleError::QueueFull)
                &&& admission is Disconnected ==> out.1 == Err::<Task<R>, IsleError>(
                    IsleError::Closed,
                )
                &&& admission is Accepted ==> (out.1 matches Ok(task) && task.receiver() == rx
                    && task.token() == token)
            },
        call_ensures(
            AsyncIsle::try_call::<W, J, P, R, C, M, S>,
            (world, channel, make, try_send),
            async_out,
        ) ==> exists|token: CancelToken, p: P, rx: R, job: J, admission: Admission|
            token.began_unfired() && #[trigger] channel.ensures((), (p, rx)) && #[trigger]
            make.ensures((token, p), job) && #[trigger] try_send.ensures(
                (world, Request::Job(job)),
                (async_out.0, admission),
            ) && {
                &&& admission is Full ==> async_out.1 == Err::<AsyncTask<R>, IsleError>(
                    IsleError::QueueFull,
                )
                &&& admission is Disconnected ==> async_out.1 == Err::<AsyncTask<R>, IsleError>(
                    IsleError::Closed,
                )
                &&& admission is Accepted ==> (async_out.1 matches Ok(task) && task.receiver() == rx
                    && task.token() == token && !task.is_detached())
            },
{
}

/// An async job that is spawned always has a task, which is not detached: its own if it
/// was accepted, and otherwise one that already holds why it was not.
pub proof fn spawned_async_job_has_a_task<W, J, P, R, C, M, S, X>(
    world: W,
    channel: C,
    make: M,
    try_send: S,
    failed: X,
    out: (W, AsyncTask<R>),
) where
    C: FnOnce() -> (P, R),
    M: FnOnce(CancelToken, P) -> J,
    S: FnOnce(W, Request<J>) -> (W, Admission),
    X: FnOnce(IsleError) -> R,

    requires
        call_ensures(
            AsyncIsle::spawn_call::<W, J, P, R, C, M, S, X>,
            (world, channel, make, try_send, failed),
            out,
        ),
    ensures
        !out.1.is_detached(),
        out.1.token().began_unfired(),
        exists|token: CancelToken, p: P, rx: R, job: J, admission: Admission|
            token.began_unfired() && #[trigger] channel.ensures((), (p, rx)) && #[trigger]
            make.ensures((token, p), job) && #[trigger] try_send.ensures(
                (world, Request::Job(job)),
                (out.0, admission),
            ) && {
                &&& admission is Full ==> failed.ensures((IsleError::QueueFull,), out.1.receiver())
                &&& admission is Disconnected ==> failed.ensures(
                    (IsleError::Closed,),
                    out.1.receiver(),
                )
                &&& admission is Accepted ==> out.1.receiver() == rx && out.1.token() == token
            },
{
}

/// An async call awaits its reply if and only if its job was sent; otherwise it returns
/// that the isle is closed.
pub proof fn async_call_awaits_what_it_sent<T>(sent: bool, step: CallStep<T>)
    requires
        call_ensures(AsyncIsle::call::<T>, (sent,), step),
    ensures
        sent ==> step is Await,
        !sent ==> step == CallStep::Return(Err::<T, IsleError>(IsleError::Closed)),
{
}

/// An async call with a deadline returns a reply that comes in time, whatever it is,
/// and leaves the token alone. If the deadline elapses first, it fires the task's own
/// token for a timeout and awaits the reply. It returns that the isle is closed where
/// the SQLite thread is gone.
pub proof fn async_call_with_a_deadline_returns_the_reply<W, R, T, E>(
    world: W,
    task: AsyncTask<R>,
    waited: Waited<T>,
    fire: E,
    out: (W, CallStep<T>),
) where E: FnOnce(W, &CancelToken, Reason) -> W
    requires
        call_ensures(
            AsyncIsle::call_timeout::<W, R, T, E>,
            (world, &task, waited, fire),
            out,
        ),
    ensures
        waited matches Waited::Reply(r) ==> out == (world, CallStep::Return(r)),
        waited is Disconnected ==> out == (
            world,
            CallStep::Return(Err::<T, IsleError>(IsleError::Closed)),
        ),
        waited is Elapsed ==> out.1 is Await && fire.ensures(
            (world, &task.token(), Reason::Timeout),
            out.0,
        ),
{
}

} // verus!

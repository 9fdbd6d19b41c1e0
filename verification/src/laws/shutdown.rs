//! The end of an isle.
use vstd::prelude::*;

use crate::async_isle::{AsyncIsleDriver, ShutdownAction, ShutdownScript};
use crate::error::IsleError;
use crate::handle::{join_result, Isle};
use crate::worker::Request;

verus! {

/// A thread that was joined is reported if and only if it panicked.
pub proof fn panicked_thread_is_reported(clean: bool, result: Result<(), IsleError>)
    requires
        call_ensures(join_result, (clean,), result),
    ensures
        clean ==> result is Ok,
        !clean ==> (result matches Err(IsleError::Panicked(message)) && message@
            == "sqlite thread panicked"@),
{
}

/// A shutdown queues the shutdown request, once and whether or not it is received, and
/// only then takes the thread. A thread that is there is joined, and reported if it
/// panicked; without one there is nothing left to do, and that is fine. A lock that is
/// poisoned is reported with its message.
pub proof fn shutdown_joins_the_thread<W, J, K, S, X, Y>(
    world: W,
    send: S,
    take_thread: X,
    join: Y,
    out: (W, Result<(), IsleError>),
) where
    S: FnOnce(W, Request<J>) -> (W, bool),
    X: FnOnce(W) -> (W, Result<Option<K>, String>),
    Y: FnOnce(W, K) -> (W, bool),

    requires
        call_ensures(
            Isle::<K>::shutdown::<W, J, S, X, Y>,
            (world, send, take_thread, join),
            out,
        ),
    ensures
        exists|w1: W, sent: bool, w2: W, taken: Result<Option<K>, String>| #[trigger]
            send.ensures((world, Request::<J>::Shutdown), (w1, sent)) && #[trigger]
            take_thread.ensures((w1,), (w2, taken)) && {
                &&& taken matches Err(message) ==> out == (
                    w2,
                    Err::<(), IsleError>(IsleError::Panicked(message)),
                )
                &&& taken == Ok::<Option<K>, String>(None) ==> out.0 == w2 && out.1 is Ok
                &&& taken matches Ok(Some(k)) ==> exists|clean: bool| #[trigger]
                    join.ensures((w2, k), (out.0, clean)) && {
                        &&& clean ==> out.1 is Ok
                        &&& !clean ==> (out.1 matches Err(IsleError::Panicked(message)) && message@
                            == "sqlite thread panicked"@)
                    }
            },
{
}

/// An isle hands the thread that it was made with out once, and none after that; it is
/// alive until then, for as long as the thread has not finished.
pub proof fn thread_is_taken_once<K, F>(thread: K, finished: F) where F: FnOnce(&K) -> bool
    ensures
        forall|isle: &mut Isle<K>, first: Option<K>, again: &mut Isle<K>, second: Option<K>|
            call_ensures(Isle::<K>::new, (thread,), *isle) && #[trigger] call_ensures(
                Isle::<K>::take_thread,
                (isle,),
                first,
            ) && *again == *final(isle) && #[trigger] call_ensures(
                Isle::<K>::take_thread,
                (again,),
                second,
            ) ==> first == Some(thread) && second is None,
        forall|isle: Isle<K>, alive: bool|
            call_ensures(Isle::<K>::new, (thread,), isle) && #[trigger] call_ensures(
                Isle::<K>::is_alive::<F>,
                (&isle, finished),
                alive,
            ) ==> finished.ensures((&thread,), !alive),
        forall|isle: &mut Isle<K>, first: Option<K>, alive: bool|
            #[trigger] call_ensures(Isle::<K>::take_thread, (isle,), first) && #[trigger]
            call_ensures(Isle::<K>::is_alive::<F>, (&*final(isle), finished), alive) ==> !alive,
{
}

/// An async isle is alive for as long as the thread of its driver has not finished.
pub proof fn driver_knows_whether_its_thread_lives<D, K, F>(
    signal: D,
    thread: K,
    driver: AsyncIsleDriver<D, K>,
    finished: F,
    alive: bool,
) where F: FnOnce(&K) -> bool
    requires
        call_ensures(AsyncIsleDriver::<D, K>::new, (signal, thread), driver),
        call_ensures(AsyncIsleDriver::<D, K>::is_alive::<F>, (&driver, finished), alive),
    ensures
        finished.ensures((&thread,), !alive),
{
}

/// What an async shutdown returns: a thread that was joined is reported if and only if
/// it panicked, and without one there is nothing to report.
pub proof fn async_shutdown_reports_a_panicked_thread<D, K>(
    joined: Option<bool>,
    result: Result<(), IsleError>,
)
    requires
        call_ensures(AsyncIsleDriver::<D, K>::outcome, (joined,), result),
    ensures
        joined != Some(false) ==> result is Ok,
        joined == Some(false) ==> (result matches Err(IsleError::Panicked(message)) && message@
            == "sqlite thread panicked"@),
{
}

/// A graceful async shutdown queues the shutdown request, then awaits the thread's own
/// completion signal, then joins the thread, and is then done.
pub proof fn graceful_shutdown_step_by_step<D, K>(
    signal: D,
    thread: K,
    driver: AsyncIsleDriver<D, K>,
    script: ShutdownScript<D, K>,
)
    requires
        call_ensures(AsyncIsleDriver::<D, K>::new, (signal, thread), driver),
        call_ensures(AsyncIsleDriver::<D, K>::shutdown, (driver,), script),
    ensures
        forall|
            s1: &mut ShutdownScript<D, K>,
            a1: Option<ShutdownAction<D, K>>,
            s2: &mut ShutdownScript<D, K>,
            a2: Option<ShutdownAction<D, K>>,
            s3: &mut ShutdownScript<D, K>,
            a3: Option<ShutdownAction<D, K>>,
            s4: &mut ShutdownScript<D, K>,
            a4: Option<ShutdownAction<D, K>>,
        |
            *s1 == script && *s2 == *final(s1) && *s3 == *final(s2) && *s4 == *final(s3)
                && #[trigger] call_ensures(ShutdownScript::<D, K>::next, (s1,), a1) && #[trigger]
            call_ensures(ShutdownScript::<D, K>::next, (s2,), a2) && #[trigger] call_ensures(
                ShutdownScript::<D, K>::next,
                (s3,),
                a3,
            ) && #[trigger] call_ensures(ShutdownScript::<D, K>::next, (s4,), a4) ==> {
                &&& a1 == Some(ShutdownAction::<D, K>::SendShutdown)
                &&& a2 == Some(ShutdownAction::<D, K>::AwaitDone(signal))
                &&& a3 == Some(ShutdownAction::<D, K>::Join(thread))
                &&& a4 is None
            },
{
    let steps = seq![
        ShutdownAction::<D, K>::SendShutdown,
        ShutdownAction::AwaitDone(signal),
        ShutdownAction::Join(thread),
    ];
    assert(script.remaining() =~= steps);
    first_of_the_rest::<D, K>();
}

/// An immediate async shutdown sets the isle to abort, then interrupts its connection,
/// and only then queues the shutdown request, awaits the thread's own completion signal
/// and joins the thread.
pub proof fn immediate_shutdown_step_by_step<D, K>(
    signal: D,
    thread: K,
    driver: AsyncIsleDriver<D, K>,
    script: ShutdownScript<D, K>,
)
    requires
        call_ensures(AsyncIsleDriver::<D, K>::new, (signal, thread), driver),
        call_ensures(AsyncIsleDriver::<D, K>::shutdown_now, (driver,), script),
    ensures
        forall|
            s1: &mut ShutdownScript<D, K>,
            a1: Option<ShutdownAction<D, K>>,
            s2: &mut ShutdownScript<D, K>,
            a2: Option<ShutdownAction<D, K>>,
            s3: &mut ShutdownScript<D, K>,
            a3: Option<ShutdownAction<D, K>>,
            s4: &mut ShutdownScript<D, K>,
            a4: Option<ShutdownAction<D, K>>,
            s5: &mut ShutdownScript<D, K>,
            a5: Option<ShutdownAction<D, K>>,
            s6: &mut ShutdownScript<D, K>,
            a6: Option<ShutdownAction<D, K>>,
        |
            *s1 == script && *s2 == *final(s1) && *s3 == *final(s2) && *s4 == *final(s3) && *s5
                == *final(s4) && *s6 == *final(s5) && #[trigger] call_ensures(
                ShutdownScript::<D, K>::next,
                (s1,),
                a1,
            ) && #[trigger] call_ensures(ShutdownScript::<D, K>::next, (s2,), a2) && #[trigger]
            call_ensures(ShutdownScript::<D, K>::next, (s3,), a3) && #[trigger] call_ensures(
                ShutdownScript::<D, K>::next,
                (s4,),
                a4,
            ) && #[trigger] call_ensures(ShutdownScript::<D, K>::next, (s5,), a5) && #[trigger]
            call_ensures(ShutdownScript::<D, K>::next, (s6,), a6) ==> {
                &&& a1 == Some(ShutdownAction::<D, K>::SetAbort)
                &&& a2 == Some(ShutdownAction::<D, K>::Interrupt)
                &&& a3 == Some(ShutdownAction::<D, K>::SendShutdown)
                &&& a4 == Some(ShutdownAction::<D, K>::AwaitDone(signal))
                &&& a5 == Some(ShutdownAction::<D, K>::Join(thread))
                &&& a6 is None
            },
{
    let steps = seq![
        ShutdownAction::<D, K>::SetAbort,
        ShutdownAction::Interrupt,
        ShutdownAction::SendShutdown,
        ShutdownAction::AwaitDone(signal),
        ShutdownAction::Join(thread),
    ];
    assert(script.remaining() =~= steps);
    first_of_the_rest::<D, K>();
}

proof fn first_of_the_rest<D, K>()
    ensures
        forall|script: &mut ShutdownScript<D, K>, action: Option<ShutdownAction<D, K>>| #[trigger]
            call_ensures(ShutdownScript::<D, K>::next, (script,), action) ==> {
                let rest = script.remaining();
                &&& rest.len() == 0 <==> action is None
                &&& rest.len() > 0 ==> action == Some(rest[0]) && final(script).remaining()
                    == rest.drop_first()
            },
{
    assert forall|script: &mut ShutdownScript<D, K>, action: Option<ShutdownAction<D, K>>|
        #[trigger] call_ensures(ShutdownScript::<D, K>::next, (script,), action) implies {
        let rest = script.remaining();
        &&& rest.len() == 0 <==> action is None
        &&& rest.len() > 0 ==> action == Some(rest[0]) && final(script).remaining()
            == rest.drop_first()
    } by {
        let rest = script.remaining();
        if let Some(a) = action {
            assert(rest == seq![a] + final(script).remaining());
            assert(rest.drop_first() =~= final(script).remaining());
        }
    }
}

} // verus!

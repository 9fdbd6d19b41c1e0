//! The pool as its users see it: what a checkout gets, and what becomes of an isle that is
//! given back.
use vstd::prelude::*;

use crate::error::IsleError;
use crate::job::PanicPayload;
use crate::pool::{
    acquires, acquisition, last_alive, returned_isle_is_reused, tries, tries_until, turns,
    turns_until, waits, waits_until, Acquired, IslePool, Made, PoolConfig, PoolView, Returned,
};

verus! {

/// A pool with room for no isle is refused. Any other starts empty and open, with room
/// for as many isles as it was configured for.
pub proof fn pool_starts_empty<I>(config: PoolConfig, pool: Result<IslePool<I>, IsleError>)
    requires
        call_ensures(IslePool::<I>::new, (config,), pool),
    ensures
        config.max_size == 0 ==> pool == Err::<IslePool<I>, IsleError>(IsleError::Closed),
        config.max_size > 0 ==> {
            &&& pool matches Ok(p)
            &&& p@.idle.len() == 0
            &&& p@.active == 0
            &&& !p@.closed
            &&& p@.max_size == config.max_size
        },
{
}

/// The two counters count the isles that are checked out and those that are idle.
pub proof fn counters_count<I>(pool: IslePool<I>, n: usize)
    ensures
        call_ensures(IslePool::<I>::active, (&pool,), n) ==> n == pool@.active,
        call_ensures(IslePool::<I>::idle, (&pool,), n) ==> n == pool@.idle.len(),
{
}

/// An isle that is given back to an open pool, and of which `alive` cannot say that it is
/// dead, is kept as the last idle one, however many there are. One of which `alive`
/// cannot say that it lives is handed back to be dropped, and the idle isles stay as they
/// are.
pub proof fn living_isle_is_kept<I, A>(isle: I, alive: A) where A: FnOnce(&I) -> bool
    ensures
        forall|pool: &mut IslePool<I>, kept: Returned<I>| #[trigger]
            call_ensures(IslePool::<I>::return_isle::<A>, (pool, isle, alive), kept)
                && !pool@.closed ==> {
                &&& !alive.ensures((&isle,), false) ==> kept is Kept && final(pool)@.idle
                    == pool@.idle.push(isle)
                &&& !alive.ensures((&isle,), true) ==> kept == Returned::Dropped(isle)
                    && final(pool)@.idle == pool@.idle
                &&& kept is Kept ==> final(pool)@.idle == pool@.idle.push(isle)
                &&& !(kept is Kept) ==> kept == Returned::Dropped(isle) && final(pool)@.idle
                    == pool@.idle
            },
{
}

/// An isle that is given back to a closed pool is handed back to be shut down, whether it
/// lives or not, and none is kept.
pub proof fn closed_pool_keeps_no_isle<I, A>(isle: I, alive: A) where A: FnOnce(&I) -> bool
    ensures
        forall|pool: &mut IslePool<I>, kept: Returned<I>| #[trigger]
            call_ensures(IslePool::<I>::return_isle::<A>, (pool, isle, alive), kept)
                && pool@.closed ==> kept == Returned::ShutDown(isle) && final(pool)@.idle
                == pool@.idle,
{
}

/// Giving an isle back, or giving up the place of one that could not be made, frees one
/// place, and changes neither the size of the pool nor whether it is closed.
pub proof fn giving_back_frees_a_place<I, A>(isle: I, alive: A) where A: FnOnce(&I) -> bool
    ensures
        forall|pool: &mut IslePool<I>, kept: Returned<I>| #[trigger]
            call_ensures(IslePool::<I>::return_isle::<A>, (pool, isle, alive), kept) ==> {
                &&& pool@.active > 0 ==> final(pool)@.active == pool@.active - 1
                &&& pool@.active == 0 ==> final(pool)@.active == 0
                &&& final(pool)@.closed == pool@.closed
                &&& final(pool)@.max_size == pool@.max_size
            },
        forall|pool: &mut IslePool<I>| #[trigger]
            call_ensures(IslePool::<I>::dec_active, (pool,), ()) ==> {
                &&& pool@.active > 0 ==> final(pool)@.active == pool@.active - 1
                &&& pool@.active == 0 ==> final(pool)@.active == 0
                &&& final(pool)@.idle == pool@.idle
                &&& final(pool)@.closed == pool@.closed
                &&& final(pool)@.max_size == pool@.max_size
            },
{
}

/// A shutdown closes the pool and hands out every idle isle; those that are checked out
/// still count.
pub proof fn shutdown_hands_out_the_idle_isles<I>()
    ensures
        forall|pool: &mut IslePool<I>, idle: Vec<I>| #[trigger]
            call_ensures(IslePool::<I>::shutdown, (pool,), idle) ==> {
                &&& idle@ == pool@.idle
                &&& final(pool)@.idle.len() == 0
                &&& final(pool)@.closed
                &&& final(pool)@.active == pool@.active
                &&& final(pool)@.max_size == pool@.max_size
            },
{
}

/// What the pool has for a checkout, where `living` says which isles `alive` finds alive.
///
/// A closed pool refuses, and stays as it is. Otherwise the living isle that was returned
/// last is handed out, with those below it left idle. If none lives, there is a place to
/// make one in while fewer isles are checked out than the pool may hold, and the caller
/// has to wait if not; no idle isle is left then. An isle or a place that is handed out
/// counts as checked out.
pub proof fn checkout_gets_the_last_living_isle<I, A>(alive: A, living: spec_fn(I) -> bool) where
    A: Fn(&I) -> bool,

    requires
        forall|isle: &I, answer: bool| #[trigger]
            alive.ensures((isle,), answer) ==> answer == living(*isle),
    ensures
        forall|pool: &mut IslePool<I>, got: Result<Acquired<I>, IsleError>| #[trigger]
            call_ensures(IslePool::<I>::take::<A>, (pool, alive), got) ==> {
                let idle = pool@.idle;
                &&& final(pool)@.closed == pool@.closed
                &&& final(pool)@.max_size == pool@.max_size
                &&& pool@.closed ==> {
                    &&& got == Err::<Acquired<I>, IsleError>(IsleError::Closed)
                    &&& final(pool)@.idle == idle
                    &&& final(pool)@.active == pool@.active
                }
                &&& forall|at: int|
                    !pool@.closed && 0 <= at < idle.len() && living(#[trigger] idle[at]) && (
                    forall|j: int| at < j < idle.len() ==> !living(#[trigger] idle[j])) ==> {
                        &&& got == Ok::<Acquired<I>, IsleError>(Acquired::Isle(idle[at]))
                        &&& final(pool)@.idle == idle.take(at)
                        &&& final(pool)@.active == pool@.active + 1
                    }
                &&& !pool@.closed && (forall|j: int|
                    0 <= j < idle.len() ==> !living(#[trigger] idle[j])) ==> {
                    &&& final(pool)@.idle.len() == 0
                    &&& pool@.active < pool@.max_size ==> {
                        &&& got == Ok::<Acquired<I>, IsleError>(Acquired::Spawn)
                        &&& final(pool)@.active == pool@.active + 1
                    }
                    &&& pool@.active >= pool@.max_size ==> {
                        &&& got == Ok::<Acquired<I>, IsleError>(Acquired::NeedWait)
                        &&& final(pool)@.active == pool@.active
                    }
                }
            },
{
    assert forall|pool: &mut IslePool<I>, got: Result<Acquired<I>, IsleError>, at: int|
        #![trigger call_ensures(IslePool::<I>::take::<A>, (pool, alive), got), pool@.idle[at]]
        call_ensures(IslePool::<I>::take::<A>, (pool, alive), got) && !pool@.closed && 0 <= at
            < pool@.idle.len() && living(pool@.idle[at]) && (forall|j: int|
            at < j < pool@.idle.len() ==> !living(#[trigger] pool@.idle[j])) implies {
        &&& got == Ok::<Acquired<I>, IsleError>(Acquired::Isle(pool@.idle[at]))
        &&& final(pool)@.idle == pool@.idle.take(at)
        &&& final(pool)@.active == pool@.active + 1
    } by {
        let idle = pool@.idle;
        assert(acquires(pool@, alive, final(pool)@, got->Ok_0));
        if let Acquired::Isle(isle) = got->Ok_0 {
            let found = choose|found: int| #[trigger]
                last_alive(idle, alive, found) && isle == idle[found] && final(pool)@ == (PoolView {
                    idle: idle.take(found),
                    active: pool@.active + 1,
                    ..pool@
                });
            if found < at {
                assert(idle.skip(found + 1)[at - found - 1] == idle[at]);
            }
        } else {
            assert(alive.ensures((&idle[at],), false));
        }
    }
}

/// Warm reuse, for any number of idle isles: an isle that lives and is given back to an
/// open pool is the one that the next checkout gets, and the two together leave the pool
/// as it was.
pub proof fn given_back_isle_is_reused<I, A>(isle: I, alive: A) where A: Fn(&I) -> bool
    requires
        !alive.ensures((&isle,), false),
    ensures
        forall|
            pool: &mut IslePool<I>,
            kept: Returned<I>,
            again: &mut IslePool<I>,
            got: Result<Acquired<I>, IsleError>,
        |
            #[trigger] call_ensures(IslePool::<I>::return_isle::<A>, (pool, isle, alive), kept)
                && !pool@.closed && pool@.active > 0 && *again == *final(pool) && #[trigger]
            call_ensures(IslePool::<I>::take::<A>, (again, alive), got) ==> {
                &&& got == Ok::<Acquired<I>, IsleError>(Acquired::Isle(isle))
                &&& final(again)@.idle == pool@.idle
                &&& final(again)@.active == pool@.active
                &&& !final(again)@.closed
            },
{
    assert forall|
        pool: &mut IslePool<I>,
        kept: Returned<I>,
        again: &mut IslePool<I>,
        got: Result<Acquired<I>, IsleError>,
    |
        #[trigger] call_ensures(IslePool::<I>::return_isle::<A>, (pool, isle, alive), kept)
            && !pool@.closed && pool@.active > 0 && *again == *final(pool) && #[trigger]
        call_ensures(IslePool::<I>::take::<A>, (again, alive), got) implies {
        &&& got == Ok::<Acquired<I>, IsleError>(Acquired::Isle(isle))
        &&& final(again)@.idle == pool@.idle
        &&& final(again)@.active == pool@.active
        &&& !final(again)@.closed
    } by {
        returned_isle_is_reused(pool@, isle, alive, again@, final(again)@, got->Ok_0);
    }
}

/// A checkout asked the pool once in `world`, which left `after`, and got `result`.
#[verifier::opaque]
pub open spec fn attempts<W, I, L, F, D>(
    world: W,
    locked: L,
    factory: F,
    give_up: D,
    after: W,
    result: Result<Option<I>, IsleError>,
) -> bool where
    L: Fn(W) -> (W, Result<Acquired<I>, IsleError>),
    F: Fn(W) -> (W, Made<I>),
    D: Fn(W) -> W,
 {
    exists|w1: W, got: Result<Acquired<I>, IsleError>| #[trigger]
        locked.ensures((world,), (w1, got)) && {
            &&& got matches Err(e) ==> after == w1 && result == Err::<Option<I>, IsleError>(e)
            &&& got matches Ok(Acquired::Isle(isle)) ==> after == w1 && result == Ok::<
                Option<I>,
                IsleError,
            >(Some(isle))
            &&& got == Ok::<Acquired<I>, IsleError>(Acquired::NeedWait) ==> after == w1 && result
                == Ok::<Option<I>, IsleError>(None)
            &&& got == Ok::<Acquired<I>, IsleError>(Acquired::Spawn) ==> exists|
                w2: W,
                made: Made<I>,
            | #[trigger]
                factory.ensures((w1,), (w2, made)) && {
                    &&& made matches Made::Isle(isle) ==> after == w2 && result == Ok::<
                        Option<I>,
                        IsleError,
                    >(Some(isle))
                    &&& made matches Made::Failed(e) ==> result == Err::<Option<I>, IsleError>(e)
                        && give_up.ensures((w2,), after)
                    &&& made matches Made::Panicked(payload) ==> {
                        &&& give_up.ensures((w2,), after)
                        &&& result matches Err(IsleError::Panicked(message))
                        &&& payload matches PanicPayload::Literal(text) ==> message@ == text@
                        &&& payload matches PanicPayload::Owned(text) ==> message@ == text@
                        &&& payload is Other ==> message@ == "unknown panic payload"@
                    }
                }
        }
}

/// A checkout that does not wait asks the pool once. What it refuses is refused, an isle
/// that it has is handed out, and where it has nothing there is nothing. A place in it is
/// filled by the factory: the isle is handed out, and a failure is reported as it is, or
/// a panic with its text, once the place has been given up. The factory is called for a
/// place only.
pub proof fn checkout_without_waiting<W, I, L, F, D>(
    world: W,
    locked: L,
    factory: F,
    give_up: D,
    out: (W, Result<Option<I>, IsleError>),
) where
    L: Fn(W) -> (W, Result<Acquired<I>, IsleError>),
    F: Fn(W) -> (W, Made<I>),
    D: Fn(W) -> W,

    requires
        ({
            ||| call_ensures(
                IslePool::<I>::try_checkout::<W, L, F, D>,
                (world, &locked, &factory, &give_up),
                out,
            )
            ||| call_ensures(
                IslePool::<I>::try_acquire::<W, L, F, D>,
                (world, &locked, &factory, &give_up),
                out,
            )
            ||| attempts(world, locked, factory, give_up, out.0, out.1)
        }),
    ensures
        exists|w1: W, got: Result<Acquired<I>, IsleError>| #[trigger]
            locked.ensures((world,), (w1, got)) && {
                &&& got matches Err(e) ==> out.0 == w1 && out.1 == Err::<Option<I>, IsleError>(e)
                &&& got matches Ok(Acquired::Isle(isle)) ==> out.0 == w1 && out.1 == Ok::<
                    Option<I>,
                    IsleError,
                >(Some(isle))
                &&& got == Ok::<Acquired<I>, IsleError>(Acquired::NeedWait) ==> out.0 == w1 && out.1
                    == Ok::<Option<I>, IsleError>(None)
                &&& got == Ok::<Acquired<I>, IsleError>(Acquired::Spawn) ==> exists|
                    w2: W,
                    made: Made<I>,
                | #[trigger]
                    factory.ensures((w1,), (w2, made)) && {
                        &&& made matches Made::Isle(isle) ==> out.0 == w2 && out.1 == Ok::<
                            Option<I>,
                            IsleError,
                        >(Some(isle))
                        &&& made matches Made::Failed(e) ==> out.1 == Err::<Option<I>, IsleError>(e)
                            && give_up.ensures((w2,), out.0)
                        &&& made matches Made::Panicked(payload) ==> {
                            &&& give_up.ensures((w2,), out.0)
                            &&& out.1 matches Err(IsleError::Panicked(message))
                            &&& payload matches PanicPayload::Literal(text) ==> message@ == text@
                            &&& payload matches PanicPayload::Owned(text) ==> message@ == text@
                            &&& payload is Other ==> message@ == "unknown panic payload"@
                        }
                    }
            },
{
    reveal(attempts);
}

/// A checkout asked the pool once in `world`, got nothing, and waited until `after`.
pub open spec fn waits_for_more<W, I, L, F, D, V>(
    world: W,
    locked: L,
    factory: F,
    give_up: D,
    wait: V,
    after: W,
) -> bool where
    L: Fn(W) -> (W, Result<Acquired<I>, IsleError>),
    F: Fn(W) -> (W, Made<I>),
    D: Fn(W) -> W,
    V: Fn(W) -> (W, Result<(), IsleError>),
 {
    exists|w: W, waited: Result<(), IsleError>| #[trigger]
        attempts(world, locked, factory, give_up, w, Ok::<Option<I>, IsleError>(None)) && #[trigger]
        wait.ensures((w,), (after, waited)) && waited is Ok
}

/// A checkout [waited](waits_for_more) from each of `worlds` to the next.
pub open spec fn waits_through<W, I, L, F, D, V>(
    worlds: Seq<W>,
    locked: L,
    factory: F,
    give_up: D,
    wait: V,
) -> bool where
    L: Fn(W) -> (W, Result<Acquired<I>, IsleError>),
    F: Fn(W) -> (W, Made<I>),
    D: Fn(W) -> W,
    V: Fn(W) -> (W, Result<(), IsleError>),
 {
    forall|i: int|
        #![trigger worlds[i]]
        0 <= i < worlds.len() - 1 ==> waits_for_more::<W, I, L, F, D, V>(
            worlds[i],
            locked,
            factory,
            give_up,
            wait,
            worlds[i + 1],
        )
}

/// A checkout that waits asks the pool once a turn, as one that
/// [does not wait](checkout_without_waiting), and waits if and only if that gave nothing.
/// What it got otherwise is its result, whatever it is, and so is the error of a wait
/// that failed. It stops for no other reason than that it took as many turns as it was
/// allowed to.
pub proof fn checkout_waits_only_for_nothing<W, I, L, F, D, V>(
    world: W,
    limit: u64,
    locked: L,
    factory: F,
    give_up: D,
    wait: V,
    out: (W, Result<Option<I>, IsleError>),
) where
    L: Fn(W) -> (W, Result<Acquired<I>, IsleError>),
    F: Fn(W) -> (W, Made<I>),
    D: Fn(W) -> W,
    V: Fn(W) -> (W, Result<(), IsleError>),

    requires
        call_ensures(
            IslePool::<I>::checkout::<W, L, F, D, V>,
            (world, limit, &locked, &factory, &give_up, &wait),
            out,
        ),
    ensures
        exists|worlds: Seq<W>| #[trigger]
            waits_through::<W, I, L, F, D, V>(worlds, locked, factory, give_up, wait) && {
                &&& worlds.len() > 0
                &&& worlds[0] == world
                &&& out.1 == Ok::<Option<I>, IsleError>(None) ==> worlds.len() == limit + 1
                    && worlds.last() == out.0
                &&& out.1 != Ok::<Option<I>, IsleError>(None) ==> worlds.len() <= limit && {
                    ||| attempts(worlds.last(), locked, factory, give_up, out.0, out.1)
                    ||| exists|w: W, e: IsleError| #[trigger]
                        attempts(
                            worlds.last(),
                            locked,
                            factory,
                            give_up,
                            w,
                            Ok::<Option<I>, IsleError>(None),
                        ) && #[trigger] wait.ensures((w,), (out.0, Err(e))) && out.1 == Err::<
                            Option<I>,
                            IsleError,
                        >(e)
                }
            },
{
    let worlds = choose|worlds: Seq<W>|
        turns(worlds, world, limit, locked, factory, give_up, wait, out.0, out.1);
    let none = Ok::<Option<I>, IsleError>(None);
    assert forall|i: int|
        #![trigger worlds[i]]
        0 <= i < worlds.len() - 1 implies waits_for_more::<W, I, L, F, D, V>(
        worlds[i],
        locked,
        factory,
        give_up,
        wait,
        worlds[i + 1],
    ) by {
        asks_and_waits(worlds[i], locked, factory, give_up, wait, worlds[i + 1], none);
    }
    assert(waits_through::<W, I, L, F, D, V>(worlds, locked, factory, give_up, wait));
    if out.1 != none {
        asks_and_waits(worlds.last(), locked, factory, give_up, wait, out.0, out.1);
    }
}

proof fn asks_once<W, I, L, F, D>(
    world: W,
    locked: L,
    factory: F,
    give_up: D,
    after: W,
    result: Result<Option<I>, IsleError>,
) where
    L: Fn(W) -> (W, Result<Acquired<I>, IsleError>),
    F: Fn(W) -> (W, Made<I>),
    D: Fn(W) -> W,

    requires
        acquisition(world, locked, factory, give_up, after, result),
    ensures
        attempts(world, locked, factory, give_up, after, result),
{
    reveal(attempts);
}

/// One turn of a checkout that waits: it asks the pool, and waits if that gave nothing.
proof fn asks_and_waits<W, I, L, F, D, V>(
    world: W,
    locked: L,
    factory: F,
    give_up: D,
    wait: V,
    after: W,
    result: Result<Option<I>, IsleError>,
) where
    L: Fn(W) -> (W, Result<Acquired<I>, IsleError>),
    F: Fn(W) -> (W, Made<I>),
    D: Fn(W) -> W,
    V: Fn(W) -> (W, Result<(), IsleError>),

    requires
        tries(world, locked, factory, give_up, wait, after, result),
    ensures
        ({
            let none = Ok::<Option<I>, IsleError>(None);
            ||| result != none && attempts(world, locked, factory, give_up, after, result)
            ||| exists|w: W, waited: Result<(), IsleError>| #[trigger]
                attempts(world, locked, factory, give_up, w, none) && #[trigger] wait.ensures(
                    (w,),
                    (after, waited),
                ) && {
                    &&& waited is Ok ==> result == none
                    &&& waited matches Err(e) ==> result == Err::<Option<I>, IsleError>(e)
                }
        }),
{
    let none = Ok::<Option<I>, IsleError>(None);
    let (w, got) = choose|w: W, got: Result<Option<I>, IsleError>| #[trigger]
        acquisition(world, locked, factory, give_up, w, got) && if got == none {
            waits(w, wait, after, result)
        } else {
            after == w && result == got
        };
    asks_once(world, locked, factory, give_up, w, got);
    if got == none {
        let waited = choose|waited: Result<(), IsleError>| #[trigger]
            wait.ensures((w,), (after, waited)) && match waited {
                Ok(_) => result == none,
                Err(e) => result == Err::<Option<I>, IsleError>(e),
            };
    }
}

/// One turn of a checkout with a timeout: it asks the pool, and if that gave nothing looks
/// at the clock and waits for the time that is left.
proof fn asks_and_waits_until<W, I, L, F, D, E, V>(
    world: W,
    timeout: u128,
    locked: L,
    factory: F,
    give_up: D,
    elapsed: E,
    wait: V,
    after: W,
    result: Result<Option<I>, IsleError>,
) where
    L: Fn(W) -> (W, Result<Acquired<I>, IsleError>),
    F: Fn(W) -> (W, Made<I>),
    D: Fn(W) -> W,
    E: Fn(W) -> (W, u128),
    V: Fn(W, u128) -> (W, Result<(), IsleError>),

    requires
        tries_until(world, timeout, locked, factory, give_up, elapsed, wait, after, result),
    ensures
        ({
            let none = Ok::<Option<I>, IsleError>(None);
            ||| result != none && attempts(world, locked, factory, give_up, after, result)
            ||| exists|w: W, w1: W, spent: u128| #[trigger]
                attempts(world, locked, factory, give_up, w, none) && #[trigger] elapsed.ensures(
                    (w,),
                    (w1, spent),
                ) && {
                    &&& spent >= timeout ==> after == w1 && result == Err::<Option<I>, IsleError>(
                        IsleError::Timeout,
                    )
                    &&& spent < timeout ==> exists|left: u128, waited: Result<(), IsleError>|
                        left == timeout - spent && #[trigger] wait.ensures(
                            (w1, left),
                            (after, waited),
                        ) && {
                            &&& waited is Ok ==> result == none
                            &&& waited matches Err(e) ==> result == Err::<Option<I>, IsleError>(e)
                        }
                }
        }),
{
    let none = Ok::<Option<I>, IsleError>(None);
    let (w, got) = choose|w: W, got: Result<Option<I>, IsleError>| #[trigger]
        acquisition(world, locked, factory, give_up, w, got) && if got == none {
            waits_until(w, timeout, elapsed, wait, after, result)
        } else {
            after == w && result == got
        };
    asks_once(world, locked, factory, give_up, w, got);
    if got == none {
        let (w1, spent) = choose|w1: W, spent: u128| #[trigger]
            elapsed.ensures((w,), (w1, spent)) && if spent >= timeout {
                after == w1 && result == Err::<Option<I>, IsleError>(IsleError::Timeout)
            } else {
                exists|waited: Result<(), IsleError>| #[trigger]
                    wait.ensures((w1, (timeout - spent) as u128), (after, waited)) && match waited {
                        Ok(_) => result == none,
                        Err(e) => result == Err::<Option<I>, IsleError>(e),
                    }
            };
        if spent < timeout {
            let waited = choose|waited: Result<(), IsleError>| #[trigger]
                wait.ensures((w1, (timeout - spent) as u128), (after, waited)) && match waited {
                    Ok(_) => result == none,
                    Err(e) => result == Err::<Option<I>, IsleError>(e),
                };
        }
    }
}

/// A checkout asked the pool once in `world`, got nothing, found time left of `timeout`,
/// and waited for just that time, until `after`.
pub open spec fn waits_for_more_until<W, I, L, F, D, E, V>(
    world: W,
    timeout: u128,
    locked: L,
    factory: F,
    give_up: D,
    elapsed: E,
    wait: V,
    after: W,
) -> bool where
    L: Fn(W) -> (W, Result<Acquired<I>, IsleError>),
    F: Fn(W) -> (W, Made<I>),
    D: Fn(W) -> W,
    E: Fn(W) -> (W, u128),
    V: Fn(W, u128) -> (W, Result<(), IsleError>),
 {
    exists|w: W, w1: W, spent: u128, left: u128, waited: Result<(), IsleError>| #[trigger]
        attempts(world, locked, factory, give_up, w, Ok::<Option<I>, IsleError>(None)) && #[trigger]
        elapsed.ensures((w,), (w1, spent)) && spent < timeout && left == timeout - spent
            && #[trigger] wait.ensures((w1, left), (after, waited)) && waited is Ok
}

/// A checkout with a timeout [waited](waits_for_more_until) from each of `worlds` to the
/// next.
pub open spec fn waits_through_until<W, I, L, F, D, E, V>(
    worlds: Seq<W>,
    timeout: u128,
    locked: L,
    factory: F,
    give_up: D,
    elapsed: E,
    wait: V,
) -> bool where
    L: Fn(W) -> (W, Result<Acquired<I>, IsleError>),
    F: Fn(W) -> (W, Made<I>),
    D: Fn(W) -> W,
    E: Fn(W) -> (W, u128),
    V: Fn(W, u128) -> (W, Result<(), IsleError>),
 {
    forall|i: int|
        #![trigger worlds[i]]
        0 <= i < worlds.len() - 1 ==> waits_for_more_until::<W, I, L, F, D, E, V>(
            worlds[i],
            timeout,
            locked,
            factory,
            give_up,
            elapsed,
            wait,
            worlds[i + 1],
        )
}

/// A checkout with a timeout asks the pool once a turn, as one that
/// [does not wait](checkout_without_waiting), and looks at the clock if and only if that
/// gave nothing. What it got otherwise is its result, whatever it is and whatever the
/// time. If the time is spent, it reports a timeout, without waiting; otherwise it waits
/// for the time that is left, and reports an error of that wait as it is. It stops for no
/// other reason than that it took as many turns as it was allowed to.
pub proof fn checkout_with_a_timeout_waits_for_the_time_left<W, I, L, F, D, E, V>(
    world: W,
    limit: u64,
    timeout: u128,
    locked: L,
    factory: F,
    give_up: D,
    elapsed: E,
    wait: V,
    out: (W, Result<Option<I>, IsleError>),
) where
    L: Fn(W) -> (W, Result<Acquired<I>, IsleError>),
    F: Fn(W) -> (W, Made<I>),
    D: Fn(W) -> W,
    E: Fn(W) -> (W, u128),
    V: Fn(W, u128) -> (W, Result<(), IsleError>),

    requires
        call_ensures(
            IslePool::<I>::checkout_timeout::<W, L, F, D, E, V>,
            (world, limit, timeout, &locked, &factory, &give_up, &elapsed, &wait),
            out,
        ),
    ensures
        exists|worlds: Seq<W>| #[trigger]
            waits_through_until::<W, I, L, F, D, E, V>(
                worlds,
                timeout,
                locked,
                factory,
                give_up,
                elapsed,
                wait,
            ) && {
                &&& worlds.len() > 0
                &&& worlds[0] == world
                &&& out.1 == Ok::<Option<I>, IsleError>(None) ==> worlds.len() == limit + 1
                    && worlds.last() == out.0
                &&& out.1 != Ok::<Option<I>, IsleError>(None) ==> worlds.len() <= limit && {
                    ||| attempts(worlds.last(), locked, factory, give_up, out.0, out.1)
                    ||| exists|w: W, w1: W, spent: u128| #[trigger]
                        attempts(
                            worlds.last(),
                            locked,
                            factory,
                            give_up,
                            w,
                            Ok::<Option<I>, IsleError>(None),
                        ) && #[trigger] elapsed.ensures((w,), (w1, spent)) && {
                            &&& spent >= timeout ==> out == (
                                w1,
                                Err::<Option<I>, IsleError>(IsleError::Timeout),
                            )
                            &&& spent < timeout ==> exists|left: u128, e: IsleError|
                                left == timeout - spent && #[trigger] wait.ensures(
                                    (w1, left),
                                    (out.0, Err(e)),
                                ) && out.1 == Err::<Option<I>, IsleError>(e)
                        }
                }
            },
{
    let worlds = choose|worlds: Seq<W>|
        turns_until(
            worlds,
            world,
            limit,
            timeout,
            locked,
            factory,
            give_up,
            elapsed,
            wait,
            out.0,
            out.1,
        );
    let none = Ok::<Option<I>, IsleError>(None);
    assert forall|i: int|
        #![trigger worlds[i]]
        0 <= i < worlds.len() - 1 implies waits_for_more_until::<W, I, L, F, D, E, V>(
        worlds[i],
        timeout,
        locked,
        factory,
        give_up,
        elapsed,
        wait,
        worlds[i + 1],
    ) by {
        asks_and_waits_until(
            worlds[i],
            timeout,
            locked,
            factory,
            give_up,
            elapsed,
            wait,
            worlds[i + 1],
            none,
        );
    }
    assert(waits_through_until::<W, I, L, F, D, E, V>(
        worlds,
        timeout,
        locked,
        factory,
        give_up,
        elapsed,
        wait,
    ));
    if out.1 != none {
        asks_and_waits_until(
            worlds.last(),
            timeout,
            locked,
            factory,
            give_up,
            elapsed,
            wait,
            out.0,
            out.1,
        );
    }
}

} // verus!

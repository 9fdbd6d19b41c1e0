//! Pool of thread-isolated SQLite isles.
//!
//! [`IslePool`] keeps the books of a pool: which isles are idle, how many are
//! checked out, whether the pool is closed. Its methods are what happens while
//! the pool's lock is held. The checkouts are built on them: they also make an
//! isle through the factory, which happens without the lock, and wait for one
//! to come back.
//!
//! The pool does not route: which calls go to a writer isle and which to a pool
//! of readers is the consumer's responsibility.
use vstd::prelude::*;

use crate::error::IsleError;
use crate::job::{panic_message, panic_text, PanicPayload};

verus! {

/// Configuration for [`IslePool`].
#[derive(Debug, Clone)]
pub struct PoolConfig {
    /// Maximum number of isles that can exist simultaneously (checked out +
    /// idle).
    pub max_size: usize,
}

/// What a pool of isles of type `I` holds.
#[verifier::ext_equal]
pub struct PoolView<I> {
    /// The idle isles, the one that was returned last at the end.
    pub idle: Seq<I>,
    /// The number of isles that are checked out.
    pub active: nat,
    /// Whether the pool has been shut down.
    pub closed: bool,
    /// The most isles that may exist at once.
    pub max_size: nat,
}

impl<I> PoolView<I> {
    /// No more isles exist than the pool may hold, and a closed pool keeps
    /// none.
    pub open spec fn wf(self) -> bool {
        &&& 0 < self.max_size <= usize::MAX
        &&& self.active + self.idle.len() <= self.max_size
        &&& self.closed ==> self.idle.len() == 0
    }

    /// The pool after one checked-out isle is accounted for.
    pub open spec fn released(self) -> PoolView<I> {
        PoolView {
            active: if self.active > 0 {
                (self.active - 1) as nat
            } else {
                0
            },
            ..self
        }
    }
}

/// What the pool has for a checkout.
pub enum Acquired<I> {
    /// An idle isle, now checked out.
    Isle(I),
    /// A free place, now taken: the caller makes an isle for it.
    Spawn,
    /// Nothing: the caller has to wait for an isle to come back.
    NeedWait,
}

/// What came of making an isle.
pub enum Made<I> {
    /// The isle.
    Isle(I),
    /// The factory failed with an error.
    Failed(IsleError),
    /// The factory panicked.
    Panicked(PanicPayload),
}

/// `result` is what a checkout reports of an isle that could not be made.
pub open spec fn is_failure<I>(made: Made<I>, result: Result<Option<I>, IsleError>) -> bool {
    match made {
        Made::Isle(_) => false,
        Made::Failed(e) => result == Err::<Option<I>, IsleError>(e),
        Made::Panicked(payload) => {
            &&& result matches Err(IsleError::Panicked(message))
            &&& message@ == panic_text(payload)
        },
    }
}

/// What became of an isle that was given back.
pub enum Returned<I> {
    /// It is idle, ready for the next checkout.
    Kept,
    /// The pool is closed: the caller shuts the isle down.
    ShutDown(I),
    /// Its thread has died: the caller drops it.
    Dropped(I),
}

/// `alive` has said of each of `isles` that it is dead.
pub open spec fn all_dead<I, A: Fn(&I) -> bool>(isles: Seq<I>, alive: A) -> bool {
    forall|i: int| 0 <= i < isles.len() ==> alive.ensures((&#[trigger] isles[i],), false)
}

/// The last isle of `idle` that is alive was found at `at`: every later one is
/// dead.
pub open spec fn last_alive<I, A: Fn(&I) -> bool>(idle: Seq<I>, alive: A, at: int) -> bool {
    &&& 0 <= at < idle.len()
    &&& alive.ensures((&idle[at],), true)
    &&& all_dead(idle.skip(at + 1), alive)
}

/// The pool `before` gave `got` to a checkout, and is `after` now.
///
/// The isle that was returned last goes first; the dead ones met on the way are
/// dropped. With none left alive, a new isle is made while fewer than
/// `max_size` are checked out, and otherwise the caller waits.
pub open spec fn acquires<I, A: Fn(&I) -> bool>(
    before: PoolView<I>,
    alive: A,
    after: PoolView<I>,
    got: Acquired<I>,
) -> bool {
    match got {
        Acquired::Isle(isle) => exists|at: int| #[trigger]
            last_alive(before.idle, alive, at) && isle == before.idle[at] && after == (PoolView {
                idle: before.idle.take(at),
                active: before.active + 1,
                ..before
            }),
        Acquired::Spawn => {
            &&& all_dead(before.idle, alive)
            &&& before.active < before.max_size
            &&& after == (PoolView { idle: Seq::<I>::empty(), active: before.active + 1, ..before })
        },
        Acquired::NeedWait => {
            &&& all_dead(before.idle, alive)
            &&& before.active >= before.max_size
            &&& after == (PoolView { idle: Seq::<I>::empty(), ..before })
        },
    }
}

/// The pool `before` took `isle` back as `kept` says, and is `after` now.
pub open spec fn takes_back<I, A: FnOnce(&I) -> bool>(
    before: PoolView<I>,
    isle: I,
    alive: A,
    after: PoolView<I>,
    kept: Returned<I>,
) -> bool {
    let released = before.released();
    if before.closed {
        kept == Returned::ShutDown(isle) && after == released
    } else {
        exists|living: bool| #[trigger]
            alive.ensures((&isle,), living) && if living {
                &&& kept is Kept
                &&& after == (PoolView { idle: before.idle.push(isle), ..released })
            } else {
                kept == Returned::Dropped(isle) && after == released
            }
    }
}

/// What the pool gave to a checkout, `got`, was carried out in `world` and left
/// `after` and `result`.
pub open spec fn carries_out<W, I, F, D>(
    world: W,
    got: Result<Acquired<I>, IsleError>,
    factory: F,
    give_up: D,
    after: W,
    result: Result<Option<I>, IsleError>,
) -> bool where F: Fn(W) -> (W, Made<I>), D: Fn(W) -> W {
    match got {
        Err(e) => result == Err::<Option<I>, IsleError>(e) && after == world,
        Ok(Acquired::Isle(isle)) => result == Ok::<Option<I>, IsleError>(Some(isle)) && after
            == world,
        Ok(Acquired::NeedWait) => result == Ok::<Option<I>, IsleError>(None) && after == world,
        Ok(Acquired::Spawn) => exists|w1: W, made: Made<I>| #[trigger]
            factory.ensures((world,), (w1, made)) && match made {
                Made::Isle(isle) => result == Ok::<Option<I>, IsleError>(Some(isle)) && after == w1,
                _ => is_failure(made, result) && give_up.ensures((w1,), after),
            },
    }
}

/// A checkout in `world` ended in `after` with `result`; `Ok(None)` says that
/// nothing was to be had.
///
/// The factory is called only for a free place, and a place whose isle could
/// not be made, because the factory failed or panicked, is given up again before
/// that is reported.
pub open spec fn acquisition<W, I, L, F, D>(
    world: W,
    locked: L,
    factory: F,
    give_up: D,
    after: W,
    result: Result<Option<I>, IsleError>,
) -> bool where
    L: Fn(W) -> (W, Result<Acquired<I>, IsleError>),
    F: Fn(W) -> (W, Made<I>),
    D: Fn(W) -> W,
 {
    exists|w1: W, got: Result<Acquired<I>, IsleError>| #[trigger]
        locked.ensures((world,), (w1, got)) && carries_out(w1, got, factory, give_up, after, result)
}

/// A wait in `world` ended in `after`; `result` asks for another turn unless the
/// wait failed.
pub open spec fn waits<W, I, V>(
    world: W,
    wait: V,
    after: W,
    result: Result<Option<I>, IsleError>,
) -> bool where V: Fn(W) -> (W, Result<(), IsleError>) {
    exists|waited: Result<(), IsleError>| #[trigger]
        wait.ensures((world,), (after, waited)) && match waited {
            Ok(_) => result == Ok::<Option<I>, IsleError>(None),
            Err(e) => result == Err::<Option<I>, IsleError>(e),
        }
}

/// A wait in `world` for what is left of `timeout` ended in `after` with
/// `result`: an error once the timeout has elapsed.
pub open spec fn waits_until<W, I, E, V>(
    world: W,
    timeout: u128,
    elapsed: E,
    wait: V,
    after: W,
    result: Result<Option<I>, IsleError>,
) -> bool where E: Fn(W) -> (W, u128), V: Fn(W, u128) -> (W, Result<(), IsleError>) {
    exists|w1: W, spent: u128| #[trigger]
        elapsed.ensures((world,), (w1, spent)) && if spent >= timeout {
            after == w1 && result == Err::<Option<I>, IsleError>(IsleError::Timeout)
        } else {
            exists|waited: Result<(), IsleError>| #[trigger]
                wait.ensures((w1, (timeout - spent) as u128), (after, waited)) && match waited {
                    Ok(_) => result == Ok::<Option<I>, IsleError>(None),
                    Err(e) => result == Err::<Option<I>, IsleError>(e),
                }
        }
}

/// One turn of a blocking checkout in `world` ended in `after` with `result`:
/// where nothing was to be had, the turn waited, and `Ok(None)` asks for
/// another.
pub open spec fn tries<W, I, L, F, D, V>(
    world: W,
    locked: L,
    factory: F,
    give_up: D,
    wait: V,
    after: W,
    result: Result<Option<I>, IsleError>,
) -> bool where
    L: Fn(W) -> (W, Result<Acquired<I>, IsleError>),
    F: Fn(W) -> (W, Made<I>),
    D: Fn(W) -> W,
    V: Fn(W) -> (W, Result<(), IsleError>),
 {
    exists|w1: W, got: Result<Option<I>, IsleError>| #[trigger]
        acquisition(world, locked, factory, give_up, w1, got) && if got == Ok::<
            Option<I>,
            IsleError,
        >(None) {
            waits(w1, wait, after, result)
        } else {
            after == w1 && result == got
        }
}

/// One turn of a checkout with a timeout in `world` ended in `after` with
/// `result`: where nothing was to be had, the turn waited for what was left of
/// the timeout, and `Ok(None)` asks for another.
pub open spec fn tries_until<W, I, L, F, D, E, V>(
    world: W,
    timeout: u128,
    locked: L,
    factory: F,
    give_up: D,
    elapsed: E,
    wait: V,
    after: W,
    result: Result<Option<I>, IsleError>,
) -> bool where
    L: Fn(W) -> (W, Result<Acquired<I>, IsleError>),
    F: Fn(W) -> (W, Made<I>),
    D: Fn(W) -> W,
    E: Fn(W) -> (W, u128),
    V: Fn(W, u128) -> (W, Result<(), IsleError>),
 {
    exists|w1: W, got: Result<Option<I>, IsleError>| #[trigger]
        acquisition(world, locked, factory, give_up, w1, got) && if got == Ok::<
            Option<I>,
            IsleError,
        >(None) {
            waits_until(w1, timeout, elapsed, wait, after, result)
        } else {
            after == w1 && result == got
        }
}

/// A blocking checkout went through `worlds`, and each turn from one to the next
/// asked for another.
pub open spec fn tried<W, I, L, F, D, V>(
    worlds: Seq<W>,
    locked: L,
    factory: F,
    give_up: D,
    wait: V,
) -> bool where
    L: Fn(W) -> (W, Result<Acquired<I>, IsleError>),
    F: Fn(W) -> (W, Made<I>),
    D: Fn(W) -> W,
    V: Fn(W) -> (W, Result<(), IsleError>),
 {
    forall|i: int|
        #![trigger worlds[i]]
        0 <= i < worlds.len() - 1 ==> tries(
            worlds[i],
            locked,
            factory,
            give_up,
            wait,
            worlds[i + 1],
            Ok::<Option<I>, IsleError>(None),
        )
}

/// A blocking checkout of at most `limit` turns in `world` went through `worlds`
/// and ended in `after` with `result`; `Ok(None)` says that every turn asked for
/// another.
pub open spec fn turns<W, I, L, F, D, V>(
    worlds: Seq<W>,
    world: W,
    limit: u64,
    locked: L,
    factory: F,
    give_up: D,
    wait: V,
    after: W,
    result: Result<Option<I>, IsleError>,
) -> bool where
    L: Fn(W) -> (W, Result<Acquired<I>, IsleError>),
    F: Fn(W) -> (W, Made<I>),
    D: Fn(W) -> W,
    V: Fn(W) -> (W, Result<(), IsleError>),
 {
    &&& tried::<W, I, L, F, D, V>(worlds, locked, factory, give_up, wait)
    &&& worlds.len() > 0
    &&& worlds[0] == world
    &&& if result == Ok::<Option<I>, IsleError>(None) {
        worlds.len() == limit + 1 && worlds.last() == after
    } else {
        worlds.len() <= limit && tries(worlds.last(), locked, factory, give_up, wait, after, result)
    }
}

/// A blocking checkout of at most `limit` turns in `world` ended in `after` with
/// `result`; `Ok(None)` says that every turn asked for another.
pub open spec fn checks_out<W, I, L, F, D, V>(
    world: W,
    limit: u64,
    locked: L,
    factory: F,
    give_up: D,
    wait: V,
    after: W,
    result: Result<Option<I>, IsleError>,
) -> bool where
    L: Fn(W) -> (W, Result<Acquired<I>, IsleError>),
    F: Fn(W) -> (W, Made<I>),
    D: Fn(W) -> W,
    V: Fn(W) -> (W, Result<(), IsleError>),
 {
    exists|worlds: Seq<W>|
        #![trigger tried::<W, I, L, F, D, V>(worlds, locked, factory, give_up, wait)]
        turns(worlds, world, limit, locked, factory, give_up, wait, after, result)
}

/// A checkout with a timeout went through `worlds`, and each turn from one to the
/// next asked for another.
pub open spec fn tried_until<W, I, L, F, D, E, V>(
    worlds: Seq<W>,
    timeout: u128,
    locked: L,
    factory: F,
    give_up: D,
    elapsed: E,
    wait: V,
) -> bool where
    L: Fn(W) -> (W, Result<Acquired<I>, IsleError>),
    F: Fn(W) -> (W, Made<I>),
    D: Fn(W) -> W,
    E: Fn(W) -> (W, u128),
    V: Fn(W, u128) -> (W, Result<(), IsleError>),
 {
    forall|i: int|
        #![trigger worlds[i]]
        0 <= i < worlds.len() - 1 ==> tries_until(
            worlds[i],
            timeout,
            locked,
            factory,
            give_up,
            elapsed,
            wait,
            worlds[i + 1],
            Ok::<Option<I>, IsleError>(None),
        )
}

/// A checkout with a timeout, of at most `limit` turns, in `world` went through
/// `worlds` and ended in `after` with `result`; `Ok(None)` says that every turn
/// asked for another.
pub open spec fn turns_until<W, I, L, F, D, E, V>(
    worlds: Seq<W>,
    world: W,
    limit: u64,
    timeout: u128,
    locked: L,
    factory: F,
    give_up: D,
    elapsed: E,
    wait: V,
    after: W,
    result: Result<Option<I>, IsleError>,
) -> bool where
    L: Fn(W) -> (W, Result<Acquired<I>, IsleError>),
    F: Fn(W) -> (W, Made<I>),
    D: Fn(W) -> W,
    E: Fn(W) -> (W, u128),
    V: Fn(W, u128) -> (W, Result<(), IsleError>),
 {
    &&& tried_until::<W, I, L, F, D, E, V>(
        worlds,
        timeout,
        locked,
        factory,
        give_up,
        elapsed,
        wait,
    )
    &&& worlds.len() > 0
    &&& worlds[0] == world
    &&& if result == Ok::<Option<I>, IsleError>(None) {
        worlds.len() == limit + 1 && worlds.last() == after
    } else {
        worlds.len() <= limit && tries_until(
            worlds.last(),
            timeout,
            locked,
            factory,
            give_up,
            elapsed,
            wait,
            after,
            result,
        )
    }
}

/// A checkout with a timeout, of at most `limit` turns, in `world` ended in `after`
/// with `result`; `Ok(None)` says that every turn asked for another.
pub open spec fn checks_out_until<W, I, L, F, D, E, V>(
    world: W,
    limit: u64,
    timeout: u128,
    locked: L,
    factory: F,
    give_up: D,
    elapsed: E,
    wait: V,
    after: W,
    result: Result<Option<I>, IsleError>,
) -> bool where
    L: Fn(W) -> (W, Result<Acquired<I>, IsleError>),
    F: Fn(W) -> (W, Made<I>),
    D: Fn(W) -> W,
    E: Fn(W) -> (W, u128),
    V: Fn(W, u128) -> (W, Result<(), IsleError>),
 {
    exists|worlds: Seq<W>|
        #![trigger tried_until::<W, I, L, F, D, E, V>(
            worlds, timeout, locked, factory, give_up, elapsed, wait,
        )]
        turns_until(
            worlds,
            world,
            limit,
            timeout,
            locked,
            factory,
            give_up,
            elapsed,
            wait,
            after,
            result,
        )
}

/// The books of a pool of isles of type `I`.
///
/// Isles are made lazily, up to [`PoolConfig::max_size`], and go back to the
/// idle list when their guard lets go of them.
pub struct IslePool<I> {
    idle: Vec<I>,
    active: usize,
    closed: bool,
    config: PoolConfig,
}

impl<I> View for IslePool<I> {
    type V = PoolView<I>;

    closed spec fn view(&self) -> PoolView<I> {
        PoolView {
            idle: self.idle@,
            active: self.active as nat,
            closed: self.closed,
            max_size: self.config.max_size as nat,
        }
    }
}

impl<I> IslePool<I> {
    /// Creates the books of an empty pool. No isle is made eagerly.
    ///
    /// # Errors
    ///
    /// [`IsleError::Closed`] if `max_size` is zero.
    pub fn new(config: PoolConfig) -> (pool: Result<IslePool<I>, IsleError>)
        ensures
            config.max_size == 0 <==> pool is Err,
            pool matches Err(e) ==> e == IsleError::Closed,
            pool matches Ok(p) ==> p@.wf() && p@ == (PoolView {
                idle: Seq::<I>::empty(),
                active: 0,
                closed: false,
                max_size: config.max_size as nat,
            }),
    {
        if config.max_size == 0 {
            return Err(IsleError::Closed);
        }
        Ok(IslePool { idle: Vec::new(), active: 0, closed: false, config })
    }

    /// Number of currently checked-out isles.
    pub fn active(&self) -> (n: usize)
        ensures
            n == self@.active,
    {
        self.active
    }

    /// Number of idle isles available for checkout.
    pub fn idle(&self) -> (n: usize)
        ensures
            n == self@.idle.len(),
    {
        self.idle.len()
    }

    /// Takes what the pool has for a checkout.
    ///
    /// # Errors
    ///
    /// [`IsleError::Closed`] if the pool has been shut down.
    pub fn take<A: Fn(&I) -> bool>(&mut self, alive: A) -> (got: Result<Acquired<I>, IsleError>)
        requires
            old(self)@.active + old(self)@.idle.len() <= usize::MAX,
            forall|isle: &I| #[trigger] alive.requires((isle,)),
        ensures
            old(self)@.wf() ==> final(self)@.wf(),
            old(self)@.closed <==> got is Err,
            got matches Err(e) ==> e == IsleError::Closed && final(self)@ == old(self)@,
            got matches Ok(a) ==> acquires(old(self)@, alive, final(self)@, a),
    {
        if self.closed {
            return Err(IsleError::Closed);
        }
        if let Some(isle) = self.take_alive_isle(&alive) {
            self.active = self.active + 1;
            return Ok(Acquired::Isle(isle));
        }
        assert(self@.idle =~= Seq::empty());
        if self.active + self.idle.len() < self.config.max_size {
            self.active = self.active + 1;
            Ok(Acquired::Spawn)
        } else {
            Ok(Acquired::NeedWait)
        }
    }

    /// Takes an alive isle from the idle list, dropping the dead ones met on
    /// the way.
    fn take_alive_isle<A: Fn(&I) -> bool>(&mut self, alive: &A) -> (found: Option<I>)
        requires
            forall|isle: &I| #[trigger] alive.requires((isle,)),
        ensures
            final(self)@ == (PoolView { idle: final(self)@.idle, ..old(self)@ }),
            match found {
                Some(isle) => exists|at: int| #[trigger]
                    last_alive(old(self)@.idle, *alive, at) && isle == old(self)@.idle[at]
                        && final(self)@.idle == old(self)@.idle.take(at),
                None => all_dead(old(self)@.idle, *alive) && final(self)@.idle.len() == 0,
            },
    {
        let ghost before = self@;
        loop
            invariant
                forall|isle: &I| #[trigger] alive.requires((isle,)),
                self@ == (PoolView { idle: self@.idle, ..before }),
                self@.idle.len() <= before.idle.len(),
                self@.idle == before.idle.take(self@.idle.len() as int),
                all_dead(before.idle.skip(self@.idle.len() as int), *alive),
                before == old(self)@,
            decreases self@.idle.len(),
        {
            let ghost len = self@.idle.len() as int;
            match self.idle.pop() {
                Some(isle) => {
                    assert(isle == before.idle[len - 1]);
                    let living = alive(&isle);
                    if living {
                        assert(last_alive(before.idle, *alive, len - 1));
                        assert(self@.idle =~= before.idle.take(len - 1));
                        return Some(isle);
                    }
                    proof {
                        let dead = before.idle.skip(len - 1);
                        assert forall|i: int| 0 <= i < dead.len() implies alive.ensures(
                            (&#[trigger] dead[i],),
                            false,
                        ) by {
                            if i > 0 {
                                assert(dead[i] == before.idle.skip(len)[i - 1]);
                            }
                        }
                    }
                },
                None => {
                    assert(before.idle.skip(0) =~= before.idle);
                    return None;
                },
            }
        }
    }

    /// Gives up a place for which no isle could be made.
    pub fn dec_active(&mut self)
        ensures
            final(self)@ == old(self)@.released(),
            old(self)@.wf() ==> final(self)@.wf(),
    {
        self.active = self.active.saturating_sub(1);
    }

    /// Takes a checked-out isle back.
    ///
    /// A closed pool hands the isle back to be shut down, and an isle whose
    /// thread has died is not kept.
    pub fn return_isle<A: FnOnce(&I) -> bool>(&mut self, isle: I, alive: A) -> (kept: Returned<I>)
        requires
            forall|i: &I| #[trigger] alive.requires((i,)),
        ensures
            takes_back(old(self)@, isle, alive, final(self)@, kept),
            old(self)@.wf() && old(self)@.active > 0 ==> final(self)@.wf(),
    {
        self.active = self.active.saturating_sub(1);
        if self.closed {
            return Returned::ShutDown(isle);
        }
        if alive(&isle) {
            self.idle.push(isle);
            Returned::Kept
        } else {
            Returned::Dropped(isle)
        }
    }

    /// Closes the pool and hands out its idle isles, which the caller shuts
    /// down.
    ///
    /// Checked-out isles are shut down when they are given back.
    pub fn shutdown(&mut self) -> (idle: Vec<I>)
        ensures
            idle@ == old(self)@.idle,
            final(self)@ == (PoolView { idle: Seq::<I>::empty(), closed: true, ..old(self)@ }),
            old(self)@.wf() ==> final(self)@.wf(),
    {
        self.closed = true;
        let mut idle = Vec::new();
        std::mem::swap(&mut idle, &mut self.idle);
        idle
    }

    /// Acquires an isle, calling the factory for a free place.
    ///
    /// `locked` is [`take`](Self::take) under the pool's lock, `give_up` is
    /// [`dec_active`](Self::dec_active) under the pool's lock.
    pub fn try_acquire<W, L, F, D>(world: W, locked: &L, factory: &F, give_up: &D) -> (out: (
        W,
        Result<Option<I>, IsleError>,
    )) where
        L: Fn(W) -> (W, Result<Acquired<I>, IsleError>),
        F: Fn(W) -> (W, Made<I>),
        D: Fn(W) -> W,

        requires
            forall|w: W| #[trigger] locked.requires((w,)),
            forall|w: W| #[trigger] factory.requires((w,)),
            forall|w: W| #[trigger] give_up.requires((w,)),
        ensures
            acquisition(world, *locked, *factory, *give_up, out.0, out.1),
    {
        let (w1, got) = locked(world);
        match got {
            Err(e) => (w1, Err(e)),
            Ok(Acquired::Isle(isle)) => (w1, Ok(Some(isle))),
            Ok(Acquired::NeedWait) => (w1, Ok(None)),
            Ok(Acquired::Spawn) => {
                let (w2, made) = factory(w1);
                match made {
                    Made::Isle(isle) => (w2, Ok(Some(isle))),
                    Made::Failed(e) => {
                        let w3 = give_up(w2);
                        (w3, Err(e))
                    },
                    Made::Panicked(payload) => {
                        let w3 = give_up(w2);
                        (w3, Err(IsleError::Panicked(panic_message(payload))))
                    },
                }
            },
        }
    }

    /// Tries to check an isle out without blocking.
    ///
    /// `locked` is [`take`](Self::take) under the pool's lock, `give_up` is
    /// [`dec_active`](Self::dec_active) under the pool's lock, and `factory`
    /// makes an isle. Returns `Ok(None)` when no isle is immediately available
    /// and the pool is at capacity.
    ///
    /// # Errors
    ///
    /// What `locked` reports (a closed pool), factory errors, and
    /// [`IsleError::Panicked`] if the factory panicked.
    pub fn try_checkout<W, L, F, D>(world: W, locked: &L, factory: &F, give_up: &D) -> (out: (
        W,
        Result<Option<I>, IsleError>,
    )) where
        L: Fn(W) -> (W, Result<Acquired<I>, IsleError>),
        F: Fn(W) -> (W, Made<I>),
        D: Fn(W) -> W,

        requires
            forall|w: W| #[trigger] locked.requires((w,)),
            forall|w: W| #[trigger] factory.requires((w,)),
            forall|w: W| #[trigger] give_up.requires((w,)),
        ensures
            acquisition(world, *locked, *factory, *give_up, out.0, out.1),
    {
        Self::try_acquire(world, locked, factory, give_up)
    }

    /// Checks an isle out, waiting for one to come back where nothing is to be
    /// had.
    ///
    /// `wait` waits for an isle to come back; the other functions are those of
    /// [`try_checkout`](Self::try_checkout). After `limit` waits the checkout
    /// has to be started again, which `Ok(None)` says.
    ///
    /// # Errors
    ///
    /// As [`try_checkout`](Self::try_checkout), and what `wait` reports.
    pub fn checkout<W, L, F, D, V>(
        world: W,
        limit: u64,
        locked: &L,
        factory: &F,
        give_up: &D,
        wait: &V,
    ) -> (out: (W, Result<Option<I>, IsleError>)) where
        L: Fn(W) -> (W, Result<Acquired<I>, IsleError>),
        F: Fn(W) -> (W, Made<I>),
        D: Fn(W) -> W,
        V: Fn(W) -> (W, Result<(), IsleError>),

        requires
            forall|w: W| #[trigger] locked.requires((w,)),
            forall|w: W| #[trigger] factory.requires((w,)),
            forall|w: W| #[trigger] give_up.requires((w,)),
            forall|w: W| #[trigger] wait.requires((w,)),
        ensures
            checks_out(world, limit, *locked, *factory, *give_up, *wait, out.0, out.1),
    {
        let mut here = world;
        let mut left: u64 = limit;
        let ghost mut worlds = seq![world];
        while left > 0
            invariant
                forall|w: W| #[trigger] locked.requires((w,)),
                forall|w: W| #[trigger] factory.requires((w,)),
                forall|w: W| #[trigger] give_up.requires((w,)),
                forall|w: W| #[trigger] wait.requires((w,)),
                tried::<W, I, L, F, D, V>(worlds, *locked, *factory, *give_up, *wait),
                worlds.len() + left == limit + 1,
                worlds.len() > 0,
                worlds[0] == world,
                worlds.last() == here,
            decreases left,
        {
            let (w1, got) = Self::try_acquire(here, locked, factory, give_up);
            if let Ok(None) = got {
                let (w2, waited) = wait(w1);
                match waited {
                    Ok(_) => {
                        proof {
                            let visited = worlds.push(w2);
                            assert(tries(
                                here,
                                *locked,
                                *factory,
                                *give_up,
                                *wait,
                                w2,
                                Ok::<Option<I>, IsleError>(None),
                            ));
                            assert forall|i: int|
                                #![trigger visited[i]]
                                0 <= i < visited.len() - 1 implies tries(
                                visited[i],
                                *locked,
                                *factory,
                                *give_up,
                                *wait,
                                visited[i + 1],
                                Ok::<Option<I>, IsleError>(None),
                            ) by {
                                assert(visited[i] == worlds[i]);
                            }
                            worlds = visited;
                        }
                        here = w2;
                        left = left - 1;
                    },
                    Err(e) => {
                        return (w2, Err(e));
                    },
                }
            } else {
                return (w1, got);
            }
        }
        (here, Ok(None))
    }

    /// Checks an isle out with a timeout; times are in nanoseconds.
    ///
    /// `elapsed` says how much of the timeout is spent, and `wait` waits for an
    /// isle to come back, for the time given at most; the other functions are
    /// those of [`try_checkout`](Self::try_checkout). After `limit` waits the
    /// checkout has to be started again, which `Ok(None)` says.
    ///
    /// # Errors
    ///
    /// As [`checkout`](Self::checkout), and [`IsleError::Timeout`] once the
    /// timeout has elapsed with nothing to be had.
    pub fn checkout_timeout<W, L, F, D, E, V>(
        world: W,
        limit: u64,
        timeout: u128,
        locked: &L,
        factory: &F,
        give_up: &D,
        elapsed: &E,
        wait: &V,
    ) -> (out: (W, Result<Option<I>, IsleError>)) where
        L: Fn(W) -> (W, Result<Acquired<I>, IsleError>),
        F: Fn(W) -> (W, Made<I>),
        D: Fn(W) -> W,
        E: Fn(W) -> (W, u128),
        V: Fn(W, u128) -> (W, Result<(), IsleError>),

        requires
            forall|w: W| #[trigger] locked.requires((w,)),
            forall|w: W| #[trigger] factory.requires((w,)),
            forall|w: W| #[trigger] give_up.requires((w,)),
            forall|w: W| #[trigger] elapsed.requires((w,)),
            forall|w: W, left: u128| #[trigger] wait.requires((w, left)),
        ensures
            checks_out_until(
                world,
                limit,
                timeout,
                *locked,
                *factory,
                *give_up,
                *elapsed,
                *wait,
                out.0,
                out.1,
            ),
    {
        let mut here = world;
        let mut left: u64 = limit;
        let ghost mut worlds = seq![world];
        while left > 0
            invariant
                forall|w: W| #[trigger] locked.requires((w,)),
                forall|w: W| #[trigger] factory.requires((w,)),
                forall|w: W| #[trigger] give_up.requires((w,)),
                forall|w: W| #[trigger] elapsed.requires((w,)),
                forall|w: W, left: u128| #[trigger] wait.requires((w, left)),
                tried_until::<W, I, L, F, D, E, V>(
                    worlds,
                    timeout,
                    *locked,
                    *factory,
                    *give_up,
                    *elapsed,
                    *wait,
                ),
                worlds.len() + left == limit + 1,
                worlds.len() > 0,
                worlds[0] == world,
                worlds.last() == here,
            decreases left,
        {
            let (w1, got) = Self::try_acquire(here, locked, factory, give_up);
            if let Ok(None) = got {
                let (w2, spent) = elapsed(w1);
                if spent >= timeout {
                    return (w2, Err(IsleError::Timeout));
                }
                let remaining: u128 = timeout - spent;
                let (w3, waited) = wait(w2, remaining);
                match waited {
                    Ok(_) => {
                        proof {
                            let visited = worlds.push(w3);
                            assert(waits_until(
                                w1,
                                timeout,
                                *elapsed,
                                *wait,
                                w3,
                                Ok::<Option<I>, IsleError>(None),
                            ));
                            assert(tries_until(
                                here,
                                timeout,
                                *locked,
                                *factory,
                                *give_up,
                                *elapsed,
                                *wait,
                                w3,
                                Ok::<Option<I>, IsleError>(None),
                            ));
                            assert forall|i: int|
                                #![trigger visited[i]]
                                0 <= i < visited.len() - 1 implies tries_until(
                                visited[i],
                                timeout,
                                *locked,
                                *factory,
                                *give_up,
                                *elapsed,
                                *wait,
                                visited[i + 1],
                                Ok::<Option<I>, IsleError>(None),
                            ) by {
                                assert(visited[i] == worlds[i]);
                            }
                            worlds = visited;
                        }
                        here = w3;
                        left = left - 1;
                    },
                    Err(e) => {
                        return (w3, Err(e));
                    },
                }
            } else {
                return (w1, got);
            }
        }
        (here, Ok(None))
    }
}

/// Something that happens to a pool under its lock.
pub enum PoolEvent<I> {
    /// A checkout was given `got`.
    Took(Acquired<I>),
    /// A checkout was refused.
    Refused,
    /// A place was given up because its isle could not be made.
    GivenUp,
    /// A checked-out isle was given back.
    GaveBack(I, Returned<I>),
    /// The pool was shut down.
    ShutDown,
}

/// `event` took the pool from `before` to `after`.
///
/// Only an isle or a place that is checked out is given back or given up.
pub open spec fn pool_step<I, A: Fn(&I) -> bool>(
    before: PoolView<I>,
    alive: A,
    event: PoolEvent<I>,
    after: PoolView<I>,
) -> bool {
    match event {
        PoolEvent::Took(got) => !before.closed && acquires(before, alive, after, got),
        PoolEvent::Refused => before.closed && after == before,
        PoolEvent::GivenUp => before.active > 0 && after == before.released(),
        PoolEvent::GaveBack(isle, kept) => before.active > 0 && takes_back(
            before,
            isle,
            alive,
            after,
            kept,
        ),
        PoolEvent::ShutDown => after == (PoolView {
            idle: Seq::<I>::empty(),
            closed: true,
            ..before
        }),
    }
}

/// The pool went through `views`, one event from each to the next.
pub open spec fn pool_history<I, A: Fn(&I) -> bool>(
    views: Seq<PoolView<I>>,
    alive: A,
    events: Seq<PoolEvent<I>>,
) -> bool {
    &&& views.len() == events.len() + 1
    &&& forall|i: int|
        #![trigger events[i]]
        0 <= i < events.len() ==> pool_step(views[i], alive, events[i], views[i + 1])
}

/// The pool never exceeds its size: however it is used, checked-out and idle
/// isles together stay within `max_size`, and a closed pool keeps no idle isle.
pub proof fn pool_never_exceeds_its_size<I, A: Fn(&I) -> bool>(
    views: Seq<PoolView<I>>,
    alive: A,
    events: Seq<PoolEvent<I>>,
    at: int,
)
    requires
        pool_history(views, alive, events),
        views[0].wf(),
        0 <= at < views.len(),
    ensures
        views[at].wf(),
        views[at].max_size == views[0].max_size,
    decreases at,
{
    if at > 0 {
        pool_never_exceeds_its_size(views, alive, events, at - 1);
        assert(pool_step(views[at - 1], alive, events[at - 1], views[at]));
    }
}

/// A pool that was shut down stays shut: every later checkout is refused.
pub proof fn closed_pool_stays_closed<I, A: Fn(&I) -> bool>(
    views: Seq<PoolView<I>>,
    alive: A,
    events: Seq<PoolEvent<I>>,
    closed: int,
    later: int,
)
    requires
        pool_history(views, alive, events),
        0 <= closed <= later < events.len(),
        views[closed].closed,
    ensures
        views[later].closed,
        !(events[later] is Took),
    decreases later - closed,
{
    if closed < later {
        closed_pool_stays_closed(views, alive, events, closed, later - 1);
        assert(pool_step(views[later - 1], alive, events[later - 1], views[later]));
    }
    assert(pool_step(views[later], alive, events[later], views[later + 1]));
}

/// Warm reuse: an isle that was given back alive, and is still alive, is the one
/// that the next checkout gets, and the two together change nothing else.
pub proof fn returned_isle_is_reused<I, A: Fn(&I) -> bool>(
    before: PoolView<I>,
    isle: I,
    alive: A,
    between: PoolView<I>,
    after: PoolView<I>,
    got: Acquired<I>,
)
    requires
        before.active > 0,
        takes_back(before, isle, alive, between, Returned::Kept),
        acquires(between, alive, after, got),
        !alive.ensures((&isle,), false),
    ensures
        got == Acquired::Isle(isle),
        after == before,
{
    let last = between.idle.len() - 1;
    assert(between.idle[last] == isle);
    match got {
        Acquired::Isle(found) => {
            let at = choose|at: int| #[trigger]
                last_alive(between.idle, alive, at) && found == between.idle[at] && after == (
                PoolView { idle: between.idle.take(at), active: between.active + 1, ..between });
            if at < last {
                assert(between.idle.skip(at + 1)[last - at - 1] == isle);
            }
            assert(before.idle.push(isle).take(last) =~= before.idle);
        },
        _ => {},
    }
}

/// A factory that fails leaves the books as they were, apart from dead isles:
/// the place taken for its isle is free again.
pub proof fn failed_factory_frees_its_place<I, A: Fn(&I) -> bool>(
    before: PoolView<I>,
    alive: A,
    after: PoolView<I>,
)
    requires
        acquires(before, alive, after, Acquired::Spawn),
    ensures
        after.released() == (PoolView { idle: Seq::<I>::empty(), ..before }),
        all_dead(before.idle, alive),
{
}

/// A checkout waits only when the pool is at capacity: every place is taken by
/// an isle that is checked out, and no idle isle is alive.
pub proof fn waiting_means_full<I, A: Fn(&I) -> bool>(
    before: PoolView<I>,
    alive: A,
    after: PoolView<I>,
)
    requires
        before.wf(),
        acquires(before, alive, after, Acquired::NeedWait),
    ensures
        before.active == before.max_size,
        before.idle.len() == 0,
        after == before,
{
}

/// The functions of a checkout act on the books of a pool, which `books` reads off
/// their world: `locked` is a [`take`](IslePool::take), `give_up` a
/// [`dec_active`](IslePool::dec_active). While the factory works, others may use
/// the pool, but the place that was taken for its isle stays taken.
pub open spec fn keeps_books<W, I, A, L, F, D>(
    books: spec_fn(W) -> PoolView<I>,
    alive: A,
    locked: L,
    factory: F,
    give_up: D,
) -> bool where
    A: Fn(&I) -> bool,
    L: Fn(W) -> (W, Result<Acquired<I>, IsleError>),
    F: Fn(W) -> (W, Made<I>),
    D: Fn(W) -> W,
 {
    &&& forall|w: W, w1: W, got: Result<Acquired<I>, IsleError>| #[trigger]
        locked.ensures((w,), (w1, got)) ==> match got {
            Ok(acquired) => !books(w).closed && acquires(books(w), alive, books(w1), acquired),
            Err(e) => books(w).closed && e == IsleError::Closed && books(w1) == books(w),
        }
    &&& forall|w: W, w1: W, made: Made<I>| #[trigger]
        factory.ensures((w,), (w1, made)) && books(w).wf() && books(w).active > 0 ==> {
            &&& books(w1).wf()
            &&& books(w1).max_size == books(w).max_size
            &&& books(w1).active > 0
        }
    &&& forall|w: W, w1: W| #[trigger]
        give_up.ensures((w,), w1) ==> books(w1) == books(w).released()
}

/// `alive` says one thing of each isle.
pub open spec fn is_steady<I, A: Fn(&I) -> bool>(alive: A) -> bool {
    forall|isle: &I| #[trigger]
        alive.ensures((isle,), true) ==> !alive.ensures((isle,), false)
}

/// The factory was called in a world with the books `taken`, in which it has a
/// place; `after` and `result` are what came of it. A place whose isle could not be
/// made is given up.
pub open spec fn makes_isle<W, I, F>(
    books: spec_fn(W) -> PoolView<I>,
    taken: PoolView<I>,
    factory: F,
    after: W,
    result: Result<Option<I>, IsleError>,
) -> bool where F: Fn(W) -> (W, Made<I>) {
    exists|w: W, w1: W, made: Made<I>| #[trigger]
        factory.ensures((w,), (w1, made)) && books(w) == taken && match made {
            Made::Isle(isle) => result == Ok::<Option<I>, IsleError>(Some(isle)) && after == w1,
            _ => is_failure(made, result) && books(after) == books(w1).released(),
        }
}

/// A whole acquisition, factory and all, keeps the pool within its size. A closed
/// pool refuses it. Of the idle isles that are alive, the one that was returned
/// last is handed out, and the factory does not come into it. With none alive, the
/// factory is called while fewer than `max_size` isles are checked out, and if it
/// fails or panics, its place is given up. Otherwise nothing is to be had, and the
/// books stay as they are.
pub proof fn acquisition_keeps_the_size<W, I, A, L, F, D>(
    world: W,
    books: spec_fn(W) -> PoolView<I>,
    alive: A,
    locked: L,
    factory: F,
    give_up: D,
    after: W,
    result: Result<Option<I>, IsleError>,
) where
    A: Fn(&I) -> bool,
    L: Fn(W) -> (W, Result<Acquired<I>, IsleError>),
    F: Fn(W) -> (W, Made<I>),
    D: Fn(W) -> W,

    requires
        books(world).wf(),
        is_steady(alive),
        keeps_books(books, alive, locked, factory, give_up),
        acquisition(world, locked, factory, give_up, after, result),
    ensures
        books(after).wf(),
        books(after).max_size == books(world).max_size,
        ({
            let before = books(world);
            if before.closed {
                &&& result == Err::<Option<I>, IsleError>(IsleError::Closed)
                &&& books(after) == before
            } else {
                ||| exists|at: int| #[trigger]
                    last_alive(before.idle, alive, at) && result == Ok::<Option<I>, IsleError>(
                        Some(before.idle[at]),
                    ) && books(after) == (PoolView {
                        idle: before.idle.take(at),
                        active: before.active + 1,
                        ..before
                    })
                ||| all_dead(before.idle, alive) && before.active < before.max_size && makes_isle(
                    books,
                    PoolView { idle: Seq::<I>::empty(), active: before.active + 1, ..before },
                    factory,
                    after,
                    result,
                )
                ||| all_dead(before.idle, alive) && before.active == before.max_size && result
                    == Ok::<Option<I>, IsleError>(None) && books(after) == before
            }
        }),
        forall|at: int| #[trigger]
            last_alive(books(world).idle, alive, at) ==> !all_dead(books(world).idle, alive),
{
    let before = books(world);
    assert forall|at: int| #[trigger] last_alive(before.idle, alive, at) implies !all_dead(
        before.idle,
        alive,
    ) by {
        assert(alive.ensures((&before.idle[at],), true));
    }
    let (w1, got) = choose|w1: W, got: Result<Acquired<I>, IsleError>| #[trigger]
        locked.ensures((world,), (w1, got)) && carries_out(
            w1,
            got,
            factory,
            give_up,
            after,
            result,
        );
    if let Ok(Acquired::Spawn) = got {
        assert(books(w1) == (PoolView {
            idle: Seq::<I>::empty(),
            active: before.active + 1,
            ..before
        }));
        assert(makes_isle(books, books(w1), factory, after, result));
    }
}

/// What led from the books `before` to the books `after` kept the pool within its
/// size.
pub open spec fn keeps_the_size<I>(before: PoolView<I>, after: PoolView<I>) -> bool {
    before.wf() ==> after.wf() && after.max_size == before.max_size
}

/// Something is to be had from a pool with these books at once: it is closed, or
/// not every place is taken.
pub open spec fn has_something<I>(books: PoolView<I>) -> bool {
    books.closed || books.active < books.max_size
}

/// A whole checkout, waits and all, keeps the pool within its size, if those who
/// use the pool during its waits do.
pub proof fn checkout_keeps_the_size<W, I, A, L, F, D, V>(
    world: W,
    books: spec_fn(W) -> PoolView<I>,
    limit: u64,
    alive: A,
    locked: L,
    factory: F,
    give_up: D,
    wait: V,
    after: W,
    result: Result<Option<I>, IsleError>,
) where
    A: Fn(&I) -> bool,
    L: Fn(W) -> (W, Result<Acquired<I>, IsleError>),
    F: Fn(W) -> (W, Made<I>),
    D: Fn(W) -> W,
    V: Fn(W) -> (W, Result<(), IsleError>),

    requires
        books(world).wf(),
        is_steady(alive),
        keeps_books(books, alive, locked, factory, give_up),
        checks_out(world, limit, locked, factory, give_up, wait, after, result),
        forall|w: W, w1: W, waited: Result<(), IsleError>| #[trigger]
            wait.ensures((w,), (w1, waited)) ==> keeps_the_size(books(w), books(w1)),
    ensures
        books(after).wf(),
        books(after).max_size == books(world).max_size,
{
    assert forall|w: W, w1: W, got: Result<Option<I>, IsleError>| #[trigger]
        tries(w, locked, factory, give_up, wait, w1, got) implies keeps_the_size(
        books(w),
        books(w1),
    ) by {
        acquisitions_keep_the_size(books, alive, locked, factory, give_up);
    }
    let worlds = choose|worlds: Seq<W>|
        turns(worlds, world, limit, locked, factory, give_up, wait, after, result);
    steps_keep_the_size(worlds, books, worlds.len() - 1);
}

/// A whole checkout with a timeout, looks at the clock and waits and all, keeps the
/// pool within its size, if those who use the pool meanwhile do.
pub proof fn checkout_timeout_keeps_the_size<W, I, A, L, F, D, E, V>(
    world: W,
    books: spec_fn(W) -> PoolView<I>,
    limit: u64,
    timeout: u128,
    alive: A,
    locked: L,
    factory: F,
    give_up: D,
    elapsed: E,
    wait: V,
    after: W,
    result: Result<Option<I>, IsleError>,
) where
    A: Fn(&I) -> bool,
    L: Fn(W) -> (W, Result<Acquired<I>, IsleError>),
    F: Fn(W) -> (W, Made<I>),
    D: Fn(W) -> W,
    E: Fn(W) -> (W, u128),
    V: Fn(W, u128) -> (W, Result<(), IsleError>),

    requires
        books(world).wf(),
        is_steady(alive),
        keeps_books(books, alive, locked, factory, give_up),
        checks_out_until(
            world,
            limit,
            timeout,
            locked,
            factory,
            give_up,
            elapsed,
            wait,
            after,
            result,
        ),
        forall|w: W, w1: W, spent: u128| #[trigger]
            elapsed.ensures((w,), (w1, spent)) ==> keeps_the_size(books(w), books(w1)),
        forall|w: W, left: u128, w1: W, waited: Result<(), IsleError>| #[trigger]
            wait.ensures((w, left), (w1, waited)) ==> keeps_the_size(books(w), books(w1)),
    ensures
        books(after).wf(),
        books(after).max_size == books(world).max_size,
{
    assert forall|w: W, w1: W, got: Result<Option<I>, IsleError>| #[trigger]
        tries_until(
            w,
            timeout,
            locked,
            factory,
            give_up,
            elapsed,
            wait,
            w1,
            got,
        ) implies keeps_the_size(books(w), books(w1)) by {
        acquisitions_keep_the_size(books, alive, locked, factory, give_up);
    }
    let worlds = choose|worlds: Seq<W>|
        turns_until(
            worlds,
            world,
            limit,
            timeout,
            locked,
            factory,
            give_up,
            elapsed,
            wait,
            after,
            result,
        );
    steps_keep_the_size(worlds, books, worlds.len() - 1);
}

proof fn acquisitions_keep_the_size<W, I, A, L, F, D>(
    books: spec_fn(W) -> PoolView<I>,
    alive: A,
    locked: L,
    factory: F,
    give_up: D,
) where
    A: Fn(&I) -> bool,
    L: Fn(W) -> (W, Result<Acquired<I>, IsleError>),
    F: Fn(W) -> (W, Made<I>),
    D: Fn(W) -> W,

    requires
        is_steady(alive),
        keeps_books(books, alive, locked, factory, give_up),
    ensures
        forall|w: W, w1: W, got: Result<Option<I>, IsleError>| #[trigger]
            acquisition(w, locked, factory, give_up, w1, got) ==> keeps_the_size(
                books(w),
                books(w1),
            ),
{
    assert forall|w: W, w1: W, got: Result<Option<I>, IsleError>| #[trigger]
        acquisition(w, locked, factory, give_up, w1, got) implies keeps_the_size(
        books(w),
        books(w1),
    ) by {
        if books(w).wf() {
            acquisition_keeps_the_size(w, books, alive, locked, factory, give_up, w1, got);
        }
    }
}

proof fn steps_keep_the_size<W, I>(
    worlds: Seq<W>,
    books: spec_fn(W) -> PoolView<I>,
    at: int,
)
    requires
        0 <= at < worlds.len(),
        books(worlds[0]).wf(),
        forall|i: int|
            #![trigger worlds[i]]
            0 <= i < worlds.len() - 1 ==> keeps_the_size(books(worlds[i]), books(worlds[i + 1])),
    ensures
        books(worlds[at]).wf(),
        books(worlds[at]).max_size == books(worlds[0]).max_size,
    decreases at,
{
    if at > 0 {
        steps_keep_the_size(worlds, books, at - 1);
        assert(keeps_the_size(books(worlds[at - 1]), books(worlds[at])));
    }
}

/// A checkout of at least one turn returns where something is to be had, that is
/// where the pool is closed or not every place is taken: no wait comes into it.
pub proof fn checkout_with_a_free_place_returns<W, I, A, L, F, D, V>(
    world: W,
    books: spec_fn(W) -> PoolView<I>,
    limit: u64,
    alive: A,
    locked: L,
    factory: F,
    give_up: D,
    wait: V,
    after: W,
    result: Result<Option<I>, IsleError>,
) where
    A: Fn(&I) -> bool,
    L: Fn(W) -> (W, Result<Acquired<I>, IsleError>),
    F: Fn(W) -> (W, Made<I>),
    D: Fn(W) -> W,
    V: Fn(W) -> (W, Result<(), IsleError>),

    requires
        limit > 0,
        has_something(books(world)),
        keeps_books(books, alive, locked, factory, give_up),
        checks_out(world, limit, locked, factory, give_up, wait, after, result),
    ensures
        result != Ok::<Option<I>, IsleError>(None),
        acquisition(world, locked, factory, give_up, after, result),
        books(world).closed ==> result == Err::<Option<I>, IsleError>(IsleError::Closed) && books(
            after,
        ) == books(world),
{
    let worlds = choose|worlds: Seq<W>|
        turns(worlds, world, limit, locked, factory, give_up, wait, after, result);
    if worlds.len() > 1 {
        let none = Ok::<Option<I>, IsleError>(None);
        assert(tries(worlds[0], locked, factory, give_up, wait, worlds[1], none));
    }
}

/// A blocked checkout returns once an isle is given back or the pool is shut down.
/// If its wait ends only then, it does not wait a second time: it returns, or, if
/// it was allowed one turn only, asks to be started again where something is to be
/// had, so that it returns then.
pub proof fn blocked_checkout_returns<W, I, A, L, F, D, V>(
    world: W,
    books: spec_fn(W) -> PoolView<I>,
    limit: u64,
    alive: A,
    locked: L,
    factory: F,
    give_up: D,
    wait: V,
    after: W,
    result: Result<Option<I>, IsleError>,
) where
    A: Fn(&I) -> bool,
    L: Fn(W) -> (W, Result<Acquired<I>, IsleError>),
    F: Fn(W) -> (W, Made<I>),
    D: Fn(W) -> W,
    V: Fn(W) -> (W, Result<(), IsleError>),

    requires
        limit > 0,
        keeps_books(books, alive, locked, factory, give_up),
        checks_out(world, limit, locked, factory, give_up, wait, after, result),
        forall|w: W, w1: W, waited: Result<(), IsleError>| #[trigger]
            wait.ensures((w,), (w1, waited)) ==> waited is Ok && has_something(books(w1)),
    ensures
        result == Ok::<Option<I>, IsleError>(None) ==> limit == 1 && has_something(books(after)),
{
    if result == Ok::<Option<I>, IsleError>(None) {
        let worlds = choose|worlds: Seq<W>|
            turns(worlds, world, limit, locked, factory, give_up, wait, after, result);
        let none = Ok::<Option<I>, IsleError>(None);
        assert(tries(worlds[0], locked, factory, give_up, wait, worlds[1], none));
        assert(has_something(books(worlds[1])));
        if limit > 1 {
            assert(tries(worlds[1], locked, factory, give_up, wait, worlds[2], none));
        }
    }
}

/// A checkout with a timeout, of at least one turn, returns at once where something
/// is to be had, whatever the timeout, zero among them: neither the clock nor a wait
/// comes into it. A closed pool refuses it.
pub proof fn checkout_timeout_with_a_free_place_returns<W, I, A, L, F, D, E, V>(
    world: W,
    books: spec_fn(W) -> PoolView<I>,
    limit: u64,
    timeout: u128,
    alive: A,
    locked: L,
    factory: F,
    give_up: D,
    elapsed: E,
    wait: V,
    after: W,
    result: Result<Option<I>, IsleError>,
) where
    A: Fn(&I) -> bool,
    L: Fn(W) -> (W, Result<Acquired<I>, IsleError>),
    F: Fn(W) -> (W, Made<I>),
    D: Fn(W) -> W,
    E: Fn(W) -> (W, u128),
    V: Fn(W, u128) -> (W, Result<(), IsleError>),

    requires
        limit > 0,
        has_something(books(world)),
        keeps_books(books, alive, locked, factory, give_up),
        checks_out_until(
            world,
            limit,
            timeout,
            locked,
            factory,
            give_up,
            elapsed,
            wait,
            after,
            result,
        ),
    ensures
        result != Ok::<Option<I>, IsleError>(None),
        acquisition(world, locked, factory, give_up, after, result),
        books(world).closed ==> result == Err::<Option<I>, IsleError>(IsleError::Closed) && books(
            after,
        ) == books(world),
{
    let worlds = choose|worlds: Seq<W>|
        turns_until(
            worlds,
            world,
            limit,
            timeout,
            locked,
            factory,
            give_up,
            elapsed,
            wait,
            after,
            result,
        );
    let none = Ok::<Option<I>, IsleError>(None);
    if worlds.len() > 1 {
        assert(tries_until(
            worlds[0],
            timeout,
            locked,
            factory,
            give_up,
            elapsed,
            wait,
            worlds[1],
            none,
        ));
    }
}

/// A checkout with a timeout returns, or reports that the timeout has elapsed: if
/// its wait ends only once something is to be had or the time is spent, which `spent`
/// says, it does not wait a second time. It returns or reports
/// [`IsleError::Timeout`], or, if it was allowed one turn only, asks to be started
/// again where it does so without waiting.
pub proof fn checkout_timeout_returns<W, I, A, L, F, D, E, V>(
    world: W,
    books: spec_fn(W) -> PoolView<I>,
    spent: spec_fn(W) -> bool,
    limit: u64,
    timeout: u128,
    alive: A,
    locked: L,
    factory: F,
    give_up: D,
    elapsed: E,
    wait: V,
    after: W,
    result: Result<Option<I>, IsleError>,
) where
    A: Fn(&I) -> bool,
    L: Fn(W) -> (W, Result<Acquired<I>, IsleError>),
    F: Fn(W) -> (W, Made<I>),
    D: Fn(W) -> W,
    E: Fn(W) -> (W, u128),
    V: Fn(W, u128) -> (W, Result<(), IsleError>),

    requires
        limit > 0,
        keeps_books(books, alive, locked, factory, give_up),
        checks_out_until(
            world,
            limit,
            timeout,
            locked,
            factory,
            give_up,
            elapsed,
            wait,
            after,
            result,
        ),
        // Time that is spent stays spent, and the clock says so.
        forall|w: W, w1: W, got: Result<Acquired<I>, IsleError>| #[trigger]
            locked.ensures((w,), (w1, got)) && spent(w) ==> spent(w1),
        forall|w: W, w1: W, time: u128| #[trigger]
            elapsed.ensures((w,), (w1, time)) && spent(w) ==> time >= timeout,
        forall|w: W, left: u128, w1: W, waited: Result<(), IsleError>| #[trigger]
            wait.ensures((w, left), (w1, waited)) ==> waited is Ok && (has_something(books(w1))
                || spent(w1)),
    ensures
        result == Ok::<Option<I>, IsleError>(None) ==> limit == 1 && (has_something(books(after))
            || spent(after)),
{
    if result == Ok::<Option<I>, IsleError>(None) {
        let worlds = choose|worlds: Seq<W>|
            turns_until(
                worlds,
                world,
                limit,
                timeout,
                locked,
                factory,
                give_up,
                elapsed,
                wait,
                after,
                result,
            );
        let none = Ok::<Option<I>, IsleError>(None);
        assert(tries_until(
            worlds[0],
            timeout,
            locked,
            factory,
            give_up,
            elapsed,
            wait,
            worlds[1],
            none,
        ));
        assert(has_something(books(worlds[1])) || spent(worlds[1]));
        if limit > 1 {
            assert(tries_until(
                worlds[1],
                timeout,
                locked,
                factory,
                give_up,
                elapsed,
                wait,
                worlds[2],
                none,
            ));
        }
    }
}

/// The time given to a checkout was found to be spent in `after`, with every place of
/// the pool taken and the pool open.
pub open spec fn runs_out_of_time<W, I, E>(
    books: spec_fn(W) -> PoolView<I>,
    timeout: u128,
    elapsed: E,
    after: W,
) -> bool where E: Fn(W) -> (W, u128) {
    exists|w: W, time: u128| #[trigger]
        elapsed.ensures((w,), (after, time)) && time >= timeout && !has_something(books(w))
}

/// A checkout with a timeout reports [`IsleError::Timeout`] only if the clock said
/// that the timeout has elapsed while every place was taken, or if the factory or the
/// wait itself reported it.
pub proof fn checkout_timeout_reports_spent_time_only<W, I, A, L, F, D, E, V>(
    world: W,
    books: spec_fn(W) -> PoolView<I>,
    limit: u64,
    timeout: u128,
    alive: A,
    locked: L,
    factory: F,
    give_up: D,
    elapsed: E,
    wait: V,
    after: W,
) where
    A: Fn(&I) -> bool,
    L: Fn(W) -> (W, Result<Acquired<I>, IsleError>),
    F: Fn(W) -> (W, Made<I>),
    D: Fn(W) -> W,
    E: Fn(W) -> (W, u128),
    V: Fn(W, u128) -> (W, Result<(), IsleError>),

    requires
        keeps_books(books, alive, locked, factory, give_up),
        checks_out_until(
            world,
            limit,
            timeout,
            locked,
            factory,
            give_up,
            elapsed,
            wait,
            after,
            Err(IsleError::Timeout),
        ),
    ensures
        ({
            ||| runs_out_of_time(books, timeout, elapsed, after)
            ||| exists|w: W, w1: W| #[trigger]
                factory.ensures((w,), (w1, Made::Failed(IsleError::Timeout)))
            ||| exists|w: W, left: u128| #[trigger]
                wait.ensures((w, left), (after, Err(IsleError::Timeout)))
        }),
{
}

/// A checkout with no time to wait does not wait: where nothing is to be had, it
/// reports [`IsleError::Timeout`] in its first turn.
pub proof fn checkout_timeout_of_zero_never_waits<W, I, A, L, F, D, E, V>(
    world: W,
    books: spec_fn(W) -> PoolView<I>,
    limit: u64,
    alive: A,
    locked: L,
    factory: F,
    give_up: D,
    elapsed: E,
    wait: V,
    after: W,
    result: Result<Option<I>, IsleError>,
) where
    A: Fn(&I) -> bool,
    L: Fn(W) -> (W, Result<Acquired<I>, IsleError>),
    F: Fn(W) -> (W, Made<I>),
    D: Fn(W) -> W,
    E: Fn(W) -> (W, u128),
    V: Fn(W, u128) -> (W, Result<(), IsleError>),

    requires
        limit > 0,
        keeps_books(books, alive, locked, factory, give_up),
        checks_out_until(
            world,
            limit,
            0,
            locked,
            factory,
            give_up,
            elapsed,
            wait,
            after,
            result,
        ),
    ensures
        result != Ok::<Option<I>, IsleError>(None),
        ({
            ||| acquisition(world, locked, factory, give_up, after, result)
            ||| result == Err::<Option<I>, IsleError>(IsleError::Timeout) && runs_out_of_time(
                books,
                0,
                elapsed,
                after,
            )
        }),
{
    let worlds = choose|worlds: Seq<W>|
        turns_until(
            worlds,
            world,
            limit,
            0,
            locked,
            factory,
            give_up,
            elapsed,
            wait,
            after,
            result,
        );
    let none = Ok::<Option<I>, IsleError>(None);
    if worlds.len() > 1 {
        assert(tries_until(
            worlds[0],
            0,
            locked,
            factory,
            give_up,
            elapsed,
            wait,
            worlds[1],
            none,
        ));
    }
}

/// What a checkout gets where something is to be had, as after it was woken: after
/// a shutdown [`IsleError::Closed`], with the factory left alone; after an isle was
/// given back alive, and is still alive, that isle; and otherwise an isle, or the
/// factory's failure. No other error comes of it.
pub proof fn woken_checkout_gets_what_woke_it<W, I, A, L, F, D>(
    woken: W,
    books: spec_fn(W) -> PoolView<I>,
    alive: A,
    locked: L,
    factory: F,
    give_up: D,
    after: W,
    result: Result<Option<I>, IsleError>,
) where
    A: Fn(&I) -> bool,
    L: Fn(W) -> (W, Result<Acquired<I>, IsleError>),
    F: Fn(W) -> (W, Made<I>),
    D: Fn(W) -> W,

    requires
        keeps_books(books, alive, locked, factory, give_up),
        acquisition(woken, locked, factory, give_up, after, result),
    ensures
        books(woken).closed ==> result == Err::<Option<I>, IsleError>(IsleError::Closed) && books(
            after,
        ) == books(woken),
        forall|full: PoolView<I>, isle: I|
            !full.closed && #[trigger] takes_back(full, isle, alive, books(woken), Returned::Kept)
                && !alive.ensures((&isle,), false) ==> result == Ok::<Option<I>, IsleError>(
                Some(isle),
            ),
        !books(woken).closed && result is Err ==> exists|w: W, w1: W, made: Made<I>| #[trigger]
            factory.ensures((w,), (w1, made)) && is_failure(made, result),
{
    let idle = books(woken).idle;
    let (w1, got) = choose|w1: W, got: Result<Acquired<I>, IsleError>| #[trigger]
        locked.ensures((woken,), (w1, got)) && carries_out(
            w1,
            got,
            factory,
            give_up,
            after,
            result,
        );
    assert forall|full: PoolView<I>, isle: I|
        !full.closed && #[trigger] takes_back(full, isle, alive, books(woken), Returned::Kept)
            && !alive.ensures((&isle,), false) implies result == Ok::<Option<I>, IsleError>(
        Some(isle),
    ) by {
        let last = idle.len() - 1;
        assert(idle[last] == isle);
        if let Ok(Acquired::Isle(found)) = got {
            let at = choose|at: int| #[trigger]
                last_alive(idle, alive, at) && found == idle[at] && books(w1) == (PoolView {
                    idle: idle.take(at),
                    active: books(woken).active + 1,
                    ..books(woken)
                });
            if at < last {
                assert(idle.skip(at + 1)[last - at - 1] == isle);
            }
        }
    }
}

} // verus!

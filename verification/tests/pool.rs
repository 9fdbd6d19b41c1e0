//! The pool, with in-memory connections for isles.

use rusqlite::Connection;
use rusqlite_isle::job::PanicPayload;
use rusqlite_isle::pool::{Acquired, Made, Returned};
use rusqlite_isle::{IsleError, IslePool, PoolConfig};
use std::cell::{Cell, RefCell};

struct TestPool {
    books: RefCell<IslePool<Connection>>,
}

fn test_pool(max_size: usize) -> TestPool {
    TestPool {
        books: RefCell::new(IslePool::new(PoolConfig { max_size }).unwrap()),
    }
}

fn make_isle() -> Made<Connection> {
    let conn = Connection::open_in_memory().unwrap();
    match conn.execute_batch("CREATE TABLE t (x INTEGER)") {
        Ok(()) => Made::Isle(conn),
        Err(e) => Made::Failed(e.into()),
    }
}

impl TestPool {
    fn take(&self) -> Result<Acquired<Connection>, IsleError> {
        self.books.borrow_mut().take(|_isle| true)
    }

    fn try_checkout(&self) -> Result<Option<Connection>, IsleError> {
        IslePool::try_checkout(
            (),
            &|w| (w, self.take()),
            &|w| (w, make_isle()),
            &|w| {
                self.books.borrow_mut().dec_active();
                w
            },
        )
        .1
    }

    fn checkout(&self) -> Result<Connection, IsleError> {
        IslePool::checkout(
            (),
            10,
            &|w| (w, self.take()),
            &|w| (w, make_isle()),
            &|w| {
                self.books.borrow_mut().dec_active();
                w
            },
            &|w| (w, Err(IsleError::Panicked("nobody else is here".to_string()))),
        )
        .1
        .map(|isle| isle.unwrap())
    }

    /// Time passes only while the checkout waits.
    fn checkout_timeout(&self, timeout: u128) -> Result<Connection, IsleError> {
        let now = Cell::new(0);
        IslePool::checkout_timeout(
            (),
            1000,
            timeout,
            &|w| (w, self.take()),
            &|w| (w, make_isle()),
            &|w| {
                self.books.borrow_mut().dec_active();
                w
            },
            &|w| (w, now.get()),
            &|w, left| {
                assert_eq!(left, timeout - now.get());
                // A wait may end early.
                now.set(now.get() + (left + 1) / 2);
                (w, Ok(()))
            },
        )
        .1
        .map(|isle| isle.unwrap())
    }

    fn give_back(&self, isle: Connection) -> Returned<Connection> {
        self.books.borrow_mut().return_isle(isle, |_isle| true)
    }

    fn active(&self) -> usize {
        self.books.borrow().active()
    }

    fn idle(&self) -> usize {
        self.books.borrow().idle()
    }

    fn shutdown(&self) -> usize {
        self.books.borrow_mut().shutdown().len()
    }
}

fn count(isle: &Connection) -> i64 {
    isle.query_row("SELECT count(*) FROM t", [], |r| r.get(0))
        .unwrap()
}

#[test]
fn checkout_use_and_return() {
    let pool = test_pool(2);
    assert_eq!(pool.active(), 0);
    assert_eq!(pool.idle(), 0);

    {
        let isle = pool.checkout().unwrap();
        assert_eq!(pool.active(), 1);
        isle.execute("INSERT INTO t (x) VALUES (1)", []).unwrap();
        assert_eq!(count(&isle), 1);
        assert!(matches!(pool.give_back(isle), Returned::Kept));
    }

    assert_eq!(pool.active(), 0);
    assert_eq!(pool.idle(), 1);

    // Reuse: the same isle (same in-memory DB) comes back.
    let isle = pool.checkout().unwrap();
    assert_eq!(count(&isle), 1, "warm reuse keeps the same connection state");
    pool.give_back(isle);

    pool.shutdown();
}

#[test]
fn try_checkout_none_at_capacity() {
    let pool = test_pool(2);

    let a = pool.checkout().unwrap();
    let b = pool.checkout().unwrap();
    assert_eq!(pool.active(), 2);

    let c = pool.try_checkout().unwrap();
    assert!(c.is_none(), "capacity exceeded must yield None");

    pool.give_back(a);
    let c = pool.try_checkout().unwrap();
    assert!(c.is_some(), "freed slot must be checkoutable again");

    pool.give_back(b);
    pool.give_back(c.unwrap());
    assert_eq!(pool.idle(), 2);
    pool.shutdown();
}

#[test]
fn checkout_timeout_expires() {
    let pool = test_pool(1);

    let held = pool.checkout().unwrap();
    let result = pool.checkout_timeout(100);
    assert!(
        matches!(result, Err(IsleError::Timeout)),
        "expected Timeout, got {:?}",
        result.map(|_| ())
    );

    pool.give_back(held);
    let ok = pool.checkout_timeout(100);
    assert!(ok.is_ok());
    pool.give_back(ok.unwrap());
    pool.shutdown();
}

#[test]
fn timeout_of_zero_still_takes_what_is_there() {
    let pool = test_pool(1);
    let isle = pool.checkout_timeout(0).unwrap();
    assert!(matches!(pool.checkout_timeout(0), Err(IsleError::Timeout)));
    pool.give_back(isle);
}

#[test]
fn checkout_with_a_timeout_of_a_closed_pool_is_refused() {
    let pool = test_pool(1);
    let held = pool.checkout().unwrap();
    pool.shutdown();
    assert!(matches!(pool.checkout_timeout(0), Err(IsleError::Closed)));
    assert!(matches!(pool.checkout_timeout(100), Err(IsleError::Closed)));
    pool.give_back(held);
}

#[test]
fn checkout_with_a_timeout_waits_once_and_takes_what_came_back() {
    let pool = test_pool(1);
    let back = RefCell::new(Some(pool.checkout().unwrap()));
    let waits = Cell::new(0);
    let checkout = |limit, timeout| {
        IslePool::checkout_timeout(
            (),
            limit,
            timeout,
            &|w| (w, pool.take()),
            &|w| (w, make_isle()),
            &|w| w,
            &|w| (w, 3),
            &|w, left| {
                assert_eq!(left, timeout - 3);
                waits.set(waits.get() + 1);
                pool.give_back(back.borrow_mut().take().unwrap());
                (w, Ok(()))
            },
        )
        .1
    };
    // The time is spent: no wait.
    assert!(matches!(checkout(5, 3), Err(IsleError::Timeout)));
    assert_eq!(waits.get(), 0);
    let isle = checkout(5, 4).unwrap();
    assert!(isle.is_some());
    assert_eq!(waits.get(), 1);
    assert_eq!((pool.active(), pool.idle()), (1, 0));

    // One turn only: what came back is there for the next call.
    *back.borrow_mut() = isle;
    assert!(checkout(1, 4).unwrap().is_none());
    assert_eq!(waits.get(), 2);
    assert!(checkout(1, 0).unwrap().is_some());
    assert_eq!(waits.get(), 2);
}

#[test]
fn checkout_waits_and_reports_a_failed_wait() {
    let pool = test_pool(1);
    let held = pool.checkout().unwrap();
    assert!(matches!(pool.checkout(), Err(IsleError::Panicked(_))));

    // The turn after the isle came back finds it.
    let back = RefCell::new(Some(held));
    let checkout = |limit| {
        IslePool::checkout(
            (),
            limit,
            &|w| (w, pool.take()),
            &|w| (w, make_isle()),
            &|w| w,
            &|w| {
                pool.give_back(back.borrow_mut().take().unwrap());
                (w, Ok(()))
            },
        )
        .1
    };
    assert!(checkout(0).unwrap().is_none());
    assert_eq!(pool.active(), 1);
    assert!(checkout(1).unwrap().is_none());
    assert_eq!(pool.active(), 0);
    *back.borrow_mut() = checkout(1).unwrap();
    assert_eq!(pool.active(), 1);
    assert!(checkout(2).unwrap().is_some());
    assert_eq!(pool.active(), 1);
}

#[test]
fn shutdown_closes_pool() {
    let pool = test_pool(2);

    {
        let isle = pool.checkout().unwrap();
        let one: i64 = isle.query_row("SELECT 1", [], |r| r.get(0)).unwrap();
        assert_eq!(one, 1);
        pool.give_back(isle);
    }
    assert_eq!(pool.idle(), 1);

    assert_eq!(pool.shutdown(), 1);
    assert_eq!(pool.idle(), 0);

    let result = pool.checkout();
    assert!(
        matches!(result, Err(IsleError::Closed)),
        "expected Closed after shutdown"
    );
    let result = pool.try_checkout();
    assert!(matches!(result, Err(IsleError::Closed)));
}

#[test]
fn isle_given_back_to_a_closed_pool_is_shut_down() {
    let pool = test_pool(1);
    let isle = pool.checkout().unwrap();
    assert_eq!(pool.shutdown(), 0);
    assert!(matches!(pool.give_back(isle), Returned::ShutDown(_)));
    assert_eq!(pool.active(), 0);
    assert_eq!(pool.idle(), 0);
}

#[test]
fn empty_pool_is_refused() {
    let pool: Result<IslePool<Connection>, IsleError> = IslePool::new(PoolConfig { max_size: 0 });
    assert!(matches!(pool, Err(IsleError::Closed)));
}

#[test]
fn failed_factory_frees_its_place() {
    let pool = test_pool(1);
    let (_, failed) = IslePool::<Connection>::try_checkout(
        (),
        &|w| (w, pool.take()),
        &|w| (w, Made::Failed(IsleError::Timeout)),
        &|w| {
            pool.books.borrow_mut().dec_active();
            w
        },
    );
    assert!(matches!(failed, Err(IsleError::Timeout)));
    assert_eq!(pool.active(), 0);
    assert!(pool.try_checkout().unwrap().is_some());
}

#[test]
fn panicking_factory_frees_its_place() {
    let pool = test_pool(1);
    let (_, failed) = IslePool::checkout(
        (),
        1,
        &|w| (w, pool.take()),
        &|w| (w, Made::Panicked(PanicPayload::Literal("boom".to_string()))),
        &|w| {
            pool.books.borrow_mut().dec_active();
            w
        },
        &|w| (w, Ok(())),
    );
    assert!(matches!(failed, Err(IsleError::Panicked(m)) if m == "boom"));
    assert_eq!(pool.active(), 0);
    assert!(pool.try_checkout().unwrap().is_some());
}

#[test]
fn dead_isles_are_skipped_and_dropped() {
    let mut books: IslePool<u8> = IslePool::new(PoolConfig { max_size: 3 }).unwrap();
    for _ in 0..3 {
        assert!(matches!(books.take(|_| true), Ok(Acquired::Spawn)));
    }
    assert!(matches!(books.take(|_| true), Ok(Acquired::NeedWait)));
    for isle in 1..4 {
        assert!(matches!(books.return_isle(isle, |_| true), Returned::Kept));
    }
    assert_eq!((books.active(), books.idle()), (0, 3));

    // The last one back goes first, unless it died meanwhile.
    assert!(matches!(books.take(|isle| *isle < 3), Ok(Acquired::Isle(2))));
    assert_eq!((books.active(), books.idle()), (1, 1));

    // With none alive a new isle takes the place of the dead.
    assert!(matches!(books.take(|_| false), Ok(Acquired::Spawn)));
    assert_eq!((books.active(), books.idle()), (2, 0));

    assert!(matches!(books.return_isle(2, |_| false), Returned::Dropped(2)));
    assert_eq!((books.active(), books.idle()), (1, 0));
    books.dec_active();
    books.dec_active();
    assert_eq!(books.active(), 0);
}

//! An isle served on the test's own thread: whoever waits for a reply serves the
//! queued jobs meanwhile.

use rusqlite::Connection;
use rusqlite_isle::handle::{start_up, Admission, OpenPlan, Waited};
use rusqlite_isle::job::{run_on_connection, Caught, JobOutcome, PanicPayload};
use rusqlite_isle::token::Attached;
use rusqlite_isle::worker::{serve_next, Request};
use rusqlite_isle::{CancelToken, Isle, IsleBuilder, IsleError, Task};
use std::cell::{Cell, RefCell};
use std::rc::Rc;
use std::sync::mpsc;

type Job = Box<dyn FnOnce(Connection) -> (Connection, JobOutcome)>;
type Respond<T> = mpsc::Sender<Result<T, IsleError>>;
type Reply<T> = mpsc::Receiver<Result<T, IsleError>>;

struct TestIsle {
    tx: mpsc::SyncSender<Request<Job>>,
    rx: RefCell<Option<mpsc::Receiver<Request<Job>>>>,
    conn: RefCell<Option<Connection>>,
    abort: Rc<Cell<bool>>,
    isle: RefCell<Isle<()>>,
}

fn open(builder: IsleBuilder, init: fn(&mut Connection) -> Result<(), rusqlite::Error>) -> TestIsle {
    let slot: RefCell<Option<Result<Connection, IsleError>>> = RefCell::new(None);
    let capacity = Cell::new(0);
    let (_, started) = builder.open_in_memory(
        (),
        |w, launch| {
            capacity.set(launch.channel_capacity);
            let ready = start_up(
                launch.open,
                launch.busy_timeout,
                |plan| match plan {
                    OpenPlan::WithFlags(path, flags) => Connection::open_with_flags(path, flags),
                    OpenPlan::Default(path) => Connection::open(path),
                    OpenPlan::InMemory => Connection::open_in_memory(),
                },
                |conn: Connection, t| {
                    let set = conn.busy_timeout(t);
                    (conn, set)
                },
                |mut conn: Connection| {
                    let done = init(&mut conn);
                    (conn, done)
                },
            );
            *slot.borrow_mut() = Some(ready);
            (w, Some(()))
        },
        |w| (w, slot.borrow_mut().take()),
        |w, ()| w,
    );
    let (isle, conn) = started.unwrap();
    let (tx, rx) = mpsc::sync_channel(capacity.get());
    TestIsle {
        tx,
        rx: RefCell::new(Some(rx)),
        conn: RefCell::new(Some(conn)),
        abort: Rc::new(Cell::new(false)),
        isle: RefCell::new(isle),
    }
}

fn open_test_isle() -> TestIsle {
    open(Isle::<()>::builder(), |conn| {
        conn.execute_batch("CREATE TABLE t (id INTEGER PRIMARY KEY, x INTEGER NOT NULL)")
    })
}

impl TestIsle {
    /// What makes a job around `f`.
    fn job<T: 'static>(
        &self,
        f: impl FnOnce(&mut Connection) -> Result<T, rusqlite::Error> + 'static,
    ) -> impl FnOnce(CancelToken, Respond<T>) -> Job {
        self.caught_job(|conn| match f(conn) {
            Ok(value) => Caught::Returned(value),
            Err(e) => Caught::Failed(e),
        })
    }

    fn caught_job<T: 'static>(
        &self,
        f: impl FnOnce(&mut Connection) -> Caught<T> + 'static,
    ) -> impl FnOnce(CancelToken, Respond<T>) -> Job {
        let abort = Rc::clone(&self.abort);
        move |token: CancelToken, resp: Respond<T>| {
            let job: Job = Box::new(move |conn| {
                run_on_connection(
                    conn,
                    &token,
                    |mut attached: Attached| {
                        let caught = f(attached.connection_mut());
                        (attached, caught)
                    },
                    |c| (c, abort.get()),
                    |c, result| {
                        let _ = resp.send(result);
                        c
                    },
                )
            });
            job
        }
    }

    /// Serves queued requests until none is left or the loop ends.
    fn pump(&self) {
        loop {
            let request = match self.rx.borrow().as_ref().map(|rx| rx.try_recv()) {
                Some(Ok(request)) => request,
                _ => return,
            };
            let request = RefCell::new(Some(request));
            let conn = self.conn.borrow_mut().take().unwrap();
            let (conn, more) = serve_next(
                conn,
                &|c| (c, request.borrow_mut().take()),
                &|c| (c, self.abort.get()),
                &|c, job: Job| job(c),
                &|c, _job| c,
                &|c: Connection| {
                    let healthy = c.query_row("SELECT 1", [], |row| row.get::<_, i64>(0)).is_ok();
                    (c, healthy)
                },
            );
            *self.conn.borrow_mut() = Some(conn);
            if !more {
                *self.rx.borrow_mut() = None;
            }
        }
    }

    fn send(&self, request: Request<Job>) -> bool {
        self.tx.send(request).is_ok()
    }

    fn try_send(&self, request: Request<Job>) -> Admission {
        match self.tx.try_send(request) {
            Ok(()) => Admission::Accepted,
            Err(mpsc::TrySendError::Full(_)) => Admission::Full,
            Err(mpsc::TrySendError::Disconnected(_)) => Admission::Disconnected,
        }
    }

    fn reply<T>(&self, rx: Reply<T>) -> Option<Result<T, IsleError>> {
        self.pump();
        rx.try_recv().ok()
    }

    fn call<T: 'static>(
        &self,
        f: impl FnOnce(&mut Connection) -> Result<T, rusqlite::Error> + 'static,
    ) -> Result<T, IsleError> {
        Isle::<()>::call(
            (),
            mpsc::channel,
            self.job(f),
            |w, r| (w, self.send(r)),
            |w, rx| (w, self.reply(rx)),
        )
        .1
    }

    fn spawn_call<T: 'static>(
        &self,
        f: impl FnOnce(&mut Connection) -> Result<T, rusqlite::Error> + 'static,
    ) -> Result<Task<Reply<T>>, IsleError> {
        self.spawn(self.job(f))
    }

    fn spawn<T: 'static>(
        &self,
        make: impl FnOnce(CancelToken, Respond<T>) -> Job,
    ) -> Result<Task<Reply<T>>, IsleError> {
        Isle::<()>::spawn_call((), mpsc::channel, make, |w, r| (w, self.send(r))).1
    }

    fn try_call<T: 'static>(
        &self,
        f: impl FnOnce(&mut Connection) -> Result<T, rusqlite::Error> + 'static,
    ) -> Result<Task<Reply<T>>, IsleError> {
        Isle::<()>::try_call((), mpsc::channel, self.job(f), |w, r| (w, self.try_send(r))).1
    }

    fn wait<T>(&self, task: Task<Reply<T>>) -> Result<T, IsleError> {
        task.wait((), |w, rx| (w, self.reply(rx))).1
    }

    fn shutdown(&self) -> Result<(), IsleError> {
        Isle::<()>::shutdown(
            (),
            |w, r| (w, self.send(r)),
            |w| (w, Ok(self.isle.borrow_mut().take_thread())),
            |w, ()| {
                self.pump();
                (w, true)
            },
        )
        .1
    }
}

#[test]
fn crud_basic() {
    let isle = open_test_isle();

    let inserted: usize = isle
        .call(|conn| conn.execute("INSERT INTO t (x) VALUES (?1)", [42]))
        .unwrap();
    assert_eq!(inserted, 1);

    let x: i64 = isle
        .call(|conn| conn.query_row("SELECT x FROM t WHERE id = 1", [], |r| r.get(0)))
        .unwrap();
    assert_eq!(x, 42);

    let updated: usize = isle
        .call(|conn| conn.execute("UPDATE t SET x = 7 WHERE id = 1", []))
        .unwrap();
    assert_eq!(updated, 1);

    let deleted: usize = isle
        .call(|conn| conn.execute("DELETE FROM t WHERE id = 1", []))
        .unwrap();
    assert_eq!(deleted, 1);

    let n: i64 = isle
        .call(|conn| conn.query_row("SELECT count(*) FROM t", [], |r| r.get(0)))
        .unwrap();
    assert_eq!(n, 0);

    isle.shutdown().unwrap();
}

/// A query that goes on for a very long time; `hook` is called once it has
/// produced its first row.
fn long_query(conn: &mut Connection, hook: impl FnOnce()) -> Result<i64, rusqlite::Error> {
    let mut stmt = conn.prepare(
        "WITH RECURSIVE c(x) AS (SELECT 1 UNION ALL SELECT x + 1 FROM c \
         WHERE x < 1000000000) SELECT x FROM c",
    )?;
    let mut rows = stmt.query([])?;
    rows.next()?;
    hook();
    let mut n = 1;
    while rows.next()?.is_some() {
        n += 1;
    }
    Ok(n)
}

fn select_one(isle: &TestIsle) -> i64 {
    isle.call(|conn| conn.query_row("SELECT 1", [], |r| r.get(0)))
        .unwrap()
}

#[test]
fn transaction_commit_inside_closure() {
    let isle = open_test_isle();

    let n: i64 = isle
        .call(|conn| {
            let tx = conn.transaction()?;
            tx.execute("INSERT INTO t (x) VALUES (1)", [])?;
            tx.execute("INSERT INTO t (x) VALUES (2)", [])?;
            let n: i64 = tx.query_row("SELECT count(*) FROM t", [], |r| r.get(0))?;
            tx.commit()?;
            Ok(n)
        })
        .unwrap();
    assert_eq!(n, 2);

    isle.shutdown().unwrap();
}

#[test]
fn transaction_rolls_back_on_error() {
    let isle = open_test_isle();

    let result: Result<(), IsleError> = isle.call(|conn| {
        let tx = conn.transaction()?;
        tx.execute("INSERT INTO t (x) VALUES (1)", [])?;
        // Force an error before commit; tx rolls back on drop.
        tx.query_row("SELECT * FROM missing_table", [], |_| Ok(()))?;
        tx.commit()?;
        Ok(())
    });
    assert!(matches!(result, Err(IsleError::Sqlite(_))));

    let n: i64 = isle
        .call(|conn| conn.query_row("SELECT count(*) FROM t", [], |r| r.get(0)))
        .unwrap();
    assert_eq!(n, 0, "uncommitted insert must have rolled back");

    isle.shutdown().unwrap();
}

#[test]
fn deadline_that_elapses_while_queued_reports_timeout() {
    let isle = open_test_isle();
    let ran = Rc::new(Cell::new(false));
    let runs = Rc::clone(&ran);
    let (_, result) = Isle::<()>::call_timeout(
        (),
        mpsc::channel,
        isle.job(move |_conn| {
            runs.set(true);
            Ok(1_i64)
        }),
        |w, r| (w, isle.send(r)),
        |w, _rx: &Reply<i64>| (w, Waited::Elapsed),
        |w, token: &CancelToken, reason| {
            token.fire(reason);
            w
        },
        |w, rx| (w, isle.reply(rx)),
    );
    assert!(matches!(result, Err(IsleError::Timeout)));
    assert!(!ran.get());
    assert_eq!(select_one(&isle), 1);
}

#[test]
fn deadline_that_elapses_during_the_run_reports_timeout() {
    let isle = open_test_isle();
    let own: Rc<RefCell<Option<CancelToken>>> = Rc::new(RefCell::new(None));

    let expired = Rc::clone(&own);
    let make = isle.job(move |conn| {
        long_query(conn, || {
            let token = expired.borrow();
            token.as_ref().unwrap().expire();
            // A cancel that comes second does not change the reason.
            token.as_ref().unwrap().cancel();
        })
    });
    let (_, result) = Isle::<()>::call(
        (),
        mpsc::channel,
        |token, resp| {
            *own.borrow_mut() = Some(token.clone());
            make(token, resp)
        },
        |w, r| (w, isle.send(r)),
        |w, rx| (w, isle.reply(rx)),
    );
    assert!(matches!(result, Err(IsleError::Timeout)));
    assert_eq!(select_one(&isle), 1);
}

#[test]
fn call_timeout_met_returns_the_reply() {
    let isle = open_test_isle();
    let (_, result) = Isle::<()>::call_timeout(
        (),
        mpsc::channel,
        isle.job(|conn| conn.query_row("SELECT 5", [], |r| r.get::<_, i64>(0))),
        |w, r| (w, isle.send(r)),
        |w, rx: &Reply<i64>| {
            isle.pump();
            (w, Waited::Reply(rx.try_recv().unwrap()))
        },
        |_w, _token: &CancelToken, _reason| unreachable!(),
        |w, rx| (w, isle.reply(rx)),
    );
    assert_eq!(result.unwrap(), 5);

    let (_, result) = Isle::<()>::call_timeout(
        (),
        mpsc::channel,
        isle.job(|_conn| Ok(6_i64)),
        |w, r| (w, isle.send(r)),
        |w, _rx: &Reply<i64>| (w, Waited::Disconnected),
        |w, _token: &CancelToken, _reason| w,
        |w, rx| (w, isle.reply(rx)),
    );
    assert!(matches!(result, Err(IsleError::Closed)));
}

#[test]
fn busy_is_sqlite_error_even_when_cancelled() {
    let isle = open_test_isle();
    let own: Rc<RefCell<Option<CancelToken>>> = Rc::new(RefCell::new(None));

    let cancelled = Rc::clone(&own);
    let task = isle
        .spawn_call(move |_conn| {
            cancelled.borrow().as_ref().unwrap().expire();
            let busy = rusqlite::ffi::Error::new(rusqlite::ffi::SQLITE_BUSY);
            Err::<(), _>(rusqlite::Error::SqliteFailure(busy, None))
        })
        .unwrap();
    *own.borrow_mut() = Some(task.cancel_token().clone());
    let result = isle.wait(task);
    match result {
        Err(IsleError::Sqlite(e)) => {
            assert_eq!(e.sqlite_error_code(), Some(rusqlite::ErrorCode::DatabaseBusy));
        }
        other => panic!("SQLITE_BUSY must stay in the Sqlite variant, got {other:?}"),
    }
}

#[test]
fn panic_is_reported_and_isle_survives() {
    let isle = open_test_isle();

    let task = isle
        .spawn(isle.caught_job::<()>(|_conn| {
            Caught::Panicked(PanicPayload::Literal("boom in job".to_string()))
        }))
        .unwrap();
    match isle.wait(task) {
        Err(IsleError::Panicked(msg)) => assert!(msg.contains("boom in job"), "msg: {msg}"),
        other => panic!("expected Panicked, got {other:?}"),
    }

    // Health check passed: subsequent calls continue normally.
    assert_eq!(select_one(&isle), 1);

    isle.shutdown().unwrap();
}

#[test]
fn sync_basic_late_cancel_does_not_interrupt_next_job() {
    let isle = open_test_isle();

    for i in 0..30 {
        let task = isle
            .spawn_call(move |conn| conn.execute("INSERT INTO t (x) VALUES (?1)", [i]))
            .unwrap();
        let token = task.cancel_token().clone();
        let inserted = isle.wait(task).unwrap();
        assert_eq!(inserted, 1);
        // Fire the token AFTER completion: must not affect the next job.
        token.cancel();
        let n: i64 = isle
            .call(|conn| conn.query_row("SELECT count(*) FROM t", [], |r| r.get(0)))
            .unwrap();
        assert_eq!(n, i64::from(i) + 1);
    }

    isle.shutdown().unwrap();
}

#[test]
fn cancel_of_a_finished_job_does_not_interrupt_the_running_one() {
    let isle = open_test_isle();
    isle.call(|conn| conn.execute_batch("INSERT INTO t (x) VALUES (1), (2), (3)"))
        .unwrap();
    let finished = isle.spawn_call(|_conn| Ok(())).unwrap();
    let token = finished.cancel_token().clone();
    isle.wait(finished).unwrap();
    let n: i64 = isle
        .call(move |conn| {
            let mut stmt = conn.prepare("SELECT x FROM t")?;
            let mut rows = stmt.query([])?;
            let mut n = 0;
            while rows.next()?.is_some() {
                token.cancel();
                n += 1;
            }
            Ok(n)
        })
        .unwrap();
    assert_eq!(n, 3);
}

#[test]
fn value_of_a_job_cancelled_meanwhile_is_not_reported() {
    let isle = open_test_isle();
    let own: Rc<RefCell<Option<CancelToken>>> = Rc::new(RefCell::new(None));
    let cancelled = Rc::clone(&own);
    let task = isle
        .spawn_call(move |_conn| {
            cancelled.borrow().as_ref().unwrap().cancel();
            Ok(5_i64)
        })
        .unwrap();
    *own.borrow_mut() = Some(task.cancel_token().clone());
    assert!(matches!(isle.wait(task), Err(IsleError::Cancelled)));
}

#[test]
fn shutdown_drains_queued_jobs_then_closes() {
    let isle = open_test_isle();

    let tasks: Vec<_> = (0..5)
        .map(|i| {
            isle.spawn_call(move |conn| conn.execute("INSERT INTO t (x) VALUES (?1)", [i]))
                .unwrap()
        })
        .collect();

    isle.shutdown().unwrap();

    // All queued jobs ran to completion before the thread exited.
    for task in tasks {
        assert_eq!(isle.wait(task).unwrap(), 1);
    }

    // Submissions after shutdown report Closed.
    let after: Result<i64, IsleError> =
        isle.call(|conn| conn.query_row("SELECT 1", [], |r| r.get(0)));
    assert!(
        matches!(after, Err(IsleError::Closed)),
        "expected Closed, got {after:?}"
    );
    let after_try = isle.try_call(|_conn| Ok(()));
    assert!(matches!(after_try, Err(IsleError::Closed)));
    let after_spawn = isle.spawn_call(|_conn| Ok(()));
    assert!(matches!(after_spawn, Err(IsleError::Closed)));

    // A second shutdown is a no-op.
    isle.shutdown().unwrap();
    assert!(!isle.isle.borrow().is_alive(|()| false));
}

#[test]
fn aborting_isle_discards_queued_jobs() {
    let isle = open_test_isle();
    let queued = isle
        .spawn_call(|conn| conn.execute("INSERT INTO t (x) VALUES (1)", []))
        .unwrap();
    isle.abort.set(true);
    assert!(matches!(isle.wait(queued), Err(IsleError::Closed)));
    isle.abort.set(false);
    let n: i64 = isle
        .call(|conn| conn.query_row("SELECT count(*) FROM t", [], |r| r.get(0)))
        .unwrap();
    assert_eq!(n, 0);
}

#[test]
fn interrupt_while_aborting_reports_closed() {
    let isle = open_test_isle();
    let abort = Rc::clone(&isle.abort);
    let task = isle
        .spawn_call(move |conn| {
            let handle = conn.get_interrupt_handle();
            long_query(conn, || {
                abort.set(true);
                handle.interrupt();
            })
        })
        .unwrap();
    assert!(matches!(isle.wait(task), Err(IsleError::Closed)));
}

#[test]
fn stray_interrupt_stays_a_sqlite_error() {
    let isle = open_test_isle();
    let task = isle
        .spawn_call(move |conn| {
            let handle = conn.get_interrupt_handle();
            long_query(conn, || handle.interrupt())
        })
        .unwrap();
    match isle.wait(task) {
        Err(IsleError::Sqlite(e)) => assert!(IsleError::is_interrupt(&e)),
        other => panic!("expected Sqlite, got {other:?}"),
    }
}

#[test]
fn poisoned_lock_and_panicked_thread_are_reported() {
    let (_, poisoned) = Isle::<u8>::shutdown(
        (),
        |w, _r: Request<Job>| (w, true),
        |w| (w, Err("poisoned lock".to_string())),
        |w, _k: u8| (w, true),
    );
    assert!(matches!(poisoned, Err(IsleError::Panicked(m)) if m == "poisoned lock"));

    let (_, panicked) = Isle::<u8>::shutdown(
        (),
        |w, _r: Request<Job>| (w, false),
        |w| (w, Ok(Some(3))),
        |w, _k: u8| (w, false),
    );
    assert!(matches!(panicked, Err(IsleError::Panicked(m)) if m == "sqlite thread panicked"));
}

#[test]
fn shutdown_sends_before_it_joins() {
    let (log, result) = Isle::<u8>::shutdown(
        Vec::new(),
        |mut log: Vec<&str>, r: Request<Job>| {
            assert!(matches!(r, Request::Shutdown));
            log.push("send");
            (log, true)
        },
        |mut log| {
            log.push("take");
            (log, Ok(Some(7)))
        },
        |mut log, k| {
            assert_eq!(k, 7);
            log.push("join");
            (log, true)
        },
    );
    assert!(result.is_ok());
    assert_eq!(log, ["send", "take", "join"]);
}

#[test]
fn failed_init_is_reported_and_the_thread_joined() {
    let joined = Cell::new(0);
    let (_, started) = Isle::<u8>::open_in_memory(
        (),
        |w, _launch| (w, Some(9)),
        |w| {
            let failed = start_up(
                OpenPlan::InMemory,
                None,
                |_plan| Connection::open_in_memory(),
                |conn: Connection, _t| (conn, Ok(())),
                |conn: Connection| {
                    let done = conn.execute_batch("SELECT * FROM missing_table");
                    (conn, done)
                },
            );
            (w, Some(failed.map(|_| ())))
        },
        |w, k| {
            joined.set(k);
            w
        },
    );
    assert!(matches!(started, Err(IsleError::Sqlite(_))));
    assert_eq!(joined.get(), 9);
}

#[test]
fn launch_failures_close_the_isle() {
    let (_, refused) = Isle::<u8>::open_in_memory(
        (),
        |w, _launch| (w, None),
        |w| (w, Some(Ok(()))),
        |w, _k| w,
    );
    assert!(matches!(refused, Err(IsleError::Closed)));

    let joined = Cell::new(false);
    let (_, vanished) = Isle::<u8>::open_in_memory(
        (),
        |w, _launch| (w, Some(1)),
        |w| (w, None::<Result<(), IsleError>>),
        |w, _k| {
            joined.set(true);
            w
        },
    );
    assert!(matches!(vanished, Err(IsleError::Closed)));
    assert!(joined.get());
}

#[test]
fn try_recv_is_none_while_pending() {
    let isle = open_test_isle();
    let task = isle.spawn_call(|_conn| Ok(4_i64)).unwrap();
    assert!(task.try_recv(|rx: &Reply<i64>| rx.try_recv().ok()).is_none());
    isle.pump();
    let polled = task.try_recv(|rx: &Reply<i64>| rx.try_recv().ok());
    assert_eq!(polled.unwrap().unwrap(), 4);
}

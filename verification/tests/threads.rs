//! Isles and a pool on threads of their own: callers act while a job runs.

use rusqlite::Connection;
use rusqlite_isle::handle::{isle_thread, start_up, Admission, Launch, OpenPlan, Waited};
use rusqlite_isle::job::{make_job, Caught, JobOutcome};
use rusqlite_isle::pool::{Acquired, Made};
use rusqlite_isle::token::Attached;
use rusqlite_isle::worker::{run_loop, Request};
use rusqlite_isle::{CancelToken, Isle, IsleBuilder, IsleError, IslePool, PoolConfig, Task};
use std::sync::atomic::{AtomicBool, Ordering};
use std::sync::{mpsc, Arc, Condvar, Mutex, MutexGuard};
use std::time::Duration;
use tokio::runtime::{Builder, Runtime};
use tokio::task::JoinHandle;

type Job = Box<dyn FnOnce(Connection) -> (Connection, JobOutcome) + Send>;
type Respond<T> = mpsc::Sender<Result<T, IsleError>>;
type Reply<T> = mpsc::Receiver<Result<T, IsleError>>;
type Rules = Isle<JoinHandle<()>>;
type Link = Option<(mpsc::SyncSender<Request<Job>>, mpsc::Receiver<Result<(), IsleError>>)>;

fn pause(millis: u64) {
    let (_held, never) = mpsc::channel::<()>();
    let _ = never.recv_timeout(Duration::from_millis(millis));
}

fn threads() -> Runtime {
    Builder::new_current_thread().build().unwrap()
}

struct ThreadIsle {
    tx: mpsc::SyncSender<Request<Job>>,
    isle: Mutex<Rules>,
    abort: Arc<AtomicBool>,
    threads: Runtime,
}

fn serve(conn: Connection, rx: &mpsc::Receiver<Request<Job>>, abort: &AtomicBool) {
    run_loop(
        conn,
        u64::MAX,
        &|c| (c, rx.recv().ok()),
        &|c| (c, abort.load(Ordering::Acquire)),
        &|c, job: Job| job(c),
        &|c, _job| c,
        &|c: Connection| {
            let healthy = c.query_row("SELECT 1", [], |row| row.get::<_, i64>(0)).is_ok();
            (c, healthy)
        },
    );
}

fn open(builder: IsleBuilder) -> ThreadIsle {
    let threads = threads();
    let abort = Arc::new(AtomicBool::new(false));
    let (link, started) = builder.open_in_memory(
        None,
        |_link: Link, launch: Launch| {
            let (tx, rx) = mpsc::sync_channel(launch.channel_capacity);
            let (init_tx, init_rx) = mpsc::channel();
            let abort = Arc::clone(&abort);
            let join = threads.spawn_blocking(move || {
                let start = |()| {
                    let ready = start_up(
                        launch.open,
                        launch.busy_timeout,
                        |_plan: OpenPlan| Connection::open_in_memory(),
                        |conn: Connection, t| {
                            let set = conn.busy_timeout(t);
                            (conn, set)
                        },
                        |conn: Connection| (conn, Ok(())),
                    );
                    ((), ready)
                };
                isle_thread(
                    (),
                    start,
                    |_conn: &Connection| (),
                    |(), started| {
                        let _ = init_tx.send(started);
                    },
                    |(), conn| serve(conn, &rx, &abort),
                )
            });
            (Some((tx, init_rx)), Some(join))
        },
        |link| {
            let report = link.as_ref().and_then(|(_, init_rx)| init_rx.recv().ok());
            (link, report)
        },
        |link, _join| link,
    );
    let (isle, ()) = started.unwrap();
    ThreadIsle {
        tx: link.unwrap().0,
        isle: Mutex::new(isle),
        abort,
        threads,
    }
}

fn open_test_isle() -> ThreadIsle {
    open(Rules::builder())
}

impl ThreadIsle {
    fn job<T, F>(&self, f: F) -> impl FnOnce(CancelToken, Respond<T>) -> Job
    where
        T: Send + 'static,
        F: FnOnce(&mut Connection) -> Result<T, rusqlite::Error> + Send + 'static,
    {
        let abort = Arc::clone(&self.abort);
        move |token: CancelToken, resp: Respond<T>| {
            let job = make_job(
                |mut attached: Attached| {
                    let caught = match f(attached.connection_mut()) {
                        Ok(value) => Caught::Returned(value),
                        Err(e) => Caught::Failed(e),
                    };
                    (attached, caught)
                },
                token,
                move |conn: Connection| (conn, abort.load(Ordering::Acquire)),
                move |conn: Connection, result| {
                    let _ = resp.send(result);
                    conn
                },
            );
            let boxed: Job = Box::new(move |conn| job.serve(conn));
            boxed
        }
    }

    fn send(&self, request: Request<Job>) -> bool {
        self.tx.send(request).is_ok()
    }

    fn call<T, F>(&self, f: F) -> Result<T, IsleError>
    where
        T: Send + 'static,
        F: FnOnce(&mut Connection) -> Result<T, rusqlite::Error> + Send + 'static,
    {
        Rules::call(
            (),
            mpsc::channel,
            self.job(f),
            |w, r| (w, self.send(r)),
            |w, rx: Reply<T>| (w, rx.recv().ok()),
        )
        .1
    }

    fn call_timeout<T, F>(&self, timeout: Duration, f: F) -> Result<T, IsleError>
    where
        T: Send + 'static,
        F: FnOnce(&mut Connection) -> Result<T, rusqlite::Error> + Send + 'static,
    {
        Rules::call_timeout(
            (),
            mpsc::channel,
            self.job(f),
            |w, r| (w, self.send(r)),
            |w, rx: &Reply<T>| {
                let waited = match rx.recv_timeout(timeout) {
                    Ok(result) => Waited::Reply(result),
                    Err(mpsc::RecvTimeoutError::Timeout) => Waited::Elapsed,
                    Err(mpsc::RecvTimeoutError::Disconnected) => Waited::Disconnected,
                };
                (w, waited)
            },
            |w, token: &CancelToken, reason| {
                token.fire(reason);
                w
            },
            |w, rx: Reply<T>| (w, rx.recv().ok()),
        )
        .1
    }

    fn try_call<T, F>(&self, f: F) -> Result<Task<Reply<T>>, IsleError>
    where
        T: Send + 'static,
        F: FnOnce(&mut Connection) -> Result<T, rusqlite::Error> + Send + 'static,
    {
        Rules::try_call((), mpsc::channel, self.job(f), |w, r| {
            let admission = match self.tx.try_send(r) {
                Ok(()) => Admission::Accepted,
                Err(mpsc::TrySendError::Full(_)) => Admission::Full,
                Err(mpsc::TrySendError::Disconnected(_)) => Admission::Disconnected,
            };
            (w, admission)
        })
        .1
    }

    fn spawn_call<T, F>(&self, f: F) -> Result<Task<Reply<T>>, IsleError>
    where
        T: Send + 'static,
        F: FnOnce(&mut Connection) -> Result<T, rusqlite::Error> + Send + 'static,
    {
        Rules::spawn_call((), mpsc::channel, self.job(f), |w, r| (w, self.send(r))).1
    }

    fn shutdown(&self) -> Result<(), IsleError> {
        Rules::shutdown(
            (),
            |w, r| (w, self.send(r)),
            |w| (w, Ok(self.isle.lock().unwrap().take_thread())),
            |w, join| (w, self.threads.block_on(join).is_ok()),
        )
        .1
    }
}

fn wait<T>(task: Task<Reply<T>>) -> Result<T, IsleError> {
    task.wait((), |w, rx: Reply<T>| (w, rx.recv().ok())).1
}

/// A query that runs long enough to be interrupted mid-flight.
fn long_query(conn: &mut Connection) -> Result<i64, rusqlite::Error> {
    conn.query_row(
        "WITH RECURSIVE c(x) AS (SELECT 1 UNION ALL SELECT x+1 FROM c \
         WHERE x < 1000000000) SELECT count(*) FROM c",
        [],
        |r| r.get(0),
    )
}

fn select_one(isle: &ThreadIsle) -> i64 {
    isle.call(|conn| conn.query_row("SELECT 1", [], |r| r.get(0)))
        .unwrap()
}

#[test]
fn cancel_running_query() {
    let isle = open_test_isle();

    let task = isle.spawn_call(long_query).unwrap();
    pause(100);
    task.cancel();
    let result = wait(task);
    assert!(
        matches!(result, Err(IsleError::Cancelled)),
        "expected Cancelled, got {result:?}"
    );

    // The isle keeps serving jobs after an interrupt.
    assert_eq!(select_one(&isle), 1);

    isle.shutdown().unwrap();
}

#[test]
fn cancel_queued_job() {
    let isle = open_test_isle();

    let running = isle.spawn_call(long_query).unwrap();
    pause(50);
    let ran = Arc::new(AtomicBool::new(false));
    let runs = Arc::clone(&ran);
    let queued = isle
        .spawn_call(move |conn| {
            runs.store(true, Ordering::Release);
            conn.query_row("SELECT 1", [], |r| r.get::<_, i64>(0))
        })
        .unwrap();
    queued.cancel();
    running.cancel();

    assert!(matches!(wait(queued), Err(IsleError::Cancelled)));
    assert!(matches!(wait(running), Err(IsleError::Cancelled)));
    assert!(!ran.load(Ordering::Acquire));

    isle.shutdown().unwrap();
}

#[test]
fn call_timeout_returns_timeout() {
    let isle = open_test_isle();

    let result = isle.call_timeout(Duration::from_millis(100), long_query);
    assert!(
        matches!(result, Err(IsleError::Timeout)),
        "expected Timeout, got {result:?}"
    );

    // Thread is healthy afterwards.
    assert_eq!(select_one(&isle), 1);

    isle.shutdown().unwrap();
}

#[test]
fn value_that_comes_after_the_deadline_is_a_timeout() {
    let isle = open_test_isle();
    let result = isle.call_timeout(Duration::from_millis(10), |_conn| {
        pause(200);
        Ok(1_i64)
    });
    assert!(matches!(result, Err(IsleError::Timeout)));
    let in_time = isle.call_timeout(Duration::from_secs(10), |_conn| Ok(2_i64));
    assert_eq!(in_time.unwrap(), 2);
    isle.shutdown().unwrap();
}

#[test]
fn value_that_comes_after_the_cancel_is_a_cancel() {
    let isle = open_test_isle();
    let task = isle
        .spawn_call(|_conn| {
            pause(200);
            Ok(1_i64)
        })
        .unwrap();
    pause(50);
    task.cancel();
    assert!(matches!(wait(task), Err(IsleError::Cancelled)));
    isle.shutdown().unwrap();
}

#[test]
fn sync_basic_try_call_queue_full() {
    let isle = open(Rules::builder().channel_capacity(1));

    // Occupy the thread with a sleeping job.
    let running = isle
        .spawn_call(|_conn| {
            pause(500);
            Ok(())
        })
        .unwrap();
    pause(100);

    // Fill the single queue slot.
    let queued = isle.try_call(|_conn| Ok(1_i64)).unwrap();

    // Next non-waiting submission must report backpressure.
    let overflow = isle.try_call(|_conn| Ok(2_i64));
    assert!(
        matches!(overflow, Err(IsleError::QueueFull)),
        "expected QueueFull"
    );

    wait(running).unwrap();
    assert_eq!(wait(queued).unwrap(), 1);
    isle.shutdown().unwrap();
}

#[test]
fn immediate_shutdown_aborts_running_and_queued_jobs() {
    let isle = open_test_isle();
    let (handle_tx, handle_rx) = mpsc::channel();
    let running = isle
        .spawn_call(move |conn| {
            handle_tx.send(conn.get_interrupt_handle()).unwrap();
            long_query(conn)
        })
        .unwrap();
    let queued = isle.spawn_call(|_conn| Ok(1_i64)).unwrap();
    let handle = handle_rx.recv().unwrap();
    pause(100);
    isle.abort.store(true, Ordering::Release);
    handle.interrupt();
    isle.shutdown().unwrap();
    assert!(matches!(wait(running), Err(IsleError::Closed)));
    assert!(matches!(wait(queued), Err(IsleError::Closed)));
}

struct ThreadPool {
    books: Mutex<IslePool<Connection>>,
    condvar: Condvar,
}

type Held<'pool> = Option<MutexGuard<'pool, IslePool<Connection>>>;

impl ThreadPool {
    fn checkout(&self) -> Result<Connection, IsleError> {
        let (_, got) = IslePool::checkout(
            Some(self.books.lock().unwrap()),
            u64::MAX,
            &|held: Held<'_>| {
                let mut books = held.unwrap();
                match books.take(|_isle| true) {
                    Ok(Acquired::NeedWait) => (Some(books), Ok(Acquired::NeedWait)),
                    got => (None, got),
                }
            },
            &|held| (held, Made::Isle(Connection::open_in_memory().unwrap())),
            &|held| held,
            &|held: Held<'_>| (Some(self.condvar.wait(held.unwrap()).unwrap()), Ok(())),
        );
        got.map(|isle| isle.unwrap())
    }

    fn give_back(&self, isle: Connection) {
        self.books.lock().unwrap().return_isle(isle, |_isle| true);
        self.condvar.notify_one();
    }

    fn shutdown(&self) {
        self.books.lock().unwrap().shutdown();
        self.condvar.notify_all();
    }
}

fn test_pool(max_size: usize) -> Arc<ThreadPool> {
    Arc::new(ThreadPool {
        books: Mutex::new(IslePool::new(PoolConfig { max_size }).unwrap()),
        condvar: Condvar::new(),
    })
}

#[test]
fn checkout_unblocks_when_returned() {
    let threads = threads();
    let pool = test_pool(1);

    let held = pool.checkout().unwrap();
    let waiter = Arc::clone(&pool);
    let join = threads.spawn_blocking(move || {
        let isle = waiter.checkout().unwrap();
        isle.query_row("SELECT 1", [], |r| r.get::<_, i64>(0)).unwrap()
    });

    pause(100);
    pool.give_back(held);
    assert_eq!(threads.block_on(join).unwrap(), 1);
    pool.shutdown();
}

#[test]
fn checkout_unblocks_when_the_pool_is_shut_down() {
    let threads = threads();
    let pool = test_pool(1);
    let _held = pool.checkout().unwrap();
    let waiter = Arc::clone(&pool);
    let join = threads.spawn_blocking(move || waiter.checkout().map(|_isle| ()));
    pause(100);
    pool.shutdown();
    assert!(matches!(threads.block_on(join).unwrap(), Err(IsleError::Closed)));
}

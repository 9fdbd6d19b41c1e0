//! The rules of the builders, the job and the loop on given values.

use rusqlite::OpenFlags;
use rusqlite_isle::async_isle::{CallStep, ShutdownAction};
use rusqlite_isle::async_task::Polled;
use rusqlite_isle::handle::{
    after_deadline, isle_thread, join_result, open_plan, settle_launch, start_up, started_thread,
    Admission, OpenPlan, OpenTarget, Waited,
};
use rusqlite_isle::job::{
    make_job, normalize_error, panic_message, run_job, Caught, JobOutcome, PanicPayload,
};
use rusqlite_isle::task::resolve;
use rusqlite_isle::token::{Attached, Checked};
use rusqlite_isle::worker::{run_loop, serve_next, Request};
use rusqlite_isle::{
    AsyncIsle, AsyncIsleDriver, AsyncTask, CancelToken, Isle, IsleError,
};
use std::cell::{Cell, RefCell};
use std::collections::VecDeque;
use std::path::PathBuf;
use std::time::Duration;
use tokio::sync::{mpsc, oneshot};

fn failure(code: i32) -> rusqlite::Error {
    rusqlite::Error::SqliteFailure(rusqlite::ffi::Error::new(code), None)
}

#[test]
fn panic_messages() {
    assert_eq!(panic_message(PanicPayload::Literal("a".to_string())), "a");
    assert_eq!(panic_message(PanicPayload::Owned("b".to_string())), "b");
    assert_eq!(panic_message(PanicPayload::Other), "unknown panic payload");
}

#[test]
fn admissions() {
    assert!(Admission::Accepted.result().is_ok());
    assert!(matches!(Admission::Full.result(), Err(IsleError::QueueFull)));
    assert!(matches!(Admission::Disconnected.result(), Err(IsleError::Closed)));
}

#[test]
fn missing_reply_means_closed() {
    assert!(matches!(resolve::<i64>(None), Err(IsleError::Closed)));
    assert!(matches!(resolve::<i64>(Some(Err(IsleError::Timeout))), Err(IsleError::Timeout)));
    assert_eq!(resolve(Some(Ok(8))).unwrap(), 8);
}

#[test]
fn deadlines() {
    assert!(after_deadline::<i64>(Waited::Elapsed).is_none());
    assert!(matches!(
        after_deadline::<i64>(Waited::Disconnected),
        Some(Err(IsleError::Closed))
    ));
    assert!(matches!(after_deadline(Waited::Reply(Ok(3))), Some(Ok(3))));
}

#[test]
fn joined_threads() {
    assert!(join_result(true).is_ok());
    assert!(matches!(
        join_result(false),
        Err(IsleError::Panicked(m)) if m == "sqlite thread panicked"
    ));
}

#[test]
fn open_flags_apply_to_files_only() {
    let flags = OpenFlags::SQLITE_OPEN_READ_ONLY;
    let path = PathBuf::from("app.db");
    assert!(matches!(
        open_plan(OpenTarget::Path(path.clone()), Some(flags)),
        OpenPlan::WithFlags(p, f) if p == path && f == flags
    ));
    assert!(matches!(
        open_plan(OpenTarget::Path(path.clone()), None),
        OpenPlan::Default(p) if p == path
    ));
    assert!(matches!(open_plan(OpenTarget::InMemory, Some(flags)), OpenPlan::InMemory));
}

#[test]
fn builder_settings_reach_the_launch() {
    let mut seen = None;
    let _ = Isle::<()>::builder()
        .channel_capacity(64)
        .thread_name("sqlite-worker")
        .busy_timeout(Duration::from_millis(100))
        .open_flags(OpenFlags::SQLITE_OPEN_READ_ONLY)
        .spawn(
            (),
            PathBuf::from("app.db"),
            |w, launch| {
                seen = Some(launch);
                (w, None)
            },
            |w| (w, None::<Result<(), IsleError>>),
            |w, ()| w,
        );
    let launch = seen.unwrap();
    assert_eq!(launch.channel_capacity, 64);
    assert_eq!(launch.thread_name, "sqlite-worker");
    assert_eq!(launch.busy_timeout, Some(Duration::from_millis(100)));
    assert!(matches!(
        launch.open,
        OpenPlan::WithFlags(p, f)
            if p == PathBuf::from("app.db") && f == OpenFlags::SQLITE_OPEN_READ_ONLY
    ));
}

#[test]
fn default_settings() {
    let mut seen = None;
    let _ = Isle::<()>::spawn(
        (),
        PathBuf::from("app.db"),
        |w, launch| {
            seen = Some(launch);
            (w, None)
        },
        |w| (w, None::<Result<(), IsleError>>),
        |w, ()| w,
    );
    let launch = seen.unwrap();
    assert_eq!(launch.channel_capacity, 256);
    assert_eq!(launch.thread_name, "rusqlite-isle");
    assert_eq!(launch.busy_timeout, None);
    assert!(matches!(launch.open, OpenPlan::Default(p) if p == PathBuf::from("app.db")));

    let launch = AsyncIsle::open_in_memory();
    assert_eq!(launch.channel_capacity, 256);
    assert_eq!(launch.thread_name, "rusqlite-isle-async");
    assert_eq!(launch.busy_timeout, None);
    assert!(matches!(launch.open, OpenPlan::InMemory));

    let launch = AsyncIsle::spawn(PathBuf::from("app.db"));
    assert!(matches!(launch.open, OpenPlan::Default(_)));
}

#[test]
fn async_builder_settings_reach_the_launch() {
    let launch = AsyncIsle::builder()
        .channel_capacity(64)
        .thread_name("sqlite-worker")
        .busy_timeout(Duration::from_millis(100))
        .open_flags(OpenFlags::SQLITE_OPEN_READ_ONLY)
        .spawn(PathBuf::from("app.db"));
    assert_eq!(launch.channel_capacity, 64);
    assert_eq!(launch.thread_name, "sqlite-worker");
    assert_eq!(launch.busy_timeout, Some(Duration::from_millis(100)));
    assert!(matches!(launch.open, OpenPlan::WithFlags(_, _)));

    let launch = AsyncIsle::builder()
        .open_flags(OpenFlags::SQLITE_OPEN_READ_ONLY)
        .open_in_memory();
    assert!(matches!(launch.open, OpenPlan::InMemory));
}

#[test]
fn start_up_in_order() {
    let ready = start_up(
        OpenPlan::InMemory,
        Some(Duration::from_millis(7)),
        |_plan| Ok(vec!["open".to_string()]),
        |mut log: Vec<String>, t| {
            log.push(format!("busy {}", t.as_millis()));
            (log, Ok(()))
        },
        |mut log: Vec<String>| {
            log.push("init".to_string());
            (log, Ok(()))
        },
    );
    assert_eq!(ready.unwrap(), ["open", "busy 7", "init"]);

    let unopened = start_up(
        OpenPlan::InMemory,
        None,
        |_plan| Err::<(), _>(rusqlite::Error::InvalidQuery),
        |c, _t| (c, Ok(())),
        |_c| panic!("init must not run"),
    );
    assert!(matches!(unopened, Err(IsleError::Sqlite(rusqlite::Error::InvalidQuery))));

    let unset = start_up(
        OpenPlan::InMemory,
        Some(Duration::ZERO),
        |_plan| Ok(()),
        |c, _t| (c, Err(rusqlite::Error::InvalidQuery)),
        |_c| panic!("init must not run"),
    );
    assert!(matches!(unset, Err(IsleError::Sqlite(_))));
}

/// The log of a thread whose `init` gives `done`.
fn logged_thread(done: Result<(), rusqlite::Error>) -> Vec<String> {
    fn with(mut log: Vec<String>, text: &str) -> Vec<String> {
        log.push(text.to_string());
        log
    }
    isle_thread(
        Vec::new(),
        |log| {
            let started = start_up(
                OpenPlan::InMemory,
                None,
                |_plan| Ok(41),
                |conn, _t| (conn, Ok(())),
                |conn| (conn + 1, done),
            );
            (with(log, "start"), started)
        },
        |conn: &i32| format!("connection {conn}"),
        |log, report: Result<String, IsleError>| match report {
            Ok(ready) => with(log, &format!("report {ready}")),
            Err(e) => with(log, &format!("report {}", e.message())),
        },
        |log, conn| with(log, &format!("serve {conn}")),
    )
}

#[test]
fn thread_reports_that_it_is_ready_and_then_serves() {
    assert_eq!(logged_thread(Ok(())), ["start", "report connection 42", "serve 42"]);
}

#[test]
fn thread_whose_init_fails_reports_it_and_serves_nothing() {
    let log = logged_thread(Err(rusqlite::Error::InvalidQuery));
    assert_eq!(log.len(), 2);
    assert_eq!(log[0], "start");
    assert!(log[1].starts_with("report sqlite error: "));
}

#[test]
fn launch_is_settled_by_its_report() {
    let (log, ready) = settle_launch("", 5, Some(Ok("ready")), |_, _k| "joined");
    assert_eq!(log, "");
    assert!(matches!(ready, Ok((5, "ready"))));

    let (log, failed) = settle_launch("", 5, Some(Err::<(), _>(IsleError::Timeout)), |_, _k| "joined");
    assert_eq!(log, "joined");
    assert!(matches!(failed, Err(IsleError::Timeout)));

    let (log, gone) = settle_launch("", 5, None::<Result<(), IsleError>>, |_, _k| "joined");
    assert_eq!(log, "joined");
    assert!(matches!(gone, Err(IsleError::Closed)));
}

/// Runs a job against a log and returns what was done and what was reported; its
/// token maps to `fired` before the job, and to `held` as it is detached.
fn logged_job(
    fired: Option<IsleError>,
    ends: Caught<i64>,
    held: Option<IsleError>,
    aborting: bool,
) -> (Vec<&'static str>, Option<Result<i64, IsleError>>, JobOutcome) {
    fn with(mut log: Vec<&'static str>, text: &'static str) -> Vec<&'static str> {
        log.push(text);
        log
    }
    let mut reported = None;
    let (log, outcome) = run_job(
        Vec::new(),
        |log| {
            let log = with(log, "check");
            match fired {
                Some(err) => Checked::Fired(log, err),
                None => Checked::Clear(log),
            }
        },
        |log| with(log, "attach"),
        |log| (with(log, "run"), ends),
        |log| (with(log, "detach"), held),
        |log| (with(log, "aborting?"), aborting),
        |log, result| {
            reported = Some(result);
            with(log, "respond")
        },
    );
    (log, reported, outcome)
}

#[test]
fn job_steps_in_order() {
    let (log, reported, outcome) = logged_job(None, Caught::Returned(12), None, false);
    assert_eq!(log, ["check", "attach", "run", "detach", "respond"]);
    assert!(matches!(reported, Some(Ok(12))));
    assert_eq!(outcome, JobOutcome::Completed);
}

#[test]
fn fired_job_is_skipped() {
    let (log, reported, outcome) =
        logged_job(Some(IsleError::Timeout), Caught::Returned(12), None, false);
    assert_eq!(log, ["check", "respond"]);
    assert!(matches!(reported, Some(Err(IsleError::Timeout))));
    assert_eq!(outcome, JobOutcome::Completed);
}

#[test]
fn value_that_comes_after_the_token_fired_is_not_reported() {
    let (log, reported, outcome) =
        logged_job(None, Caught::Returned(12), Some(IsleError::Timeout), false);
    assert_eq!(log, ["check", "attach", "run", "detach", "respond"]);
    assert!(matches!(reported, Some(Err(IsleError::Timeout))));
    assert_eq!(outcome, JobOutcome::Completed);
}

#[test]
fn job_that_is_dropped_answers_nobody() {
    let ran = Cell::new(false);
    let (resp, reply) = oneshot::channel::<Result<i64, IsleError>>();
    let job = make_job(
        |attached: Attached| {
            ran.set(true);
            (attached, Caught::Returned(1_i64))
        },
        CancelToken::new(),
        |conn: rusqlite::Connection| (conn, false),
        |conn: rusqlite::Connection, result| {
            let _ = resp.send(result);
            conn
        },
    );
    drop(job);
    assert!(!ran.get());
    let mut task: AsyncTask<Reply> = AsyncTask::new(reply, CancelToken::new());
    assert!(matches!(poll(&mut task), Some(Err(IsleError::Closed))));
}

#[test]
fn job_that_is_served_answers_once() {
    let answers = RefCell::new(Vec::new());
    let job = make_job(
        |mut attached: Attached| {
            let conn = attached.connection_mut();
            let one = conn.query_row("SELECT 1", [], |row| row.get::<_, i64>(0)).unwrap();
            (attached, Caught::Returned(one))
        },
        CancelToken::new(),
        |conn: rusqlite::Connection| (conn, false),
        |conn: rusqlite::Connection, result: Result<i64, IsleError>| {
            answers.borrow_mut().push(result.unwrap());
            conn
        },
    );
    assert!(answers.borrow().is_empty());
    let (_, outcome) = job.serve(rusqlite::Connection::open_in_memory().unwrap());
    assert_eq!(outcome, JobOutcome::Completed);
    assert_eq!(*answers.borrow(), [1]);
}

#[test]
fn interrupted_job_asks_token_then_abort_flag() {
    let interrupt = Caught::Failed(failure(rusqlite::ffi::SQLITE_INTERRUPT));
    let (log, reported, outcome) = logged_job(None, interrupt, None, true);
    assert_eq!(log, ["check", "attach", "run", "detach", "aborting?", "respond"]);
    assert!(matches!(reported, Some(Err(IsleError::Closed))));
    assert_eq!(outcome, JobOutcome::Completed);
}

#[test]
fn failed_job_reports_its_own_error() {
    let busy = Caught::Failed(failure(rusqlite::ffi::SQLITE_BUSY));
    let (log, reported, outcome) = logged_job(None, busy, Some(IsleError::Timeout), true);
    assert_eq!(log, ["check", "attach", "run", "detach", "respond"]);
    assert!(matches!(reported, Some(Err(IsleError::Sqlite(_)))));
    assert_eq!(outcome, JobOutcome::Completed);
}

#[test]
fn panicked_job_is_detached_and_reported() {
    let (log, reported, outcome) = logged_job(None, Caught::Panicked(PanicPayload::Other), None, false);
    assert_eq!(log, ["check", "attach", "run", "detach", "respond"]);
    assert!(matches!(
        reported,
        Some(Err(IsleError::Panicked(m))) if m == "unknown panic payload"
    ));
    assert_eq!(outcome, JobOutcome::Panicked);
}

#[test]
fn normalized_errors() {
    let interrupt = || failure(rusqlite::ffi::SQLITE_INTERRUPT);
    let (_, err) = normalize_error((), interrupt(), Some(IsleError::Cancelled), |w| (w, true));
    assert!(matches!(err, IsleError::Cancelled));
    let (_, err) = normalize_error((), interrupt(), None, |w| (w, true));
    assert!(matches!(err, IsleError::Closed));
    let (_, err) = normalize_error((), interrupt(), None, |w| (w, false));
    assert!(matches!(err, IsleError::Sqlite(_)));
    let busy = failure(rusqlite::ffi::SQLITE_BUSY);
    let (_, err) = normalize_error((), busy, Some(IsleError::Timeout), |w| (w, true));
    assert!(matches!(err, IsleError::Sqlite(_)));
}

type Log = Vec<String>;

fn noted(mut log: Log, text: String) -> Log {
    log.push(text);
    log
}

/// Serves one request against a log: what was done, and whether the loop goes
/// on.
fn logged_turn(
    request: Option<Request<u8>>,
    aborting: bool,
    outcome: JobOutcome,
    healthy: bool,
) -> (Log, bool) {
    let request = RefCell::new(request);
    serve_next(
        Vec::new(),
        &|log| (log, request.borrow_mut().take()),
        &|log| (log, aborting),
        &|log, job| (noted(log, format!("run {job}")), outcome),
        &|log, job| noted(log, format!("discard {job}")),
        &|log| (noted(log, "health".to_string()), healthy),
    )
}

#[test]
fn loop_turns() {
    let job = || Some(Request::Job(4));
    let done = JobOutcome::Completed;
    let panicked = JobOutcome::Panicked;
    assert_eq!(logged_turn(job(), false, done, false), (vec!["run 4".to_string()], true));
    assert_eq!(logged_turn(job(), true, done, false), (vec!["discard 4".to_string()], true));
    assert_eq!(
        logged_turn(job(), false, panicked, true),
        (vec!["run 4".to_string(), "health".to_string()], true)
    );
    assert_eq!(
        logged_turn(job(), false, panicked, false),
        (vec!["run 4".to_string(), "health".to_string()], false)
    );
    assert_eq!(logged_turn(Some(Request::Shutdown), false, done, true), (vec![], false));
    assert_eq!(logged_turn(None, false, done, true), (vec![], false));
}

/// Runs the loop on `requests`; jobs from `abort_at` on find the isle aborting,
/// and job 9 breaks the connection.
fn logged_loop(requests: Vec<Request<u8>>, limit: u64, abort_at: u8) -> (Log, bool, usize) {
    let queue = RefCell::new(VecDeque::from(requests));
    let last = Cell::new(0);
    let (log, more) = run_loop(
        Vec::new(),
        limit,
        &|log| {
            let request = queue.borrow_mut().pop_front();
            if let Some(Request::Job(job)) = &request {
                last.set(*job);
            }
            (log, request)
        },
        &|log| (log, last.get() >= abort_at),
        &|log, job| {
            let outcome = if job == 9 { JobOutcome::Panicked } else { JobOutcome::Completed };
            (noted(log, format!("run {job}")), outcome)
        },
        &|log, job| noted(log, format!("discard {job}")),
        &|log| (log, false),
    );
    let left = queue.borrow().len();
    (log, more, left)
}

#[test]
fn loop_drains_the_jobs_ahead_of_a_shutdown() {
    let requests = vec![Request::Job(1), Request::Job(2), Request::Shutdown, Request::Job(3)];
    assert_eq!(
        logged_loop(requests, 100, 50),
        (vec!["run 1".to_string(), "run 2".to_string()], false, 1)
    );
}

#[test]
fn loop_ends_when_every_sender_is_gone() {
    assert_eq!(logged_loop(vec![Request::Job(1)], 100, 50), (vec!["run 1".to_string()], false, 0));
}

#[test]
fn loop_stops_at_its_limit() {
    let requests = || vec![Request::Job(1), Request::Job(2), Request::Job(3)];
    assert_eq!(
        logged_loop(requests(), 2, 50),
        (vec!["run 1".to_string(), "run 2".to_string()], true, 1)
    );
    assert_eq!(logged_loop(requests(), 0, 50), (vec![], true, 3));
}

#[test]
fn aborting_loop_discards_what_is_left() {
    let requests = vec![Request::Job(1), Request::Job(2), Request::Job(3), Request::Shutdown];
    assert_eq!(
        logged_loop(requests, 100, 2),
        (
            vec!["run 1".to_string(), "discard 2".to_string(), "discard 3".to_string()],
            false,
            0
        )
    );
}

#[test]
fn broken_connection_ends_the_loop() {
    let requests = vec![Request::Job(1), Request::Job(9), Request::Job(3)];
    assert_eq!(
        logged_loop(requests, 100, 50),
        (vec!["run 1".to_string(), "run 9".to_string()], false, 1)
    );
}

fn actions(driver: AsyncIsleDriver<u8, u16>, now: bool) -> Vec<String> {
    let mut script = if now { driver.shutdown_now() } else { driver.shutdown() };
    let mut seen = Vec::new();
    while let Some(action) = script.next() {
        seen.push(match action {
            ShutdownAction::SetAbort => "abort".to_string(),
            ShutdownAction::Interrupt => "interrupt".to_string(),
            ShutdownAction::SendShutdown => "send".to_string(),
            ShutdownAction::AwaitDone(d) => format!("done {d}"),
            ShutdownAction::Join(k) => format!("join {k}"),
        });
    }
    assert!(script.next().is_none());
    seen
}

#[test]
fn shutdown_outcomes() {
    type Driver = AsyncIsleDriver<u8, u16>;
    assert!(Driver::outcome(None).is_ok());
    assert!(Driver::outcome(Some(true)).is_ok());
    assert!(matches!(
        Driver::outcome(Some(false)),
        Err(IsleError::Panicked(m)) if m == "sqlite thread panicked"
    ));
}

#[test]
fn thread_that_cannot_be_started_closes_the_isle() {
    assert_eq!(started_thread(Some(3)).unwrap(), 3);
    assert!(matches!(started_thread(None::<u8>), Err(IsleError::Closed)));
}

#[test]
fn shutdown_scripts() {
    assert_eq!(actions(AsyncIsleDriver::new(1, 2), false), ["send", "done 1", "join 2"]);
    assert_eq!(
        actions(AsyncIsleDriver::new(1, 2), true),
        ["abort", "interrupt", "send", "done 1", "join 2"]
    );
    let driver = AsyncIsleDriver::new(1, 2);
    assert!(driver.is_alive(|_| false));
    assert!(!driver.is_alive(|k: &u16| *k == 2));
}

type Reply = oneshot::Receiver<Result<i64, IsleError>>;

/// What makes a job that replies `value` at once.
fn job(value: i64) -> impl FnOnce(CancelToken, oneshot::Sender<Result<i64, IsleError>>) -> i64 {
    move |_token, resp| {
        let _ = resp.send(Ok(value));
        value
    }
}

fn made() -> AsyncTask<Reply> {
    AsyncIsle::make_job_task(oneshot::channel, job(1)).1
}

fn offer(tx: &mpsc::Sender<Request<i64>>, request: Request<i64>) -> Admission {
    match tx.try_send(request) {
        Ok(()) => Admission::Accepted,
        Err(mpsc::error::TrySendError::Full(_)) => Admission::Full,
        Err(mpsc::error::TrySendError::Closed(_)) => Admission::Disconnected,
    }
}

fn poll(task: &mut AsyncTask<Reply>) -> Option<Result<i64, IsleError>> {
    task.poll(|rx: &mut Reply| match rx.try_recv() {
        Ok(result) => Polled::Reply(result),
        Err(oneshot::error::TryRecvError::Empty) => Polled::Pending,
        Err(oneshot::error::TryRecvError::Closed) => Polled::Disconnected,
    })
}

fn failed(err: IsleError) -> Reply {
    let (tx, rx) = oneshot::channel();
    let _ = tx.send(Err(err));
    rx
}

#[test]
fn async_basic_try_call_queue_full() {
    let (tx, rx) = mpsc::channel(1);

    let (_, queued) = AsyncIsle::try_call((), oneshot::channel, job(1), |w, r| (w, offer(&tx, r)));
    let mut queued = queued.unwrap();

    let (_, overflow) = AsyncIsle::try_call((), oneshot::channel, job(2), |w, r| (w, offer(&tx, r)));
    assert!(
        matches!(overflow, Err(IsleError::QueueFull)),
        "expected QueueFull"
    );

    // spawn_call surfaces the same condition through the task.
    let (_, mut overflow_task) =
        AsyncIsle::spawn_call((), oneshot::channel, job(3), |w, r| (w, offer(&tx, r)), failed);
    assert!(matches!(poll(&mut overflow_task), Some(Err(IsleError::QueueFull))));

    assert_eq!(poll(&mut queued).unwrap().unwrap(), 1);

    drop(rx);
    let (_, after) = AsyncIsle::try_call((), oneshot::channel, job(4), |w, r| (w, offer(&tx, r)));
    assert!(matches!(after, Err(IsleError::Closed)));
}

#[test]
fn async_task_resolves_to_closed_without_a_reply() {
    let (resp, rx) = oneshot::channel();
    let mut task: AsyncTask<Reply> = AsyncTask::new(rx, CancelToken::new());
    assert!(poll(&mut task).is_none());
    drop(resp);
    assert!(matches!(poll(&mut task), Some(Err(IsleError::Closed))));
}

#[test]
fn awaited_call_that_was_not_received_is_closed() {
    assert!(matches!(AsyncIsle::call::<i64>(true), CallStep::Await));
    assert!(matches!(
        AsyncIsle::call::<i64>(false),
        CallStep::Return(Err(IsleError::Closed))
    ));
}

#[test]
fn awaited_call_expires_once_its_deadline_elapsed() {
    let after = |waited| {
        let task = made();
        let (fired, step) =
            AsyncIsle::call_timeout(0, &task, waited, |fired, token: &CancelToken, reason| {
                token.fire(reason);
                fired + 1
            });
        (fired, step, task.cancel_token().fired())
    };

    let (fired, step, held) = after(Waited::Elapsed);
    assert_eq!(fired, 1);
    assert!(matches!(step, CallStep::<i64>::Await));
    assert!(matches!(held, Some(IsleError::Timeout)));

    let (fired, step, held) = after(Waited::Reply(Ok(5)));
    assert_eq!(fired, 0);
    assert!(matches!(step, CallStep::Return(Ok(5))));
    assert!(held.is_none());

    let (fired, step, _) = after(Waited::Disconnected);
    assert_eq!(fired, 0);
    assert!(matches!(step, CallStep::Return(Err(IsleError::Closed))));
}

#[test]
fn dropped_task_cancels_unless_detached() {
    let release = |task: &AsyncTask<Reply>| {
        task.release(0, |fired, token: &CancelToken, reason| {
            token.fire(reason);
            fired + 1
        })
    };

    let task = made();
    let token = task.cancel_token().clone();
    assert_eq!(release(&task), 1);
    assert!(matches!(token.fired(), Some(IsleError::Cancelled)));

    let task = made();
    let token = task.cancel_token().clone();
    token.expire();
    assert_eq!(release(&task), 1);
    assert!(matches!(token.fired(), Some(IsleError::Timeout)));

    let mut task = made();
    let token = task.cancel_token().clone();
    task.detach();
    assert_eq!(release(&task), 0);
    assert!(!token.is_cancelled());
    task.cancel();
    assert!(token.is_cancelled());
}

#[test]
fn job_and_task_share_one_token() {
    let (token, task) = AsyncIsle::make_job_task(oneshot::channel::<()>, |token, _resp| token);
    task.cancel();
    assert!(token.is_cancelled());

    let (token, task, own) = Isle::<()>::make_job_task(oneshot::channel::<()>, |token, _resp| token);
    token.expire();
    assert!(matches!(own.fired(), Some(IsleError::Timeout)));
    assert!(matches!(task.cancel_token().fired(), Some(IsleError::Timeout)));
}

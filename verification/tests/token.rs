use rusqlite::Connection;
use rusqlite_isle::token::{Attached, Checked, Reason, TokenCell};
use rusqlite_isle::{CancelToken, IsleError};

#[test]
fn token_default_not_fired() {
    let token = CancelToken::new();
    assert!(!token.is_cancelled());
    assert!(token.fired().is_none());
}

#[test]
fn token_cancel_sets_state_across_clones() {
    let token = CancelToken::new();
    let clone = token.clone();
    token.cancel();
    assert!(clone.is_cancelled());
    assert!(matches!(clone.fired(), Some(IsleError::Cancelled)));
}

#[test]
fn token_first_reason_wins() {
    let token = CancelToken::new();
    token.expire();
    token.cancel();
    assert!(matches!(token.fired(), Some(IsleError::Timeout)));
}

#[test]
fn cancel_then_expire_stays_cancelled() {
    let token = CancelToken::default();
    token.cancel();
    token.expire();
    assert!(token.is_cancelled());
    assert!(matches!(token.fired(), Some(IsleError::Cancelled)));
}

#[test]
fn expired_token_remembers_a_later_cancel() {
    let token = CancelToken::new();
    token.expire();
    token.cancel();
    assert!(token.is_cancelled());
    assert!(token.clone().is_cancelled());
    assert!(matches!(token.fired(), Some(IsleError::Timeout)));
}

#[test]
fn token_fires_for_the_reason_given() {
    let token = CancelToken::new();
    token.fire(Reason::Timeout);
    assert!(!token.is_cancelled());
    assert!(matches!(token.fired(), Some(IsleError::Timeout)));
}

#[test]
fn expired_token_is_not_cancelled() {
    let token = CancelToken::new();
    token.expire();
    assert!(!token.is_cancelled());
}

/// Notes which handle was interrupted.
fn note(mut log: Vec<u8>, handle: &u8) -> Vec<u8> {
    log.push(*handle);
    log
}

#[test]
fn cell_interrupts_only_while_attached() {
    let mut cell: TokenCell<u8> = TokenCell::new();
    let log = cell.attach(Vec::new(), 7, note);
    assert!(log.is_empty());
    let log = cell.fire(log, Reason::Cancelled, note);
    assert_eq!(log, [7]);
    let log = cell.fire(log, Reason::Cancelled, note);
    assert_eq!(log, [7, 7]);
    assert_eq!(cell.handle, Some(7));
    cell.detach();
    let log = cell.fire(log, Reason::Timeout, note);
    assert_eq!(log, [7, 7]);
    assert_eq!(cell.reason, Some(Reason::Cancelled));
    assert!(cell.is_cancelled());
}

#[test]
fn cell_that_fired_before_the_start_interrupts_at_once() {
    let mut cell: TokenCell<u8> = TokenCell::new();
    let log = cell.fire(Vec::new(), Reason::Timeout, note);
    assert!(log.is_empty());
    let log = cell.attach(log, 7, note);
    assert_eq!(log, [7]);
    assert_eq!(cell.handle, Some(7));
    assert!(matches!(cell.fired(), Some(IsleError::Timeout)));
    assert!(!cell.is_cancelled());
    let log = cell.fire(log, Reason::Cancelled, note);
    assert_eq!(log, [7, 7]);
    assert!(cell.is_cancelled());
    assert!(matches!(cell.fired(), Some(IsleError::Timeout)));
}

/// Steps through rows and calls `hook` after the first: whether the statement
/// was interrupted by then.
fn interrupted_by(conn: &Connection, hook: impl FnOnce()) -> bool {
    let mut stmt = conn
        .prepare(
            "WITH RECURSIVE c(x) AS (SELECT 1 UNION ALL SELECT x + 1 FROM c \
             WHERE x < 1000) SELECT x FROM c",
        )
        .unwrap();
    let mut rows = stmt.query([]).unwrap();
    rows.next().unwrap();
    hook();
    loop {
        match rows.next() {
            Ok(Some(_)) => {}
            Ok(None) => return false,
            Err(e) => return IsleError::is_interrupt(&e),
        }
    }
}

/// The connection, attached to a token that has not fired.
fn attached(token: &CancelToken, conn: Connection) -> Attached {
    match token.check(conn) {
        Checked::Clear(ready) => ready.start(),
        Checked::Fired(_, err) => panic!("fired: {err:?}"),
    }
}

#[test]
fn cancel_interrupts_the_attached_connection_only() {
    let conn = Connection::open_in_memory().unwrap();
    let other = Connection::open_in_memory().unwrap();
    let token = CancelToken::new();

    assert!(!interrupted_by(&conn, || token.cancel()));

    let token = CancelToken::new();
    let mut running = attached(&token, conn);
    assert!(!interrupted_by(&other, || token.cancel()));
    assert!(interrupted_by(running.connection_mut(), || token.cancel()));
    let (conn, held) = running.end();
    assert!(matches!(held, Some(IsleError::Cancelled)));
    assert!(!interrupted_by(&conn, || token.cancel()));
}

#[test]
fn token_fired_between_look_and_start_is_found_at_the_end() {
    let token = CancelToken::new();
    let Checked::Clear(ready) = token.check(Connection::open_in_memory().unwrap()) else {
        panic!("a new token has not fired");
    };
    token.expire();
    let (_, held) = ready.start().end();
    assert!(matches!(held, Some(IsleError::Timeout)));
}

#[test]
fn fired_token_gives_the_connection_back() {
    let token = CancelToken::new();
    token.cancel();
    let Checked::Fired(conn, err) = token.check(Connection::open_in_memory().unwrap()) else {
        panic!("the token has fired");
    };
    assert!(matches!(err, IsleError::Cancelled));
    assert!(!interrupted_by(&conn, || token.cancel()));
}

#[test]
fn token_that_fires_after_the_end_was_not_fired_at_the_end() {
    let token = CancelToken::new();
    let (_, held) = attached(&token, Connection::open_in_memory().unwrap()).end();
    token.cancel();
    assert!(held.is_none());
}

#[test]
fn token_can_be_shared_between_threads() {
    fn shared<T: Send + Sync>(_: &T) {}
    shared(&CancelToken::new());
}

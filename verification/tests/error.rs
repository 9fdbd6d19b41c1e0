use rusqlite_isle::IsleError;

fn failure(code: i32) -> rusqlite::Error {
    rusqlite::Error::SqliteFailure(rusqlite::ffi::Error::new(code), None)
}

#[test]
fn only_interrupt_is_an_interrupt() {
    assert!(IsleError::is_interrupt(&failure(rusqlite::ffi::SQLITE_INTERRUPT)));
    assert!(!IsleError::is_interrupt(&failure(rusqlite::ffi::SQLITE_BUSY)));
    assert!(!IsleError::is_interrupt(&failure(rusqlite::ffi::SQLITE_ABORT)));
    assert!(!IsleError::is_interrupt(&rusqlite::Error::InvalidQuery));
}

#[test]
fn messages() {
    assert_eq!(IsleError::Cancelled.message(), "cancelled");
    assert_eq!(IsleError::Timeout.message(), "timeout");
    assert_eq!(IsleError::Closed.message(), "isle closed");
    assert_eq!(IsleError::QueueFull.message(), "queue full (backpressure)");
    assert_eq!(
        IsleError::Panicked("boom".to_string()).message(),
        "job panicked: boom"
    );
    let text = rusqlite::Error::InvalidQuery.to_string();
    assert_eq!(
        IsleError::from(rusqlite::Error::InvalidQuery).message(),
        format!("sqlite error: {text}")
    );
}

#[test]
fn rusqlite_errors_convert() {
    let err: IsleError = rusqlite::Error::QueryReturnedNoRows.into();
    assert!(matches!(
        err,
        IsleError::Sqlite(rusqlite::Error::QueryReturnedNoRows)
    ));
}

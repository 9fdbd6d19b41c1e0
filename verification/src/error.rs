//! Error types for the isle.

use vstd::prelude::*;
use vstd::string::to_string_from_display_ensures;

verus! {

/// [`rusqlite::Error`], carried through unopened.
#[verifier::external_type_specification]
#[verifier::external_body]
pub struct ExRusqliteError(rusqlite::Error);

/// The result codes of a failed SQLite call that the isle tells apart.
#[derive(Debug, Clone, Copy, PartialEq, Eq, Structural)]
pub enum FailureKind {
    /// `SQLITE_INTERRUPT`: the statement was stopped by `sqlite3_interrupt`.
    Interrupted,
    /// `SQLITE_BUSY`: another connection holds the lock.
    Busy,
    /// Any other result code, or an error that carries none.
    Other,
}

/// The [`FailureKind`] that the result code of `e` falls under.
///
/// An error carries a result code if it is a `rusqlite::Error::SqliteFailure`.
pub uninterp spec fn failure_kind_of(e: rusqlite::Error) -> FailureKind;

/// Reads the result code with `rusqlite::Error::sqlite_error_code`.
///
/// The code is a field of the error, so equal errors have equal codes; nothing
/// else is claimed of it.
#[verifier::external_body]
pub(crate) fn failure_kind(e: &rusqlite::Error) -> (kind: FailureKind)
    ensures
        kind == failure_kind_of(*e),
{
    match e.sqlite_error_code() {
        Some(rusqlite::ErrorCode::OperationInterrupted) => FailureKind::Interrupted,
        Some(rusqlite::ErrorCode::DatabaseBusy) => FailureKind::Busy,
        _ => FailureKind::Other,
    }
}

/// Errors returned by isle operations.
///
/// SQLite-level failures are kept in [`Sqlite`](Self::Sqlite); the other
/// variants are conditions of the isle itself, so a caller can decide from the
/// variant alone whether a retry makes sense.
#[derive(Debug)]
#[non_exhaustive]
pub enum IsleError {
    /// An SQL execution error, `SQLITE_BUSY` among them.
    Sqlite(rusqlite::Error),
    /// The job was cancelled through its token.
    Cancelled,
    /// The per-call deadline elapsed.
    Timeout,
    /// The isle has shut down, or its SQLite thread is gone.
    Closed,
    /// The bounded request channel is full. Unlike [`Closed`](Self::Closed) this
    /// is transient.
    QueueFull,
    /// The job closure panicked, with this message.
    Panicked(String),
}

impl IsleError {
    /// Whether the underlying rusqlite error is `SQLITE_INTERRUPT`.
    pub fn is_interrupt(e: &rusqlite::Error) -> (interrupted: bool)
        ensures
            interrupted == (failure_kind_of(*e) == FailureKind::Interrupted),
    {
        failure_kind(e) == FailureKind::Interrupted
    }

    /// `text` is the human-readable text of the error.
    pub open spec fn reads(self, text: Seq<char>) -> bool {
        match self {
            IsleError::Sqlite(e) => exists|inner: String| #[trigger]
                to_string_from_display_ensures(&e, inner) && text == "sqlite error: "@ + inner@,
            IsleError::Cancelled => text == "cancelled"@,
            IsleError::Timeout => text == "timeout"@,
            IsleError::Closed => text == "isle closed"@,
            IsleError::QueueFull => text == "queue full (backpressure)"@,
            IsleError::Panicked(m) => text == "job panicked: "@ + m@,
        }
    }

    /// The human-readable text of the error.
    pub fn message(&self) -> (text: String)
        ensures
            self.reads(text@),
    {
        match self {
            IsleError::Sqlite(e) => {
                let inner = e.to_string();
                "sqlite error: ".to_owned().concat(inner.as_str())
            },
            IsleError::Cancelled => "cancelled".to_owned(),
            IsleError::Timeout => "timeout".to_owned(),
            IsleError::Closed => "isle closed".to_owned(),
            IsleError::QueueFull => "queue full (backpressure)".to_owned(),
            IsleError::Panicked(m) => "job panicked: ".to_owned().concat(m.as_str()),
        }
    }
}

impl From<rusqlite::Error> for IsleError {
    fn from(e: rusqlite::Error) -> (err: IsleError) {
        IsleError::Sqlite(e)
    }
}

impl vstd::std_specs::convert::FromSpecImpl<rusqlite::Error> for IsleError {
    open spec fn obeys_from_spec() -> bool {
        true
    }

    open spec fn from_spec(e: rusqlite::Error) -> IsleError {
        IsleError::Sqlite(e)
    }
}

} // verus!

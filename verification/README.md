# rusqlite_isle

Thread-isolated SQLite with cancellation, an async bridge and a connection pool,
with the rules of an isle verified by [Verus](https://github.com/verus-lang/verus).

An isle confines a `rusqlite::Connection` to a dedicated OS thread. Callers send
it jobs through a bounded channel; every job has a cancel token, and what comes
back is the job's typed result or an `IsleError`.

## Layout

- `src/` is the verified library: what an isle decides, with its contracts.
  - `token`: two-stage cancellation of a job, queued and running.
  - `job`: how one job is run, and what its caller is told.
  - `worker`: the loop of the SQLite thread, and when it ends.
  - `handle`, `task`: configuration, launch, submission, deadline and shutdown of
    the sync API.
  - `async_isle`, `async_task`: the same for async callers.
  - `pool`: checkout and return of isles.
  - `system`: what holds of an isle however callers and thread interleave.
- `app/` is the crate that users see: threads, channels, clocks and the database
  around the library.
- `tests/` runs the library against real connections: on one thread, which serves
  the jobs while it waits for them, and, in `threads.rs`, on threads of their own.

Functions of the library that need a thread, a channel or the database take them
as functions on a world value that is handed from one to the next. A contract
then says which of them are called, in which order, with which arguments, and
what is made of their results. A job's steps on its own token are kept in order in
the same way, by the connection, which goes from one step to the next.

## Trust

The calls into rusqlite that the library makes itself are the three functions
marked `external_body` in `src/error.rs` and `src/token.rs`; the outside types it
carries are declared beside them and in `src/handle.rs`. Everything else in
`src/` is proved.

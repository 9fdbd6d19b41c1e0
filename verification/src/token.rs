//! Cancellation token wired to SQLite's interrupt mechanism.
//!
//! A token covers the two stages a job can be in:
//!
//! 1. **queued**: the job has not started. The SQLite thread looks at the
//!    token right before it runs each job and skips the job when the token has
//!    fired.
//! 2. **running**: the job has attached its connection's interrupt handle to
//!    the token. Firing the token interrupts the statement in flight, and the
//!    resulting `SQLITE_INTERRUPT` is folded back into the reason that the
//!    token holds.
//!
//! [`TokenCell`] is the state of one token and its three transitions.
//! [`CancelToken`] shares one such cell between callers and the SQLite thread:
//! every method takes the lock, makes one transition of the cell and releases
//! the lock.
use std::sync::Arc;

use vstd::prelude::*;
use vstd::rwlock::{ReadHandle, RwLock, RwLockPredicate, WriteHandle};

use crate::error::IsleError;

verus! {

/// [`rusqlite::InterruptHandle`], held by a token while its job runs.
#[verifier::external_type_specification]
#[verifier::external_body]
pub struct ExInterruptHandle(rusqlite::InterruptHandle);

/// [`rusqlite::Connection`], handed from job to job; only its interrupt handle is
/// looked at.
#[verifier::external_type_specification]
#[verifier::external_body]
pub struct ExConnection(rusqlite::Connection);

/// The handle that interrupts the statements of `conn`.
pub uninterp spec fn interrupt_handle_of(
    conn: rusqlite::Connection,
) -> rusqlite::InterruptHandle;

/// Calls `rusqlite::Connection::get_interrupt_handle`.
///
/// The handle is a shared pointer to the connection's own database slot, so it
/// depends on the connection alone.
#[verifier::external_body]
fn interrupt_handle(conn: &rusqlite::Connection) -> (handle: rusqlite::InterruptHandle)
    ensures
        handle == interrupt_handle_of(*conn),
{
    conn.get_interrupt_handle()
}

/// Calls `rusqlite::InterruptHandle::interrupt`.
///
/// The call returns nothing; its effect is on the statement that the
/// connection's thread is running, of which nothing is claimed here.
#[verifier::external_body]
fn interrupt(handle: &rusqlite::InterruptHandle) {
    handle.interrupt()
}

/// Why a token fired.
#[derive(Debug, Clone, Copy, PartialEq, Eq, Structural)]
pub enum Reason {
    /// [`CancelToken::cancel`] was called.
    Cancelled,
    /// The per-call deadline elapsed.
    Timeout,
}

impl Reason {
    /// The error that a job stopped for this reason reports.
    pub open spec fn as_error(self) -> IsleError {
        match self {
            Reason::Cancelled => IsleError::Cancelled,
            Reason::Timeout => IsleError::Timeout,
        }
    }

    /// The error that a job stopped for this reason reports.
    pub fn error(self) -> (err: IsleError)
        ensures
            err == self.as_error(),
    {
        match self {
            Reason::Cancelled => IsleError::Cancelled,
            Reason::Timeout => IsleError::Timeout,
        }
    }
}

/// The reason held after `next` fires on a token that holds `held`: the first
/// reason is kept.
pub open spec fn first_reason(held: Option<Reason>, next: Reason) -> Option<Reason> {
    match held {
        Some(reason) => Some(reason),
        None => Some(next),
    }
}

/// The error that a token holding `reason` maps to, if it has fired.
pub open spec fn error_of(reason: Option<Reason>) -> Option<IsleError> {
    match reason {
        Some(r) => Some(r.as_error()),
        None => None,
    }
}

/// One transition of a token.
pub enum TokenOp<H> {
    /// The token fires, for a reason.
    Fire(Reason),
    /// The token's job starts on the connection that `H` interrupts.
    Attach(H),
    /// The token's job is over.
    Detach,
}

/// State of one cancellation token.
///
/// `H` is the interrupt handle of the connection that runs the token's job.
pub struct TokenCell<H> {
    /// Why the token fired; `None` while it has not.
    pub reason: Option<Reason>,
    /// Whether a cancel was requested, also of a token that had expired before.
    pub cancelled: bool,
    /// `Some` only while the token's job is running.
    pub handle: Option<H>,
}

/// `target` was interrupted in `world`, which left `after`; where there is none,
/// nothing happened.
pub open spec fn delivers<W, H, I>(target: Option<H>, world: W, interrupt: I, after: W) -> bool where
    I: FnOnce(W, &H) -> W,
 {
    match target {
        Some(handle) => interrupt.ensures((world, &handle), after),
        None => after == world,
    }
}

impl<H> TokenCell<H> {
    /// A token that has not fired and whose job is not running.
    pub open spec fn unfired() -> TokenCell<H> {
        TokenCell { reason: None, cancelled: false, handle: None }
    }

    /// The cell after `op`, and the handle that `op` interrupts.
    pub open spec fn stepped(self, op: TokenOp<H>) -> (TokenCell<H>, Option<H>) {
        match op {
            TokenOp::Fire(reason) => (
                TokenCell {
                    reason: first_reason(self.reason, reason),
                    cancelled: self.cancelled || reason == Reason::Cancelled,
                    ..self
                },
                self.handle,
            ),
            TokenOp::Attach(handle) => (
                TokenCell { handle: Some(handle), ..self },
                if self.reason is Some {
                    Some(handle)
                } else {
                    None
                },
            ),
            TokenOp::Detach => (TokenCell { handle: None, ..self }, None),
        }
    }

    /// The cell after the operations `ops`, in order.
    pub open spec fn after(self, ops: Seq<TokenOp<H>>) -> TokenCell<H>
        decreases ops.len(),
    {
        if ops.len() == 0 {
            self
        } else {
            self.after(ops.drop_last()).stepped(ops.last()).0
        }
    }

    /// The handles that the operations `ops` interrupt, in order.
    pub open spec fn interrupted(self, ops: Seq<TokenOp<H>>) -> Seq<H>
        decreases ops.len(),
    {
        if ops.len() == 0 {
            Seq::empty()
        } else {
            let earlier = self.interrupted(ops.drop_last());
            match self.after(ops.drop_last()).stepped(ops.last()).1 {
                Some(handle) => earlier.push(handle),
                None => earlier,
            }
        }
    }

    /// A token that has not fired and whose job is not running.
    pub fn new() -> (cell: TokenCell<H>)
        ensures
            cell == TokenCell::<H>::unfired(),
    {
        TokenCell { reason: None, cancelled: false, handle: None }
    }

    /// Fires the token for `reason`, and interrupts the attached handle, if any,
    /// with `interrupt`.
    ///
    /// The first reason is kept: a deadline that elapses after a cancel leaves
    /// the token cancelled, and a cancel of an expired token is remembered but
    /// leaves its reason alone.
    pub fn fire<W, I>(&mut self, world: W, reason: Reason, interrupt: I) -> (after: W) where
        I: FnOnce(W, &H) -> W,

        requires
            forall|w: W, h: &H| #[trigger] interrupt.requires((w, h)),
        ensures
            *final(self) == old(self).stepped(TokenOp::Fire(reason)).0,
            delivers(old(self).stepped(TokenOp::Fire(reason)).1, world, interrupt, after),
    {
        if self.reason.is_none() {
            self.reason = Some(reason);
        }
        if let Reason::Cancelled = reason {
            self.cancelled = true;
        }
        match &self.handle {
            Some(handle) => interrupt(world, handle),
            None => world,
        }
    }

    /// Registers the handle of the connection that is about to run the job.
    ///
    /// If the token fired after the job was taken from the queue, the handle is
    /// interrupted at once, with `interrupt`.
    pub fn attach<W, I>(&mut self, world: W, handle: H, interrupt: I) -> (after: W) where
        I: FnOnce(W, &H) -> W,

        requires
            forall|w: W, h: &H| #[trigger] interrupt.requires((w, h)),
        ensures
            *final(self) == old(self).stepped(TokenOp::Attach(handle)).0,
            delivers(old(self).stepped(TokenOp::Attach(handle)).1, world, interrupt, after),
    {
        self.handle = Some(handle);
        match (&self.reason, &self.handle) {
            (Some(_), Some(handle)) => interrupt(world, handle),
            _ => world,
        }
    }

    /// Forgets the handle once the job is over.
    pub fn detach(&mut self)
        ensures
            *final(self) == old(self).stepped(TokenOp::Detach).0,
    {
        self.handle = None;
    }

    /// The error that the token maps to, if it has fired.
    pub fn fired(&self) -> (err: Option<IsleError>)
        ensures
            err == error_of(self.reason),
    {
        match self.reason {
            Some(reason) => Some(reason.error()),
            None => None,
        }
    }

    /// Whether a cancel was requested.
    pub fn is_cancelled(&self) -> (cancelled: bool)
        ensures
            cancelled == self.cancelled,
    {
        self.cancelled
    }
}

/// What bounds a shared token for as long as it exists: a cell from which all that
/// it ever holds comes.
pub struct TokenLife<H> {
    /// A cell from which all that the token holds comes by its transitions.
    pub initial: TokenCell<H>,
}

impl<H> TokenLife<H> {
    /// A token with this life may hold `cell` at some time: the cell came from
    /// the initial one by the token's transitions.
    pub open spec fn may_hold(self, cell: TokenCell<H>) -> bool {
        exists|ops: Seq<TokenOp<H>>| cell == #[trigger] self.initial.after(ops)
    }
}

impl<H> RwLockPredicate<TokenCell<H>> for TokenLife<H> {
    open spec fn inv(self, cell: TokenCell<H>) -> bool {
        self.may_hold(cell)
    }
}

/// A further transition leads to a cell that the token may hold too.
proof fn may_hold_next<H>(life: TokenLife<H>, cell: TokenCell<H>, op: TokenOp<H>)
    requires
        life.may_hold(cell),
    ensures
        life.may_hold(cell.stepped(op).0),
{
    let ops = choose|ops: Seq<TokenOp<H>>| cell == #[trigger] life.initial.after(ops);
    let more = ops.push(op);
    assert(more.drop_last() =~= ops);
    assert(cell.stepped(op).0 == life.initial.after(more));
}

/// Calls `f` as a value, so that a contract can say that it was called.
pub(crate) fn called<A, R, F: FnOnce(A) -> R>(f: F, a: A) -> (r: R)
    requires
        f.requires((a,)),
    ensures
        f.ensures((a,), r),
{
    f(a)
}

/// Calls `f` as a value, so that a contract can say that it was called.
pub(crate) fn called_with<A, B, R, F: FnOnce(A, B) -> R>(f: F, a: A, b: B) -> (r: R)
    requires
        f.requires((a, b)),
    ensures
        f.ensures((a, b), r),
{
    f(a, b)
}

/// The interrupt handle of a connection.
type Handle = rusqlite::InterruptHandle;

/// The lock around the cell of a shared token.
type CellLock = RwLock<TokenCell<Handle>, TokenLife<Handle>>;

/// Cancellation signal shared between callers and the SQLite thread.
///
/// Clones share one [`TokenCell`]. A token is made for one job, and firing it
/// affects that job alone, whether it is still queued or already running.
///
/// The cell is shared with other threads, which may change it between any two
/// calls, so no contract here says what the cell holds once a method is over.
/// A contract says what the method did under the cell's lock: which transition
/// it [`made`](Self::made), or which cell it [`found`](Self::found). In which
/// order a job's own steps on its token come is fixed by the connection, which
/// goes from hand to hand: [`check`](Self::check), [`Ready::start`],
/// [`Attached::end`].
pub struct CancelToken {
    cell: Arc<CellLock>,
}

impl CancelToken {
    /// What bounds this token, whoever shares it.
    pub closed spec fn life(self) -> TokenLife<rusqlite::InterruptHandle> {
        self.cell.pred()
    }

    /// The lock around this token's cell, which every clone of the token shares.
    pub closed spec fn lock(self) -> RwLock<
        TokenCell<rusqlite::InterruptHandle>,
        TokenLife<rusqlite::InterruptHandle>,
    > {
        *self.cell
    }

    /// This token was made with the cell `cell` in its lock.
    pub closed spec fn began_with(self, cell: TokenCell<rusqlite::InterruptHandle>) -> bool {
        call_ensures(CellLock::new, (cell, Ghost(self.life())), *self.cell)
    }

    /// This token was made unfired, and all that it holds comes from there.
    pub open spec fn began_unfired(self) -> bool {
        &&& self.began_with(TokenCell::<rusqlite::InterruptHandle>::unfired())
        &&& self.life().initial == TokenCell::<rusqlite::InterruptHandle>::unfired()
    }

    /// The lock of this token was taken for reading, and `cell` was found in it.
    pub closed spec fn found(self, cell: TokenCell<rusqlite::InterruptHandle>) -> bool {
        exists|lock: ReadHandle<TokenCell<Handle>, TokenLife<Handle>>| #[trigger]
            call_ensures(CellLock::acquire_read, (&*self.cell,), lock) && lock.view() == cell
    }

    /// This token made the transition `op`: its lock was taken for writing, the
    /// cell found in it was replaced by the one after `op`, and the handle that
    /// `op` interrupts, if any, was interrupted.
    pub closed spec fn made(self, op: TokenOp<rusqlite::InterruptHandle>) -> bool {
        exists|
            before: TokenCell<Handle>,
            lock: WriteHandle<TokenCell<Handle>, TokenLife<Handle>>,
        | #[trigger]
            call_ensures(CellLock::acquire_write, (&*self.cell,), (before, lock)) && call_ensures(
                WriteHandle::<TokenCell<Handle>, TokenLife<Handle>>::release_write,
                (lock, before.stepped(op).0),
                (),
            ) && match before.stepped(op).1 {
                Some(handle) => call_ensures(interrupt, (&handle,), ()),
                None => true,
            }
    }

    /// This token made the transition [`TokenOp::Detach`], and `cell` is the cell
    /// that it found as it did so.
    pub closed spec fn ended(self, cell: TokenCell<rusqlite::InterruptHandle>) -> bool {
        exists|lock: WriteHandle<TokenCell<Handle>, TokenLife<Handle>>| #[trigger]
            call_ensures(CellLock::acquire_write, (&*self.cell,), (cell, lock)) && call_ensures(
                WriteHandle::<TokenCell<Handle>, TokenLife<Handle>>::release_write,
                (lock, cell.stepped(TokenOp::Detach).0),
                (),
            )
    }

    /// This token made the transition [`TokenOp::Detach`], and mapped to `err` at
    /// that moment.
    pub open spec fn ended_as(self, err: Option<IsleError>) -> bool {
        exists|cell: TokenCell<rusqlite::InterruptHandle>| #[trigger]
            self.ended(cell) && err == error_of(cell.reason)
    }

    /// Creates a token that has not fired.
    pub fn new() -> (token: CancelToken)
        ensures
            token.began_unfired(),
    {
        let cell = TokenCell::new();
        let ghost life = TokenLife { initial: cell };
        assert(cell == life.initial.after(Seq::empty()));
        let lock = called_with(CellLock::new, cell, Ghost(life));
        CancelToken { cell: Arc::new(lock) }
    }

    /// Requests cancellation of the token's job.
    ///
    /// A queued job is skipped. A running job has its connection interrupted. In
    /// both cases the job reports [`IsleError::Cancelled`]. Once the job is over
    /// the call has no effect on the connection.
    pub fn cancel(&self)
        ensures
            self.made(TokenOp::Fire(Reason::Cancelled)),
    {
        self.fire(Reason::Cancelled);
    }

    /// Marks the token as expired by a per-call deadline.
    ///
    /// The job is stopped as by [`cancel`](Self::cancel) but reports
    /// [`IsleError::Timeout`].
    pub fn expire(&self)
        ensures
            self.made(TokenOp::Fire(Reason::Timeout)),
    {
        self.fire(Reason::Timeout);
    }

    /// Fires the token for `reason`.
    pub fn fire(&self, reason: Reason)
        ensures
            self.made(TokenOp::Fire(reason)),
    {
        let (mut cell, lock) = called(CellLock::acquire_write, &*self.cell);
        proof {
            may_hold_next(self.life(), cell, TokenOp::Fire(reason));
        }
        let deliver = |_w: (), handle: &rusqlite::InterruptHandle| -> (u: ())
            ensures
                call_ensures(interrupt, (handle,), ()),
            {
                called(interrupt, handle)
            };
        cell.fire((), reason, deliver);
        called_with(
            WriteHandle::<TokenCell<Handle>, TokenLife<Handle>>::release_write,
            lock,
            cell,
        );
    }

    /// Whether [`cancel`](Self::cancel) has been called.
    pub fn is_cancelled(&self) -> (cancelled: bool)
        ensures
            exists|cell: TokenCell<rusqlite::InterruptHandle>| #[trigger]
                self.found(cell) && self.life().may_hold(cell) && cancelled == cell.cancelled,
    {
        let lock = called(CellLock::acquire_read, &*self.cell);
        let cancelled = lock.borrow().is_cancelled();
        assert(self.found(lock.view()));
        lock.release_read();
        cancelled
    }

    /// The error that this token maps to, if it has fired.
    pub fn fired(&self) -> (err: Option<IsleError>)
        ensures
            exists|cell: TokenCell<rusqlite::InterruptHandle>| #[trigger]
                self.found(cell) && self.life().may_hold(cell) && err == error_of(cell.reason),
    {
        let lock = called(CellLock::acquire_read, &*self.cell);
        let err = lock.borrow().fired();
        assert(self.found(lock.view()));
        lock.release_read();
        err
    }

    /// Registers the interrupt handle of the connection that is about to run
    /// the token's job.
    ///
    /// If the token fired after the job was taken from the queue, the
    /// connection is interrupted at once.
    fn attach(&self, conn: &rusqlite::Connection)
        ensures
            self.made(TokenOp::Attach(interrupt_handle_of(*conn))),
    {
        let handle = interrupt_handle(conn);
        let (mut cell, lock) = called(CellLock::acquire_write, &*self.cell);
        proof {
            may_hold_next(self.life(), cell, TokenOp::Attach(handle));
        }
        let deliver = |_w: (), handle: &rusqlite::InterruptHandle| -> (u: ())
            ensures
                call_ensures(interrupt, (handle,), ()),
            {
                called(interrupt, handle)
            };
        cell.attach((), handle, deliver);
        called_with(
            WriteHandle::<TokenCell<Handle>, TokenLife<Handle>>::release_write,
            lock,
            cell,
        );
    }

    /// Forgets the interrupt handle once the job is over, so that firing the
    /// token late cannot interrupt another job on the same connection, and says
    /// what the token maps to at that moment.
    fn detach(&self) -> (err: Option<IsleError>)
        ensures
            self.ended_as(err),
    {
        let (mut cell, lock) = called(CellLock::acquire_write, &*self.cell);
        let ghost before = cell;
        proof {
            may_hold_next(self.life(), cell, TokenOp::Detach);
        }
        let err = cell.fired();
        cell.detach();
        called_with(
            WriteHandle::<TokenCell<Handle>, TokenLife<Handle>>::release_write,
            lock,
            cell,
        );
        assert(self.ended(before));
        err
    }

    /// Looks at the token right before its job would start on `conn`: a token
    /// that has fired gives the connection back, with the token's error.
    ///
    /// The connection goes on from here through [`Ready::start`], the job, and
    /// [`Attached::end`], and comes back at the end.
    pub fn check(&self, conn: rusqlite::Connection) -> (checked: Checked<
        rusqlite::Connection,
        Ready,
    >)
        ensures
            exists|cell: TokenCell<rusqlite::InterruptHandle>| #[trigger]
                self.found(cell) && self.life().may_hold(cell) && match error_of(cell.reason) {
                    Some(err) => checked == Checked::<rusqlite::Connection, Ready>::Fired(
                        conn,
                        err,
                    ),
                    None => {
                        &&& checked matches Checked::Clear(ready)
                        &&& ready.connection() == conn
                        &&& ready.of() == *self
                    },
                },
    {
        match self.fired() {
            Some(err) => Checked::Fired(conn, err),
            None => Checked::Clear(Ready { conn, token: self.clone() }),
        }
    }
}

/// What a look at the token of a job found before the job starts, where `W` is the
/// world, and `Y` the world in which the job may start.
pub enum Checked<W, Y> {
    /// The token has fired, and maps to this error.
    Fired(W, IsleError),
    /// The token has not fired.
    Clear(Y),
}

/// A connection on which a job may start: its token was looked at, and had not
/// fired.
pub struct Ready {
    conn: rusqlite::Connection,
    token: CancelToken,
}

impl Ready {
    /// The connection.
    pub closed spec fn connection(self) -> rusqlite::Connection {
        self.conn
    }

    /// The token of the job that may start.
    pub closed spec fn of(self) -> CancelToken {
        self.token
    }

    /// Attaches the connection to the token, so that firing the token interrupts
    /// it.
    pub fn start(self) -> (attached: Attached)
        ensures
            self.of().made(TokenOp::Attach(interrupt_handle_of(self.connection()))),
            attached.connection() == self.connection(),
            attached.of() == self.of(),
    {
        self.token.attach(&self.conn);
        Attached { conn: self.conn, token: self.token }
    }
}

/// A connection on which a job runs: it is attached to the job's token.
///
/// It is let go of by [`end`](Self::end) only, which detaches it.
pub struct Attached {
    conn: rusqlite::Connection,
    token: CancelToken,
}

impl Attached {
    /// The connection.
    pub closed spec fn connection(self) -> rusqlite::Connection {
        self.conn
    }

    /// The token of the job that runs.
    pub closed spec fn of(self) -> CancelToken {
        self.token
    }

    /// The connection, for the job to work with.
    pub fn connection_mut(&mut self) -> (conn: &mut rusqlite::Connection)
        ensures
            *conn == old(self).connection(),
            final(self).connection() == *final(conn),
            final(self).of() == old(self).of(),
    {
        &mut self.conn
    }

    /// Detaches the connection from the token, and says what the token maps to
    /// at that moment: a token that is fired later fires too late for the job.
    pub fn end(self) -> (out: (rusqlite::Connection, Option<IsleError>))
        ensures
            out.0 == self.connection(),
            self.of().ended_as(out.1),
    {
        let err = self.token.detach();
        (self.conn, err)
    }
}

impl Clone for CancelToken {
    /// A second handle to the same token.
    fn clone(&self) -> (token: CancelToken)
        ensures
            token == *self,
    {
        CancelToken { cell: self.cell.clone() }
    }
}

impl Default for CancelToken {
    fn default() -> (token: CancelToken)
        ensures
            token.began_unfired(),
    {
        CancelToken::new()
    }
}

/// The reason of the first of `ops` that fires the token.
pub open spec fn first_fire<H>(ops: Seq<TokenOp<H>>) -> Option<Reason>
    decreases ops.len(),
{
    if ops.len() == 0 {
        None
    } else {
        match ops[0] {
            TokenOp::Fire(reason) => Some(reason),
            _ => first_fire(ops.drop_first()),
        }
    }
}

/// A token that starts unfired, as a new one does, holds the reason for which it
/// was first fired, and none before.
pub proof fn new_token_holds_its_first_fire<H>(life: TokenLife<H>, ops: Seq<TokenOp<H>>)
    requires
        life.initial.reason is None,
    ensures
        life.initial.after(ops).reason == first_fire(ops),
        life.may_hold(life.initial.after(ops)),
    decreases ops.len(),
{
    if ops.len() > 0 {
        let earlier = ops.drop_last();
        new_token_holds_its_first_fire(life, earlier);
        first_fire_of_more(earlier, ops.last());
        assert(earlier.push(ops.last()) =~= ops);
    }
}

proof fn first_fire_of_more<H>(ops: Seq<TokenOp<H>>, op: TokenOp<H>)
    ensures
        first_fire(ops.push(op)) == match first_fire(ops) {
            Some(reason) => Some(reason),
            None => match op {
                TokenOp::Fire(reason) => Some(reason),
                _ => None,
            },
        },
    decreases ops.len(),
{
    let more = ops.push(op);
    if ops.len() > 0 {
        assert(more.drop_first() =~= ops.drop_first().push(op));
        first_fire_of_more(ops.drop_first(), op);
    } else {
        assert(more.drop_first() =~= Seq::empty());
        assert(first_fire(more.drop_first()) is None);
    }
}

/// A cancel is never forgotten: a token that starts unfired is found cancelled if
/// and only if it was cancelled at some time, also if it had expired before.
pub proof fn cancel_is_never_forgotten<H>(life: TokenLife<H>, ops: Seq<TokenOp<H>>)
    requires
        !life.initial.cancelled,
    ensures
        life.initial.after(ops).cancelled <==> ops.contains(TokenOp::Fire(Reason::Cancelled)),
    decreases ops.len(),
{
    if ops.len() > 0 {
        let earlier = ops.drop_last();
        let cancel = TokenOp::<H>::Fire(Reason::Cancelled);
        cancel_is_never_forgotten(life, earlier);
        if earlier.contains(cancel) {
            let i = choose|i: int| 0 <= i < earlier.len() && earlier[i] == cancel;
            assert(ops[i] == cancel);
        }
        if ops.contains(cancel) && ops.last() != cancel {
            let i = choose|i: int| 0 <= i < ops.len() && ops[i] == cancel;
            assert(earlier[i] == cancel);
        }
        if ops.last() == cancel {
            assert(ops[ops.len() - 1] == cancel);
        }
    }
}

/// A token that has fired keeps its reason: neither firing again nor the start
/// and end of its job changes it.
pub proof fn first_reason_wins<H>(cell: TokenCell<H>, ops: Seq<TokenOp<H>>)
    requires
        cell.reason is Some,
    ensures
        cell.after(ops).reason == cell.reason,
    decreases ops.len(),
{
    if ops.len() > 0 {
        first_reason_wins(cell, ops.drop_last());
    }
}

/// A token whose job is not running interrupts nothing, however often it is
/// fired, until a job is attached to it.
pub proof fn detached_token_interrupts_nothing<H>(cell: TokenCell<H>, ops: Seq<TokenOp<H>>)
    requires
        cell.handle is None,
        forall|i: int| 0 <= i < ops.len() ==> !(#[trigger] ops[i] is Attach),
    ensures
        cell.interrupted(ops).len() == 0,
        cell.after(ops).handle is None,
    decreases ops.len(),
{
    if ops.len() > 0 {
        let earlier = ops.drop_last();
        assert forall|i: int| 0 <= i < earlier.len() implies !(#[trigger] earlier[i] is Attach) by {
            assert(ops[i] == earlier[i]);
        }
        detached_token_interrupts_nothing(cell, earlier);
        assert(!(ops[ops.len() - 1] is Attach));
    }
}

/// While a job is attached, only its own handle is interrupted, and it stays
/// attached.
pub proof fn running_job_is_the_only_target<H>(
    cell: TokenCell<H>,
    handle: H,
    fires: Seq<Reason>,
)
    requires
        cell.handle == Some(handle),
    ensures
        cell.after(fire_all(fires)).handle == Some(handle),
        cell.interrupted(fire_all(fires)) == Seq::new(fires.len(), |i: int| handle),
    decreases fires.len(),
{
    let ops = fire_all::<H>(fires);
    if fires.len() > 0 {
        assert(ops.drop_last() =~= fire_all::<H>(fires.drop_last()));
        running_job_is_the_only_target(cell, handle, fires.drop_last());
        assert(Seq::new((fires.len() - 1) as nat, |i: int| handle).push(handle) =~= Seq::new(
            fires.len(),
            |i: int| handle,
        ));
    } else {
        assert(cell.interrupted(ops) =~= Seq::new(fires.len(), |i: int| handle));
    }
}

/// The operations that fire a token for each of `reasons`.
pub open spec fn fire_all<H>(reasons: Seq<Reason>) -> Seq<TokenOp<H>> {
    Seq::new(reasons.len(), |i: int| TokenOp::Fire(reasons[i]))
}

/// No interrupt is lost. Whatever happened to the token before its job
/// started, if the token has fired by the end of the job then the job's own
/// handle was interrupted after it was attached: firing before the start, in
/// the window between the queue check and the start, or during the run all
/// count.
pub proof fn fired_job_is_interrupted<H>(cell: TokenCell<H>, handle: H, fires: Seq<Reason>)
    ensures
        ({
            let ops = seq![TokenOp::Attach(handle)] + fire_all(fires);
            &&& cell.after(ops).reason is Some <==> cell.reason is Some || fires.len() > 0
            &&& cell.interrupted(ops) == Seq::new(
                fires.len() + if cell.reason is Some {
                    1nat
                } else {
                    0nat
                },
                |i: int| handle,
            )
        }),
    decreases fires.len(),
{
    let ops = seq![TokenOp::Attach(handle)] + fire_all::<H>(fires);
    let count = fires.len() + if cell.reason is Some {
        1nat
    } else {
        0nat
    };
    if fires.len() == 0 {
        assert(ops =~= seq![TokenOp::Attach(handle)]);
        assert(ops.drop_last() =~= Seq::empty());
        reveal_with_fuel(TokenCell::after, 2);
        reveal_with_fuel(TokenCell::interrupted, 2);
        assert(cell.interrupted(ops) =~= Seq::new(count, |i: int| handle));
    } else {
        let earlier = fires.drop_last();
        let ops0 = seq![TokenOp::Attach(handle)] + fire_all::<H>(earlier);
        assert(ops.drop_last() =~= ops0);
        fired_job_is_interrupted(cell, handle, earlier);
        attached_after_attach(cell, handle, earlier);
        assert(ops.last() == TokenOp::<H>::Fire(fires.last()));
        assert(cell.interrupted(ops) =~= Seq::new(count, |i: int| handle));
    }
}

proof fn attached_after_attach<H>(cell: TokenCell<H>, handle: H, fires: Seq<Reason>)
    ensures
        cell.after(seq![TokenOp::Attach(handle)] + fire_all(fires)).handle == Some(handle),
    decreases fires.len(),
{
    let ops = seq![TokenOp::Attach(handle)] + fire_all::<H>(fires);
    if fires.len() == 0 {
        assert(ops =~= seq![TokenOp::Attach(handle)]);
        assert(ops.drop_last() =~= Seq::empty());
        reveal_with_fuel(TokenCell::after, 2);
    } else {
        assert(ops.drop_last() =~= seq![TokenOp::Attach(handle)] + fire_all::<H>(
            fires.drop_last(),
        ));
        attached_after_attach(cell, handle, fires.drop_last());
    }
}

/// `handle` was interrupted, by the call that interrupts a connection's statements.
pub closed spec fn is_interrupted(handle: rusqlite::InterruptHandle) -> bool {
    call_ensures(interrupt, (&handle,), ())
}

/// A handle counts as interrupted only if the call was made.
proof fn interrupted_by_the_call(handle: rusqlite::InterruptHandle)
    ensures
        is_interrupted(handle) ==> call_ensures(interrupt, (&handle,), ()),
{
}

/// The two reasons are told apart: a cancel is reported as
/// [`IsleError::Cancelled`], an elapsed deadline as [`IsleError::Timeout`].
pub proof fn reasons_are_told_apart(reason: Reason, err: IsleError)
    requires
        call_ensures(Reason::error, (reason,), err),
    ensures
        reason is Cancelled <==> err is Cancelled,
        reason is Timeout <==> err is Timeout,
{
}

/// A new cell holds no reason, no cancel and no handle.
pub proof fn new_cell_is_blank<H>(cell: TokenCell<H>)
    requires
        call_ensures(TokenCell::<H>::new, (), cell),
    ensures
        cell.reason is None,
        !cell.cancelled,
        cell.handle is None,
{
}

/// Firing a cell gives it a reason if it had none, and leaves the one that it had. A
/// cancel is remembered in either case. The handle stays, and is interrupted if there
/// is one, whatever the reasons are; otherwise nothing happens to the world.
pub proof fn firing_a_cell<W, H, I>(world: W, reason: Reason, interrupt: I) where
    I: FnOnce(W, &H) -> W,

    ensures
        forall|cell: &mut TokenCell<H>, after: W| #[trigger]
            call_ensures(TokenCell::<H>::fire::<W, I>, (cell, world, reason, interrupt), after)
                ==> {
                &&& cell.reason is None ==> final(cell).reason == Some(reason)
                &&& cell.reason is Some ==> final(cell).reason == cell.reason
                &&& final(cell).cancelled <==> cell.cancelled || reason is Cancelled
                &&& final(cell).handle == cell.handle
                &&& cell.handle is None ==> after == world
                &&& cell.handle matches Some(handle) ==> interrupt.ensures((world, &handle), after)
            },
{
}

/// Attaching a handle to a cell stores that handle and changes nothing else. The
/// handle is interrupted if the cell had fired, for whichever reason; otherwise
/// nothing happens to the world.
pub proof fn attaching_to_a_cell<W, H, I>(world: W, handle: H, interrupt: I) where
    I: FnOnce(W, &H) -> W,

    ensures
        forall|cell: &mut TokenCell<H>, after: W| #[trigger]
            call_ensures(TokenCell::<H>::attach::<W, I>, (cell, world, handle, interrupt), after)
                ==> {
                &&& final(cell).handle == Some(handle)
                &&& final(cell).reason == cell.reason
                &&& final(cell).cancelled == cell.cancelled
                &&& cell.reason is None ==> after == world
                &&& cell.reason is Some ==> interrupt.ensures((world, &handle), after)
            },
{
}

/// Detaching forgets the handle and changes nothing else.
pub proof fn detaching_from_a_cell<H>()
    ensures
        forall|cell: &mut TokenCell<H>| #[trigger]
            call_ensures(TokenCell::<H>::detach, (cell,), ()) ==> {
                &&& final(cell).handle is None
                &&& final(cell).reason == cell.reason
                &&& final(cell).cancelled == cell.cancelled
            },
{
}

/// A cell that has fired maps to the error of its reason, one that has not to none,
/// whether its job runs or not.
pub proof fn fired_cell_maps_to_its_reason<H>(cell: TokenCell<H>, err: Option<IsleError>)
    requires
        call_ensures(TokenCell::<H>::fired, (&cell,), err),
    ensures
        cell.reason is None <==> err is None,
        cell.reason == Some(Reason::Cancelled) ==> err == Some(IsleError::Cancelled),
        cell.reason == Some(Reason::Timeout) ==> err == Some(IsleError::Timeout),
{
}

/// A cell says that it was cancelled if and only if a cancel is remembered, for
/// whichever reason it fired first.
pub proof fn cancelled_cell_says_so<H>(cell: TokenCell<H>, cancelled: bool)
    requires
        call_ensures(TokenCell::<H>::is_cancelled, (&cell,), cancelled),
    ensures
        cancelled <==> cell.cancelled,
{
}

/// `cell` holds no reason, no cancel and no handle, and `token` was made around it.
pub open spec fn is_made_blank(
    token: CancelToken,
    cell: TokenCell<rusqlite::InterruptHandle>,
    life: TokenLife<rusqlite::InterruptHandle>,
) -> bool {
    &&& call_ensures(
        RwLock::<
            TokenCell<rusqlite::InterruptHandle>,
            TokenLife<rusqlite::InterruptHandle>,
        >::new,
        (cell, Ghost(life)),
        token.lock(),
    )
    &&& cell.reason is None
    &&& !cell.cancelled
    &&& cell.handle is None
}

/// A new token, however it is made, has a lock of its own around a cell that holds no
/// reason, no cancel and no handle.
pub proof fn new_token_is_blank(token: CancelToken)
    requires
        call_ensures(CancelToken::new, (), token) || call_ensures(
            <CancelToken as Default>::default,
            (),
            token,
        ),
    ensures
        exists|
            cell: TokenCell<rusqlite::InterruptHandle>,
            life: TokenLife<rusqlite::InterruptHandle>,
        | #[trigger]
            is_made_blank(token, cell, life),
{
    let cell = TokenCell::<Handle> { reason: None, cancelled: false, handle: None };
    assert(is_made_blank(token, cell, token.life()));
}

/// A clone is a second handle to the same token: it shares the lock, and so the cell.
pub proof fn clone_shares_the_token(token: CancelToken, copy: CancelToken)
    requires
        call_ensures(<CancelToken as Clone>::clone, (&token,), copy),
    ensures
        copy.lock() == token.lock(),
        copy == token,
{
}

/// The lock of `token` was taken for writing, `before` was found in it, and `after`
/// was left in it.
pub open spec fn is_replaced(
    token: CancelToken,
    before: TokenCell<rusqlite::InterruptHandle>,
    lock: WriteHandle<
        TokenCell<rusqlite::InterruptHandle>,
        TokenLife<rusqlite::InterruptHandle>,
    >,
    after: TokenCell<rusqlite::InterruptHandle>,
) -> bool {
    &&& call_ensures(
        RwLock::<
            TokenCell<rusqlite::InterruptHandle>,
            TokenLife<rusqlite::InterruptHandle>,
        >::acquire_write,
        (&token.lock(),),
        (before, lock),
    )
    &&& call_ensures(
        WriteHandle::<
            TokenCell<rusqlite::InterruptHandle>,
            TokenLife<rusqlite::InterruptHandle>,
        >::release_write,
        (lock, after),
        (),
    )
}

/// Firing a token, by whichever of its methods, acts under the token's lock: the cell
/// that was found there is left with a reason, which is the one given if it had none
/// and its own otherwise. A cancel is remembered, the handle stays, and is interrupted
/// if there is one.
pub proof fn firing_a_token(token: CancelToken, reason: Reason)
    requires
        ({
            ||| call_ensures(CancelToken::fire, (&token, reason), ())
            ||| reason is Cancelled && call_ensures(CancelToken::cancel, (&token,), ())
            ||| reason is Timeout && call_ensures(CancelToken::expire, (&token,), ())
        }),
    ensures
        exists|
            before: TokenCell<rusqlite::InterruptHandle>,
            lock: WriteHandle<
                TokenCell<rusqlite::InterruptHandle>,
                TokenLife<rusqlite::InterruptHandle>,
            >,
            after: TokenCell<rusqlite::InterruptHandle>,
        | #[trigger]
            is_replaced(token, before, lock, after) && {
                &&& before.reason is None ==> after.reason == Some(reason)
                &&& before.reason is Some ==> after.reason == before.reason
                &&& after.cancelled <==> before.cancelled || reason is Cancelled
                &&& after.handle == before.handle
                &&& before.handle matches Some(handle) ==> is_interrupted(handle)
            },
{
    let op = TokenOp::<Handle>::Fire(reason);
    let (before, lock) = choose|
        before: TokenCell<Handle>,
        lock: WriteHandle<TokenCell<Handle>, TokenLife<Handle>>,
    | #[trigger]
        call_ensures(CellLock::acquire_write, (&*token.cell,), (before, lock)) && call_ensures(
            WriteHandle::<TokenCell<Handle>, TokenLife<Handle>>::release_write,
            (lock, before.stepped(op).0),
            (),
        ) && match before.stepped(op).1 {
            Some(handle) => call_ensures(interrupt, (&handle,), ()),
            None => true,
        };
    assert(is_replaced(token, before, lock, before.stepped(op).0));
}

/// Starting a job on a connection stores the connection's own interrupt handle in the
/// cell that is found under the lock, and changes nothing else of it. If the cell had
/// fired, for whichever reason, that handle is interrupted. The job gets the very
/// connection, under the very token.
pub proof fn starting_a_job(ready: Ready, attached: Attached)
    requires
        call_ensures(Ready::start, (ready,), attached),
    ensures
        attached.connection() == ready.connection(),
        attached.of() == ready.of(),
        exists|
            before: TokenCell<rusqlite::InterruptHandle>,
            lock: WriteHandle<
                TokenCell<rusqlite::InterruptHandle>,
                TokenLife<rusqlite::InterruptHandle>,
            >,
            after: TokenCell<rusqlite::InterruptHandle>,
        | #[trigger]
            is_replaced(ready.of(), before, lock, after) && {
                &&& after.handle == Some(interrupt_handle_of(ready.connection()))
                &&& after.reason == before.reason
                &&& after.cancelled == before.cancelled
                &&& before.reason is Some ==> is_interrupted(
                    interrupt_handle_of(ready.connection()),
                )
            },
{
    let op = TokenOp::Attach(interrupt_handle_of(ready.connection()));
    let token = ready.of();
    let (before, lock) = choose|
        before: TokenCell<Handle>,
        lock: WriteHandle<TokenCell<Handle>, TokenLife<Handle>>,
    | #[trigger]
        call_ensures(CellLock::acquire_write, (&*token.cell,), (before, lock)) && call_ensures(
            WriteHandle::<TokenCell<Handle>, TokenLife<Handle>>::release_write,
            (lock, before.stepped(op).0),
            (),
        ) && match before.stepped(op).1 {
            Some(handle) => call_ensures(interrupt, (&handle,), ()),
            None => true,
        };
    assert(is_replaced(token, before, lock, before.stepped(op).0));
}

/// Ending a job gives the very connection back and forgets the handle in the cell that
/// is found under the lock, which is changed in nothing else. What is reported is why
/// that cell had fired, if it had.
pub proof fn ending_a_job(
    attached: Attached,
    out: (rusqlite::Connection, Option<IsleError>),
)
    requires
        call_ensures(Attached::end, (attached,), out),
    ensures
        out.0 == attached.connection(),
        exists|
            before: TokenCell<rusqlite::InterruptHandle>,
            lock: WriteHandle<
                TokenCell<rusqlite::InterruptHandle>,
                TokenLife<rusqlite::InterruptHandle>,
            >,
            after: TokenCell<rusqlite::InterruptHandle>,
        | #[trigger]
            is_replaced(attached.of(), before, lock, after) && {
                &&& after.handle is None
                &&& after.reason == before.reason
                &&& after.cancelled == before.cancelled
                &&& before.reason is None ==> out.1 is None
                &&& before.reason == Some(Reason::Cancelled) ==> out.1 == Some(
                    IsleError::Cancelled,
                )
                &&& before.reason == Some(Reason::Timeout) ==> out.1 == Some(IsleError::Timeout)
            },
{
    let token = attached.of();
    let before = choose|cell: TokenCell<Handle>| #[trigger]
        token.ended(cell) && out.1 == error_of(cell.reason);
    let lock = choose|lock: WriteHandle<TokenCell<Handle>, TokenLife<Handle>>| #[trigger]
        call_ensures(CellLock::acquire_write, (&*token.cell,), (before, lock)) && call_ensures(
            WriteHandle::<TokenCell<Handle>, TokenLife<Handle>>::release_write,
            (lock, before.stepped(TokenOp::Detach).0),
            (),
        );
    assert(is_replaced(token, before, lock, before.stepped(TokenOp::Detach).0));
}

/// The lock of `token` was taken for reading through `lock`.
pub open spec fn is_read(
    token: CancelToken,
    lock: ReadHandle<
        TokenCell<rusqlite::InterruptHandle>,
        TokenLife<rusqlite::InterruptHandle>,
    >,
) -> bool {
    call_ensures(
        RwLock::<
            TokenCell<rusqlite::InterruptHandle>,
            TokenLife<rusqlite::InterruptHandle>,
        >::acquire_read,
        (&token.lock(),),
        lock,
    )
}

/// What a look at a token says is what its lock was found to hold: whether a cancel is
/// remembered, and why it fired, if it did.
pub proof fn looking_at_a_token(token: CancelToken, cancelled: bool, err: Option<IsleError>)
    ensures
        call_ensures(CancelToken::is_cancelled, (&token,), cancelled) ==> exists|
            lock: ReadHandle<
                TokenCell<rusqlite::InterruptHandle>,
                TokenLife<rusqlite::InterruptHandle>,
            >,
        | #[trigger]
            is_read(token, lock) && cancelled == lock.view().cancelled,
        call_ensures(CancelToken::fired, (&token,), err) ==> exists|
            lock: ReadHandle<
                TokenCell<rusqlite::InterruptHandle>,
                TokenLife<rusqlite::InterruptHandle>,
            >,
        | #[trigger]
            is_read(token, lock) && {
                &&& lock.view().reason is None ==> err is None
                &&& lock.view().reason == Some(Reason::Cancelled) ==> err == Some(
                    IsleError::Cancelled,
                )
                &&& lock.view().reason == Some(Reason::Timeout) ==> err == Some(IsleError::Timeout)
            },
{
    if call_ensures(CancelToken::is_cancelled, (&token,), cancelled) {
        let cell = choose|cell: TokenCell<Handle>| #[trigger]
            token.found(cell) && cancelled == cell.cancelled;
        read_through(token, cell);
    }
    if call_ensures(CancelToken::fired, (&token,), err) {
        let cell = choose|cell: TokenCell<Handle>| #[trigger]
            token.found(cell) && err == error_of(cell.reason);
        read_through(token, cell);
    }
}

/// The look before a job starts: the connection goes on to the start, under the very
/// token, if and only if the cell that was found under the lock had not fired, and is
/// otherwise given back with the reason.
pub proof fn checking_a_token(
    token: CancelToken,
    conn: rusqlite::Connection,
    checked: Checked<rusqlite::Connection, Ready>,
)
    requires
        call_ensures(CancelToken::check, (&token, conn), checked),
    ensures
        exists|
            lock: ReadHandle<
                TokenCell<rusqlite::InterruptHandle>,
                TokenLife<rusqlite::InterruptHandle>,
            >,
        | #[trigger]
            is_read(token, lock) && match lock.view().reason {
                None => {
                    &&& checked matches Checked::Clear(ready)
                    &&& ready.connection() == conn
                    &&& ready.of() == token
                },
                Some(Reason::Cancelled) => checked == Checked::<rusqlite::Connection, Ready>::Fired(
                    conn,
                    IsleError::Cancelled,
                ),
                Some(Reason::Timeout) => checked == Checked::<rusqlite::Connection, Ready>::Fired(
                    conn,
                    IsleError::Timeout,
                ),
            },
{
    let cell = choose|cell: TokenCell<Handle>| #[trigger]
        token.found(cell) && match error_of(cell.reason) {
            Some(err) => checked == Checked::<rusqlite::Connection, Ready>::Fired(conn, err),
            None => {
                &&& checked matches Checked::Clear(ready)
                &&& ready.connection() == conn
                &&& ready.of() == token
            },
        };
    read_through(token, cell);
}

proof fn read_through(token: CancelToken, cell: TokenCell<Handle>)
    requires
        token.found(cell),
    ensures
        exists|lock: ReadHandle<TokenCell<Handle>, TokenLife<Handle>>| #[trigger]
            is_read(token, lock) && lock.view() == cell,
{
    let lock = choose|lock: ReadHandle<TokenCell<Handle>, TokenLife<Handle>>| #[trigger]
        call_ensures(CellLock::acquire_read, (&*token.cell,), lock) && lock.view() == cell;
    assert(is_read(token, lock));
}

/// A job works with the very connection that it was started on, and what it does to
/// the connection is all that changes.
pub proof fn job_works_with_its_connection()
    ensures
        forall|attached: &mut Attached, conn: &mut rusqlite::Connection| #[trigger]
            call_ensures(Attached::connection_mut, (attached,), conn) ==> {
                &&& *conn == attached.connection()
                &&& final(attached).connection() == *final(conn)
                &&& final(attached).of() == attached.of()
            },
{
}

} // verus!

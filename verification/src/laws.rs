//! What the operations are for, stated of their own contracts.
//!
//! Each law here takes what an operation was given and what it returned, knows of the
//! two only that the operation's contract allows them, and says what follows for its
//! caller. The laws that span many steps of an isle are in [`system`](crate::system),
//! and those of a token are in [`token`](crate::token).
pub mod calls;
pub mod jobs;
pub mod launch;
pub mod pool;
pub mod shutdown;

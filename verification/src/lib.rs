//! Cross-process counting semaphore, split into a verified core and thin
//! platform shims.
//!
//! A named semaphore lets independent processes coordinate through a shared
//! logical name.  The verified core of that task lives here:
//!
//! - [`name`]: turning a user-supplied name into a stable platform
//!   identifier (a filesystem path fragment or a wide-character object name);
//! - [`hash`]: the 64-bit keyed mix that keeps differently-named semaphores
//!   from colliding after the name is sanitized;
//! - [`protocol`]: the create-or-attach state machine that resolves the
//!   System-V create/initialize race;
//! - [`ops`]: the decision rules for wait, try-wait and post, including
//!   which operating-system conditions are retried and which are fatal;
//! - [`counter`]: the counting-semaphore model that the kernel object
//!   realizes, with the guard-accounting laws proved over it.
//!
//! The kernel calls themselves (and anything else the verifier cannot see)
//! stay outside this crate, in a shim that performs each [`protocol::Action`]
//! and feeds the observed result back in as a [`protocol::Event`].

use vstd::prelude::*;

pub mod counter;
pub mod hash;
pub mod name;
pub mod ops;
pub mod protocol;

verus! {

/// A construction-time failure.
///
/// Creating or attaching to a semaphore can fail in two ways: the operating
/// system refuses one of the steps (the raw error number is kept), or the
/// process that won the creation race never finished initializing the
/// counter within the bounded wait.
#[derive(Clone, Copy, Debug, PartialEq, Eq, Structural)]
pub enum CreateError {
    /// An operating-system call failed; the payload is its error number.
    Os(i32),
    /// The bounded wait for another process to initialize the counter ran out.
    TimedOut,
}

impl CreateError {
    /// Whether this error carries a raw operating-system error number.
    pub fn is_os(&self) -> (r: bool)
        ensures
            r == (self is Os),
    {
        matches!(self, CreateError::Os(_))
    }
}

} // verus!

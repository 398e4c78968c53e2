//! Decision rules for the steady-state operations: wait, try-wait, post.
//!
//! Once a semaphore handle exists, every operation is one kernel call in a
//! small retry loop.  The loop's decisions — which outcome counts as
//! success, which is retried, which maps to a clean "not available", and
//! which is an unrecoverable defect — are made here, under contracts.  The
//! shim that performs the kernel call classifies its raw result into an
//! [`OpStatus`] and acts on the returned step.
//!
//! The asymmetry is deliberate and inherited from the design: errors while
//! *creating* a semaphore are returned to the caller, but an unexpected
//! error during wait or post indicates a programming or environment defect
//! and is treated as fatal by the shim, not returned.

use vstd::prelude::*;

use crate::protocol::MAX_COUNT;

verus! {

/// The classified outcome of one counter operation, as the shim saw it.
#[derive(Clone, Copy, Debug, PartialEq, Eq, Structural)]
pub enum OpStatus {
    /// The operation was applied.
    Applied,
    /// A signal interrupted the call before the operation was applied.
    Interrupted,
    /// The operation would have blocked and non-blocking mode was on.
    WouldBlock,
    /// Any other failure, with its raw error number.
    Error(i32),
}

/// What a blocking wait does with one outcome.
#[derive(Clone, Copy, Debug, PartialEq, Eq, Structural)]
pub enum WaitStep {
    /// A unit was obtained; the wait is over.
    Acquired,
    /// The interrupted call was not applied; issue the same call again.
    Retry,
    /// An unexpected condition; the operation fails fatally.
    Fatal,
}

/// What a non-blocking wait does with one outcome.
#[derive(Clone, Copy, Debug, PartialEq, Eq, Structural)]
pub enum TryWaitStep {
    /// A unit was obtained.
    Acquired,
    /// No unit was available; report a clean `false`.
    Unavailable,
    /// An unexpected condition; the operation fails fatally.
    Fatal,
}

/// What a post does with one outcome.
#[derive(Clone, Copy, Debug, PartialEq, Eq, Structural)]
pub enum PostStep {
    /// The unit was returned.
    Released,
    /// The interrupted call was not applied; issue the same call again.
    Retry,
    /// An unexpected condition; the operation fails fatally.
    Fatal,
}

/// A blocking decrement: success ends the wait, an interruption is retried
/// (the kernel did not apply the operation), and everything else — a
/// "would block" can only mean a mis-issued non-blocking call — is fatal.
pub fn wait_step(st: OpStatus) -> (r: WaitStep)
    ensures
        r == (match st {
            OpStatus::Applied => WaitStep::Acquired,
            OpStatus::Interrupted => WaitStep::Retry,
            OpStatus::WouldBlock => WaitStep::Fatal,
            OpStatus::Error(_) => WaitStep::Fatal,
        }),
{
    match st {
        OpStatus::Applied => WaitStep::Acquired,
        OpStatus::Interrupted => WaitStep::Retry,
        OpStatus::WouldBlock => WaitStep::Fatal,
        OpStatus::Error(_) => WaitStep::Fatal,
    }
}

/// A non-blocking decrement: success obtains a unit, "would block" is the
/// clean unavailable answer, and everything else — an interruption
/// included — is fatal.
pub fn try_wait_step(st: OpStatus) -> (r: TryWaitStep)
    ensures
        r == (match st {
            OpStatus::Applied => TryWaitStep::Acquired,
            OpStatus::WouldBlock => TryWaitStep::Unavailable,
            OpStatus::Interrupted => TryWaitStep::Fatal,
            OpStatus::Error(_) => TryWaitStep::Fatal,
        }),
{
    match st {
        OpStatus::Applied => TryWaitStep::Acquired,
        OpStatus::WouldBlock => TryWaitStep::Unavailable,
        OpStatus::Interrupted => TryWaitStep::Fatal,
        OpStatus::Error(_) => TryWaitStep::Fatal,
    }
}

/// An increment: it never blocks, but an interrupted call is still retried
/// exactly like a wait; anything else is fatal.
pub fn post_step(st: OpStatus) -> (r: PostStep)
    ensures
        r == (match st {
            OpStatus::Applied => PostStep::Released,
            OpStatus::Interrupted => PostStep::Retry,
            OpStatus::WouldBlock => PostStep::Fatal,
            OpStatus::Error(_) => PostStep::Fatal,
        }),
{
    match st {
        OpStatus::Applied => PostStep::Released,
        OpStatus::Interrupted => PostStep::Retry,
        OpStatus::WouldBlock => PostStep::Fatal,
        OpStatus::Error(_) => PostStep::Fatal,
    }
}

/// "Undo this operation when the process exits" flag (`SEM_UNDO`): every
/// operation carries it, so the kernel reclaims units from a crashed
/// process.
pub const SEM_UNDO: i16 = 0x1000;

/// "Fail instead of blocking" flag (`IPC_NOWAIT`).
pub const IPC_NOWAIT: i16 = 0x800;

/// The three fields of one counter operation: the slot (always the single
/// slot 0), the signed amount, and the flags.
#[derive(Clone, Copy, Debug, PartialEq, Eq, Structural)]
pub struct OpFields {
    pub num: u16,
    pub op: i16,
    pub flg: i16,
}

/// The operation every wait, try-wait and post issues: amount `delta` on
/// slot 0, always with the crash-undo flag, and with the non-blocking flag
/// exactly when `block` is off.
pub fn op_fields(delta: i16, block: bool) -> (b: OpFields)
    ensures
        b.num == 0,
        b.op == delta,
        b.flg == (if block {
            SEM_UNDO
        } else {
            0x1800
        }),
        b.flg & SEM_UNDO == SEM_UNDO,
{
    let flg: i16 = if block {
        SEM_UNDO
    } else {
        SEM_UNDO | IPC_NOWAIT
    };
    assert((0x1000 as i16) | (0x800 as i16) == 0x1800) by (bit_vector);
    assert((0x1000 as i16) & (0x1000 as i16) == 0x1000) by (bit_vector);
    assert((0x1800 as i16) & (0x1000 as i16) == 0x1000) by (bit_vector);
    OpFields { num: 0, op: delta, flg }
}

/// The one-time initializing operation of a fresh counter: bump the
/// single slot by the initial count, with no flags at all — in
/// particular without the crash-undo flag, which would take the initial
/// count back the moment the creating process exits.
pub fn init_op_fields(delta: u16) -> (b: OpFields)
    requires
        delta <= MAX_COUNT,
    ensures
        b.num == 0,
        b.op == delta as i16,
        b.flg == 0,
{
    OpFields { num: 0, op: delta as i16, flg: 0 }
}

/// The result code a blocking handle wait reports on success
/// (`WAIT_OBJECT_0`).
pub const WAIT_SETTLED: u32 = 0;

/// The result code a handle wait reports when its timeout ran out
/// (`WAIT_TIMEOUT`).
pub const WAIT_RAN_OUT: u32 = 0x102;

/// On the handle-based platform a wait returns a result code instead of
/// an error number.  A blocking wait accepts only the "signaled" code;
/// the documented failure code and every unrecognized code are fatal.
pub fn handle_wait_step(code: u32) -> (r: WaitStep)
    ensures
        r == (if code == WAIT_SETTLED {
            WaitStep::Acquired
        } else {
            WaitStep::Fatal
        }),
{
    if code == WAIT_SETTLED {
        WaitStep::Acquired
    } else {
        WaitStep::Fatal
    }
}

/// A handle wait with a zero timeout: the "signaled" code obtained a
/// unit, the "timed out" code is the clean unavailable answer, and every
/// other code is fatal.
pub fn handle_try_wait_step(code: u32) -> (r: TryWaitStep)
    ensures
        r == (if code == WAIT_SETTLED {
            TryWaitStep::Acquired
        } else if code == WAIT_RAN_OUT {
            TryWaitStep::Unavailable
        } else {
            TryWaitStep::Fatal
        }),
{
    if code == WAIT_SETTLED {
        TryWaitStep::Acquired
    } else if code == WAIT_RAN_OUT {
        TryWaitStep::Unavailable
    } else {
        TryWaitStep::Fatal
    }
}

/// A handle release reports plain success or failure; failure is fatal,
/// and there is nothing to retry.
pub fn handle_post_step(succeeded: bool) -> (r: PostStep)
    ensures
        r == (if succeeded {
            PostStep::Released
        } else {
            PostStep::Fatal
        }),
{
    if succeeded {
        PostStep::Released
    } else {
        PostStep::Fatal
    }
}

} // verus!

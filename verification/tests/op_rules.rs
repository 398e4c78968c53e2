//! The steady-state decision rules and the operation fields.

use ipc::ops::{
    handle_post_step, handle_try_wait_step, handle_wait_step, init_op_fields, op_fields, post_step,
    try_wait_step, wait_step, OpStatus, PostStep, TryWaitStep, WaitStep, IPC_NOWAIT, SEM_UNDO,
    WAIT_RAN_OUT, WAIT_SETTLED,
};

/// A blocking wait retries only an interruption; everything unexpected
/// is fatal.
#[test]
fn wait_decisions() {
    assert_eq!(wait_step(OpStatus::Applied), WaitStep::Acquired);
    assert_eq!(wait_step(OpStatus::Interrupted), WaitStep::Retry);
    assert_eq!(wait_step(OpStatus::WouldBlock), WaitStep::Fatal);
    assert_eq!(wait_step(OpStatus::Error(5)), WaitStep::Fatal);
}

/// A non-blocking wait turns "would block" into a clean refusal and
/// treats even an interruption as unexpected.
#[test]
fn try_wait_decisions() {
    assert_eq!(try_wait_step(OpStatus::Applied), TryWaitStep::Acquired);
    assert_eq!(try_wait_step(OpStatus::WouldBlock), TryWaitStep::Unavailable);
    assert_eq!(try_wait_step(OpStatus::Interrupted), TryWaitStep::Fatal);
    assert_eq!(try_wait_step(OpStatus::Error(5)), TryWaitStep::Fatal);
}

/// A post never blocks but still retries an interruption.
#[test]
fn post_decisions() {
    assert_eq!(post_step(OpStatus::Applied), PostStep::Released);
    assert_eq!(post_step(OpStatus::Interrupted), PostStep::Retry);
    assert_eq!(post_step(OpStatus::WouldBlock), PostStep::Fatal);
    assert_eq!(post_step(OpStatus::Error(5)), PostStep::Fatal);
}

/// Every operation works on slot zero with the crash-undo flag; only a
/// non-blocking one adds the no-wait flag.
#[test]
fn operation_fields() {
    let blocking = op_fields(-1, true);
    assert_eq!(blocking.num, 0);
    assert_eq!(blocking.op, -1);
    assert_eq!(blocking.flg, SEM_UNDO);
    assert_eq!(blocking.flg, 0x1000);

    let non_blocking = op_fields(-1, false);
    assert_eq!(non_blocking.flg, SEM_UNDO | IPC_NOWAIT);
    assert_eq!(non_blocking.flg, 0x1800);

    let bump = op_fields(1, true);
    assert_eq!(bump.op, 1);
    assert_eq!(bump.flg, SEM_UNDO);
}

/// The one-time initializing bump carries no flags at all — above all
/// not the crash-undo flag, which would revert the initial count when
/// the creating process exits.
#[test]
fn init_operation_fields() {
    let init = init_op_fields(5);
    assert_eq!(init.num, 0);
    assert_eq!(init.op, 5);
    assert_eq!(init.flg, 0);
    assert_eq!(init_op_fields(32767).op, 32767);
}

/// The handle-based wait accepts only the "signaled" code.
#[test]
fn handle_wait_decisions() {
    assert_eq!(handle_wait_step(WAIT_SETTLED), WaitStep::Acquired);
    assert_eq!(handle_wait_step(WAIT_RAN_OUT), WaitStep::Fatal);
    assert_eq!(handle_wait_step(0xFFFFFFFF), WaitStep::Fatal);
    assert_eq!(handle_wait_step(0x80), WaitStep::Fatal);
}

/// With a zero timeout, "timed out" is the clean refusal.
#[test]
fn handle_try_wait_decisions() {
    assert_eq!(handle_try_wait_step(WAIT_SETTLED), TryWaitStep::Acquired);
    assert_eq!(handle_try_wait_step(WAIT_RAN_OUT), TryWaitStep::Unavailable);
    assert_eq!(handle_try_wait_step(0xFFFFFFFF), TryWaitStep::Fatal);
}

/// A failed handle release is fatal; there is nothing to retry.
#[test]
fn handle_post_decisions() {
    assert_eq!(handle_post_step(true), PostStep::Released);
    assert_eq!(handle_post_step(false), PostStep::Fatal);
}

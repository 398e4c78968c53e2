//! Driving the create-or-attach protocol through its paths.

use ipc::protocol::{excl_create_flags, Action, CreateState, Event, POLL_LIMIT};
use ipc::CreateError;

/// The race winner's path: make the marker, derive the key, create
/// exclusively, set the value, bump the stamp, done.
#[test]
fn initializer_path() {
    let s = CreateState::start();
    assert_eq!(s.action(1), Action::MakeDir);
    let s = s.step(Event::Succeeded);
    assert_eq!(s.action(1), Action::MakeFile);
    let s = s.step(Event::AlreadyExists);
    assert_eq!(s.action(1), Action::DeriveKey);
    let s = s.step(Event::Identifier(42));
    assert_eq!(s.action(1), Action::GetExcl { key: 42 });
    let s = s.step(Event::Identifier(7));
    assert_eq!(s.action(1), Action::SetValue { semid: 7, value: 0 });
    let s = s.step(Event::Succeeded);
    assert_eq!(s.action(1), Action::Operate { semid: 7, delta: 1 });
    let s = s.step(Event::Succeeded);
    assert!(s.is_done());
    assert_eq!(s.semid(), Some(7));
    assert_eq!(s.error(), None);
}

/// A race loser re-opens the counter and polls the stamp until the
/// winner's bump shows.
#[test]
fn joiner_path() {
    let s = CreateState::start()
        .step(Event::Succeeded)
        .step(Event::Succeeded)
        .step(Event::Identifier(42))
        .step(Event::AlreadyExists);
    assert_eq!(s.action(5), Action::GetExisting { key: 42 });
    let s = s.step(Event::Identifier(9));
    assert_eq!(s.action(5), Action::ReadStamp { semid: 9 });
    let s = s.step(Event::Stamp(0));
    assert_eq!(s.action(5), Action::ReadStamp { semid: 9 });
    let s = s.step(Event::Stamp(1700000000));
    assert!(s.is_done());
    assert_eq!(s.semid(), Some(9));
}

/// A joiner that never sees the stamp turn non-zero gives up after the
/// fixed bound, with the timeout error and not an operating-system one.
#[test]
fn joiner_times_out() {
    let mut s = CreateState::start()
        .step(Event::Succeeded)
        .step(Event::Succeeded)
        .step(Event::Identifier(42))
        .step(Event::AlreadyExists)
        .step(Event::Identifier(9));
    let mut polls: u32 = 0;
    while !s.is_done() {
        s = s.step(Event::Stamp(0));
        polls += 1;
    }
    assert_eq!(polls, POLL_LIMIT);
    assert_eq!(s.error(), Some(CreateError::TimedOut));
    assert!(!s.error().unwrap().is_os());
}

/// If setting the value or bumping the stamp fails, the half-made
/// counter is destroyed and the first error is reported.
#[test]
fn initializer_rolls_back() {
    let s = CreateState::start()
        .step(Event::Succeeded)
        .step(Event::Succeeded)
        .step(Event::Identifier(42))
        .step(Event::Identifier(7));
    let s = s.step(Event::Failed(22));
    assert_eq!(s.action(1), Action::Remove { semid: 7 });
    let s = s.step(Event::Succeeded);
    assert_eq!(s.error(), Some(CreateError::Os(22)));
    assert!(s.error().unwrap().is_os());
    assert_eq!(s.semid(), None);
}

/// The same rollback happens when the bump fails, and the destroy call's
/// own result does not mask the saved error.
#[test]
fn bump_failure_rolls_back() {
    let s = CreateState::start()
        .step(Event::Succeeded)
        .step(Event::Succeeded)
        .step(Event::Identifier(42))
        .step(Event::Identifier(7))
        .step(Event::Succeeded)
        .step(Event::Failed(34));
    assert_eq!(s.action(1), Action::Remove { semid: 7 });
    let s = s.step(Event::Failed(1));
    assert_eq!(s.error(), Some(CreateError::Os(34)));
}

/// Any failure while making the marker directory or file surfaces the
/// raw error, but "it already exists" is not a failure.
#[test]
fn marker_errors_surface() {
    let s = CreateState::start().step(Event::Failed(13));
    assert_eq!(s.error(), Some(CreateError::Os(13)));

    let s = CreateState::start().step(Event::AlreadyExists).step(Event::Failed(28));
    assert_eq!(s.error(), Some(CreateError::Os(28)));

    let s = CreateState::start().step(Event::AlreadyExists).step(Event::AlreadyExists);
    assert!(!s.is_done());
}

/// Key derivation and both open paths surface their errors too.
#[test]
fn open_errors_surface() {
    let s = CreateState::start().step(Event::Succeeded).step(Event::Succeeded);
    let failed_key = s.step(Event::Failed(2));
    assert_eq!(failed_key.error(), Some(CreateError::Os(2)));

    let at_create = CreateState::start()
        .step(Event::Succeeded)
        .step(Event::Succeeded)
        .step(Event::Identifier(42));
    let failed_create = at_create.step(Event::Failed(28));
    assert_eq!(failed_create.error(), Some(CreateError::Os(28)));

    let failed_attach = at_create.step(Event::AlreadyExists).step(Event::Failed(43));
    assert_eq!(failed_attach.error(), Some(CreateError::Os(43)));
}

/// A failure while polling the stamp surfaces its raw error, like every
/// other operating-system failure during creation.
#[test]
fn poll_error_surfaces() {
    let s = CreateState::start()
        .step(Event::Succeeded)
        .step(Event::Succeeded)
        .step(Event::Identifier(42))
        .step(Event::AlreadyExists)
        .step(Event::Identifier(9))
        .step(Event::Stamp(0))
        .step(Event::Failed(4));
    assert_eq!(s.error(), Some(CreateError::Os(4)));
}

/// Once the counter already exists, the requested count is ignored: the
/// loser's actions are the same whatever count it asked for.
#[test]
fn joiner_ignores_count() {
    let events = [
        Event::Succeeded,
        Event::Succeeded,
        Event::Identifier(42),
        Event::AlreadyExists,
        Event::Identifier(9),
        Event::Stamp(0),
        Event::Stamp(0),
        Event::Stamp(77),
    ];
    let mut with_one = CreateState::start();
    let mut with_many = CreateState::start();
    for ev in events {
        if !with_one.is_done() {
            assert_eq!(with_one.action(1), with_many.action(30000));
            with_one = with_one.step(ev);
            with_many = with_many.step(ev);
        }
    }
    assert_eq!(with_one.semid(), Some(9));
    assert_eq!(with_many.semid(), Some(9));
}

/// The exclusive-creation flag word is the documented one.
#[test]
fn exclusive_create_flags() {
    assert_eq!(excl_create_flags(), 0o3666);
}

//! The counting-semaphore model: guards, exclusion, and the handshake
//! ordering.

use ipc::counter::Counter;

/// Acquiring through a guard and releasing it restores the semaphore, so
/// the next non-blocking attempt succeeds.
#[test]
fn guard_round_trip() {
    let mut sem = Counter::new(1);
    let guard = sem.access();
    guard.release(&mut sem);
    let again = sem.try_access();
    assert!(again.is_some());
    again.unwrap().release(&mut sem);
}

/// While the single unit is held, no further attempt obtains one — and
/// releasing the guard is exactly what lets the next attempt succeed.
#[test]
fn exclusion_while_guard_held() {
    let mut sem = Counter::new(1);
    let guard = sem.access();
    assert!(sem.try_access().is_none());
    assert!(!sem.try_acquire());
    guard.release(&mut sem);
    let second = sem.try_access();
    assert!(second.is_some());
    second.unwrap().release(&mut sem);
}

/// Manual acquire and release move the count one unit at a time.
#[test]
fn acquire_release_by_hand() {
    let mut sem = Counter::new(2);
    sem.acquire();
    sem.acquire();
    assert!(!sem.try_acquire());
    sem.release();
    assert!(sem.try_acquire());
    sem.release();
    sem.release();
}

/// The backend-level names behave the same way.
#[test]
fn wait_try_wait_post() {
    let mut sem = Counter::new(0);
    assert!(!sem.try_wait());
    sem.post();
    assert!(sem.try_wait());
    sem.post();
    sem.wait();
    assert!(!sem.try_wait());
}

/// The handshake ordering, replayed on the shared-counter model: the
/// waiter can take from the second semaphore only after the releaser has
/// given, and the releaser can take from the first only after the waiter
/// let go of it.
#[test]
fn handshake_ordering() {
    let mut foo1 = Counter::new(1);
    let mut foo2 = Counter::new(0);

    // First process: take the only unit of foo1, then wait on foo2.
    let g1 = foo1.access();
    assert!(!foo2.try_acquire());  // nothing given yet: the wait cannot end

    // Second process: give foo2, then try for foo1.
    foo2.release();
    assert!(!foo1.try_acquire());  // the first still holds foo1's unit

    // First process: its wait on foo2 can now complete, and it lets foo1 go.
    foo2.acquire();
    g1.release(&mut foo1);

    // Second process: only now does its take of foo1 succeed.
    assert!(foo1.try_acquire());
}

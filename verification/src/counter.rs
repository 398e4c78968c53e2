//! The counting-semaphore model that every platform backend realizes.
//!
//! The kernel counter is the one piece of shared state in the whole
//! design: wait decrements it (blocking at zero), try-wait decrements or
//! reports "not available", post increments it.  [`Counter`] is that
//! counter, with those semantics, as a verified value; the laws at the
//! bottom of this module are proved over it.  A handle returned by a
//! platform shim stands for one such counter held by the kernel, and the
//! shim's steady-state decisions (see [`crate::ops`]) keep its behaviour
//! to this model.
//!
//! [`Guard`] ties one acquired unit to a scope: only a successful acquire
//! creates one, and giving it back through [`Guard::release`] consumes it,
//! so one guard can release at most one unit.  The guard cannot force the
//! caller to release it — that is the calling convention's side of the
//! bargain — but it makes a double release impossible to write.

use vstd::prelude::*;

use crate::protocol::MAX_COUNT;

verus! {

/// What one obtained unit does to the count.
pub open spec fn spec_acquired(n: int) -> int {
    n - 1
}

/// What one returned unit does to the count.
pub open spec fn spec_released(n: int) -> int {
    n + 1
}

/// Whether a non-blocking attempt obtains a unit at this count.
pub open spec fn spec_try_obtains(n: int) -> bool {
    n > 0
}

/// A counting semaphore: the model of one kernel counter.
pub struct Counter {
    value: u16,
}

/// One unit currently held, tied to the scope that acquired it.  Only a
/// successful acquire creates a guard, and releasing consumes it.
#[must_use]
pub struct Guard {
    held: (),
}

impl Counter {
    /// The number of units currently available.
    pub closed spec fn count(self) -> int {
        self.value as int
    }

    /// A fresh counter with `initial` units — the race winner's view of
    /// the kernel object after initialization.  The count cannot exceed
    /// the kernel's slot bound [`MAX_COUNT`].
    pub fn new(initial: u16) -> (c: Counter)
        requires
            initial <= MAX_COUNT,
        ensures
            c.count() == initial,
    {
        Counter { value: initial }
    }

    /// Take one unit; the caller blocks until one is available, so the
    /// wait completes exactly in a state with a positive count.
    pub fn wait(&mut self)
        requires
            old(self).count() > 0,
        ensures
            final(self).count() == spec_acquired(old(self).count()),
    {
        self.value = self.value - 1;
    }

    /// Take one unit if one is available, without blocking; reports
    /// whether a unit was obtained.
    pub fn try_wait(&mut self) -> (ok: bool)
        ensures
            ok == spec_try_obtains(old(self).count()),
            final(self).count() == (if spec_try_obtains(old(self).count()) {
                spec_acquired(old(self).count())
            } else {
                old(self).count()
            }),
    {
        if self.value > 0 {
            self.value = self.value - 1;
            true
        } else {
            false
        }
    }

    /// Return one unit.  The count cannot pass the kernel's slot bound.
    pub fn post(&mut self)
        requires
            old(self).count() < MAX_COUNT,
        ensures
            final(self).count() == spec_released(old(self).count()),
    {
        self.value = self.value + 1;
    }

    /// Acquire a unit (the handle-level name for [`Counter::wait`]).
    pub fn acquire(&mut self)
        requires
            old(self).count() > 0,
        ensures
            final(self).count() == spec_acquired(old(self).count()),
    {
        self.wait()
    }

    /// Try to acquire a unit without blocking.
    pub fn try_acquire(&mut self) -> (ok: bool)
        ensures
            ok == spec_try_obtains(old(self).count()),
            final(self).count() == (if spec_try_obtains(old(self).count()) {
                spec_acquired(old(self).count())
            } else {
                old(self).count()
            }),
    {
        self.try_wait()
    }

    /// Release a unit, waking one blocked waiter if any.
    pub fn release(&mut self)
        requires
            old(self).count() < MAX_COUNT,
        ensures
            final(self).count() == spec_released(old(self).count()),
    {
        self.post()
    }

    /// Acquire a unit and tie it to a guard.
    pub fn access(&mut self) -> (g: Guard)
        requires
            old(self).count() > 0,
        ensures
            final(self).count() == spec_acquired(old(self).count()),
    {
        self.acquire();
        Guard { held: () }
    }

    /// Try to acquire a unit and tie it to a guard; no guard is handed
    /// out when no unit was obtained.
    pub fn try_access(&mut self) -> (g: Option<Guard>)
        ensures
            g is Some == spec_try_obtains(old(self).count()),
            final(self).count() == (if spec_try_obtains(old(self).count()) {
                spec_acquired(old(self).count())
            } else {
                old(self).count()
            }),
    {
        if self.try_acquire() {
            Some(Guard { held: () })
        } else {
            None
        }
    }
}

impl Guard {
    /// Give the held unit back.  The guard is consumed: releasing twice
    /// through one guard does not compile.
    pub fn release(self, sem: &mut Counter)
        requires
            old(sem).count() < MAX_COUNT,
        ensures
            final(sem).count() == spec_released(old(sem).count()),
    {
        sem.post()
    }
}

/// Acquiring through a guard and releasing it restores the count exactly,
/// so a following non-blocking attempt obtains a unit again.
pub proof fn lemma_guard_round_trip(n: int)
    requires
        0 < n <= MAX_COUNT,
    ensures
        spec_released(spec_acquired(n)) == n,
        spec_try_obtains(spec_released(spec_acquired(n))),
{
}

/// While the only unit of a one-unit semaphore is held, no other attempt
/// obtains one: any further non-blocking acquire — from this handle or
/// any other handle to the same counter — reports failure.
pub proof fn lemma_exclusive_while_held()
    ensures
        !spec_try_obtains(spec_acquired(1)),
{
}

/// Releasing a unit into a drained semaphore is exactly what lets the
/// next attempt succeed.
pub proof fn lemma_release_enables(n: int)
    requires
        n >= 0,
    ensures
        spec_try_obtains(spec_released(n)),
        !spec_try_obtains(0),
{
}

/// One operation at the shared counter, as the kernel interleaves them
/// across processes.
#[derive(Clone, Copy, Debug, PartialEq, Eq, Structural)]
pub enum SemOp {
    /// A blocking wait completing (it can only complete with a unit
    /// available).
    Take,
    /// A non-blocking wait, succeeding or not.
    TryTake,
    /// A post.
    Give,
}

/// The count after an interleaving of operations.
pub open spec fn spec_count_after(n: int, t: Seq<SemOp>) -> int
    decreases t.len(),
{
    if t.len() == 0 {
        n
    } else {
        let m = match t[0] {
            SemOp::Take => n - 1,
            SemOp::TryTake => if n > 0 {
                n - 1
            } else {
                n
            },
            SemOp::Give => n + 1,
        };
        spec_count_after(m, t.drop_first())
    }
}

/// Whether the kernel can produce this interleaving from count `n`: a
/// blocking wait completes only in a state with a unit available.
pub open spec fn spec_feasible_trace(n: int, t: Seq<SemOp>) -> bool
    decreases t.len(),
{
    t.len() == 0 || ({
        let ok = match t[0] {
            SemOp::Take => n > 0,
            _ => true,
        };
        let m = match t[0] {
            SemOp::Take => n - 1,
            SemOp::TryTake => if n > 0 {
                n - 1
            } else {
                n
            },
            SemOp::Give => n + 1,
        };
        ok && spec_feasible_trace(m, t.drop_first())
    })
}

/// The counter never goes negative: in any interleaving the kernel can
/// produce, blocking waits complete only against available units, and
/// the non-blocking ones refuse at zero.
pub proof fn lemma_count_never_negative(n: int, t: Seq<SemOp>)
    requires
        n >= 0,
        spec_feasible_trace(n, t),
    ensures
        spec_count_after(n, t) >= 0,
    decreases t.len(),
{
    if t.len() > 0 {
        let m = match t[0] {
            SemOp::Take => n - 1,
            SemOp::TryTake => if n > 0 {
                n - 1
            } else {
                n
            },
            SemOp::Give => n + 1,
        };
        lemma_count_never_negative(m, t.drop_first());
    }
}

/// Causality at a drained semaphore: in any interleaving the kernel can
/// produce from count zero, a completed blocking wait has a post strictly
/// before it.  This is the ordering half of a two-process handshake: the
/// waiter's acquire cannot return before the releaser's post has
/// happened.
pub proof fn lemma_take_needs_prior_give(t: Seq<SemOp>, i: int)
    requires
        spec_feasible_trace(0, t),
        0 <= i < t.len(),
        t[i] is Take,
    ensures
        exists|j: int| 0 <= j < i && t[j] is Give,
    decreases i,
{
    if i == 0 {
        assert(false);
    } else {
        match t[0] {
            SemOp::Give => {
                assert(0 <= 0 < i && t[0] is Give);
            },
            SemOp::Take => {
                assert(false);
            },
            SemOp::TryTake => {
                let rest = t.drop_first();
                assert(t[i] == rest[i - 1]);
                lemma_take_needs_prior_give(rest, i - 1);
                let j = choose|j: int| 0 <= j < i - 1 && rest[j] is Give;
                assert(t[j + 1] == rest[j]);
                assert(0 <= j + 1 < i && t[j + 1] is Give);
            },
        }
    }
}

} // verus!

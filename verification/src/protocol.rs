//! The create-or-attach protocol for a multi-step kernel counter.
//!
//! A System-V-style counter cannot be created and initialized in one atomic
//! kernel call.  Whoever wins the exclusive creation must set the counter's
//! value and then perform one counter *operation*, because the kernel's
//! "last operation time" field is the only externally visible sign that
//! initialization finished.  Every loser of the race re-opens the existing
//! counter and polls that field, a bounded number of times, until it turns
//! non-zero.
//!
//! The whole procedure — ensuring the marker file for the key exists,
//! deriving the key, and then the creation race — is expressed here as a
//! state machine.  [`CreateState::action`] says which kernel request the
//! current state calls for, and [`CreateState::step`] consumes the observed
//! [`Event`] and moves to the next state.  A platform shim drives the
//! machine: it performs each action, classifies the raw result into an
//! event, and feeds it back.  Every decision the shim could get wrong is
//! made here instead, under a contract.

use vstd::prelude::*;

use crate::CreateError;

verus! {

/// How many times a joiner inspects the "last operation time" field before
/// giving up on the initializer.
pub const POLL_LIMIT: u32 = 1000;

/// Largest value a System-V counter slot can hold (`SEMVMX`), and therefore
/// the largest initial count the protocol accepts.
pub const MAX_COUNT: u16 = 32767;

/// Exclusive-creation flag of the key-based counter facility (`IPC_CREAT`).
pub const IPC_CREAT: i32 = 0o1000;

/// Fail-if-it-exists flag of the key-based counter facility (`IPC_EXCL`).
pub const IPC_EXCL: i32 = 0o2000;

/// Permission bits the counter is created with: read and alter for everyone.
pub const CREATE_MODE: i32 = 0o666;

/// What the observed outcome of one kernel request was, as classified by
/// the shim that performed it.
///
/// The shim maps a raw return value and error number to exactly one of
/// these: a clean success, the documented "it already exists" condition, a
/// returned identifier, the polled time stamp, or any other error with its
/// raw error number.
#[derive(Clone, Copy, Debug, PartialEq, Eq, Structural)]
pub enum Event {
    /// The request succeeded and returned nothing of interest.
    Succeeded,
    /// The object to be created exclusively was already there.
    AlreadyExists,
    /// The request succeeded and returned this identifier
    /// (a derived key or a counter id, never negative for a counter id).
    Identifier(i32),
    /// The polled "last operation time" field held this value.
    Stamp(i64),
    /// The request failed with this raw operating-system error number.
    Failed(i32),
}

/// The kernel request that the current state of the protocol calls for.
#[derive(Clone, Copy, Debug, PartialEq, Eq, Structural)]
pub enum Action {
    /// Create the dedicated subdirectory for marker files; an existing
    /// directory is as good as a fresh one.
    MakeDir,
    /// Exclusively create the zero-length marker file; an existing file is
    /// as good as a fresh one.
    MakeFile,
    /// Derive the integer key from the marker file.
    DeriveKey,
    /// Exclusively create a one-slot counter under the key.
    GetExcl { key: i32 },
    /// Open the counter that somebody else already created under the key.
    GetExisting { key: i32 },
    /// Set the counter's single slot to this value through a control call.
    SetValue { semid: i32, value: u16 },
    /// Perform an increment *operation* of this size on the slot, so that
    /// the kernel records an operation time.
    Operate { semid: i32, delta: u16 },
    /// Destroy the counter; used to roll back a half-initialized one.
    Remove { semid: i32 },
    /// Read the counter's "last operation time" field.
    ReadStamp { semid: i32 },
    /// Nothing: the protocol has finished.
    Idle,
}

/// One state of the create-or-attach protocol.
///
/// The flow is: `EnsureDir` → `EnsureFile` → `DeriveKey` → `ExclCreate`,
/// which forks.  The winner of the race goes `SetInitial` → `BumpStamp` →
/// `Ready`, rolling back through `Unwind` if either initialization call
/// fails.  A loser goes `Attach` → `AwaitInit` (at most [`POLL_LIMIT`]
/// polls) → `Ready`.  Any unexpected operating-system error leads to
/// `Failed`.
#[derive(Clone, Copy, Debug, PartialEq, Eq, Structural)]
pub enum CreateState {
    /// Make sure the subdirectory for marker files exists.
    EnsureDir,
    /// Make sure the zero-length marker file exists.
    EnsureFile,
    /// Turn the marker file into an integer key.
    DeriveKey,
    /// Race for exclusive creation of the counter under `key`.
    ExclCreate { key: i32 },
    /// Won the race: set the slot of counter `semid` to the initial count.
    SetInitial { semid: i32 },
    /// Value is set: operate on counter `semid` once so the kernel records
    /// an operation time.
    BumpStamp { semid: i32 },
    /// Initialization failed with `errno`: destroy counter `semid`, then
    /// report the saved error.
    Unwind { semid: i32, errno: i32 },
    /// Lost the race: open the existing counter under `key`.
    Attach { key: i32 },
    /// Attached to counter `semid` which may not be initialized yet; poll
    /// its operation time at most `polls_left` more times.
    AwaitInit { semid: i32, polls_left: u32 },
    /// The protocol finished: `semid` names a created-and-initialized, or
    /// attached-and-observed-initialized, counter.
    Ready { semid: i32 },
    /// The protocol finished without a counter.
    Failed { error: CreateError },
}

/// Which events a state can observe, given how the shim classifies the
/// result of that state's action.
pub open spec fn admits(s: CreateState, ev: Event) -> bool {
    match s {
        CreateState::EnsureDir => ev is Succeeded || ev is AlreadyExists || ev is Failed,
        CreateState::EnsureFile => ev is Succeeded || ev is AlreadyExists || ev is Failed,
        CreateState::DeriveKey => ev is Identifier || ev is Failed,
        CreateState::ExclCreate { .. } => (match ev {
            Event::Identifier(id) => id >= 0,
            Event::AlreadyExists => true,
            Event::Failed(_) => true,
            _ => false,
        }),
        CreateState::SetInitial { .. } => ev is Succeeded || ev is Failed,
        CreateState::BumpStamp { .. } => ev is Succeeded || ev is Failed,
        CreateState::Unwind { .. } => ev is Succeeded || ev is Failed,
        CreateState::Attach { .. } => (match ev {
            Event::Identifier(id) => id >= 0,
            Event::Failed(_) => true,
            _ => false,
        }),
        CreateState::AwaitInit { .. } => ev is Stamp || ev is Failed,
        CreateState::Ready { .. } => false,
        CreateState::Failed { .. } => false,
    }
}

/// The transition relation of the protocol, as a function.
pub open spec fn spec_step(s: CreateState, ev: Event) -> CreateState {
    match s {
        CreateState::EnsureDir => (match ev {
            Event::Failed(e) => CreateState::Failed { error: CreateError::Os(e) },
            _ => CreateState::EnsureFile,
        }),
        CreateState::EnsureFile => (match ev {
            Event::Failed(e) => CreateState::Failed { error: CreateError::Os(e) },
            _ => CreateState::DeriveKey,
        }),
        CreateState::DeriveKey => (match ev {
            Event::Identifier(key) => CreateState::ExclCreate { key },
            Event::Failed(e) => CreateState::Failed { error: CreateError::Os(e) },
            _ => s,
        }),
        CreateState::ExclCreate { key } => (match ev {
            Event::Identifier(id) => CreateState::SetInitial { semid: id },
            Event::AlreadyExists => CreateState::Attach { key },
            Event::Failed(e) => CreateState::Failed { error: CreateError::Os(e) },
            _ => s,
        }),
        CreateState::SetInitial { semid } => (match ev {
            Event::Succeeded => CreateState::BumpStamp { semid },
            Event::Failed(e) => CreateState::Unwind { semid, errno: e },
            _ => s,
        }),
        CreateState::BumpStamp { semid } => (match ev {
            Event::Succeeded => CreateState::Ready { semid },
            Event::Failed(e) => CreateState::Unwind { semid, errno: e },
            _ => s,
        }),
        CreateState::Unwind { semid: _, errno } => CreateState::Failed {
            error: CreateError::Os(errno),
        },
        CreateState::Attach { key: _ } => (match ev {
            Event::Identifier(id) => CreateState::AwaitInit { semid: id, polls_left: POLL_LIMIT },
            Event::Failed(e) => CreateState::Failed { error: CreateError::Os(e) },
            _ => s,
        }),
        CreateState::AwaitInit { semid, polls_left } => (match ev {
            Event::Stamp(t) => if t != 0 {
                CreateState::Ready { semid }
            } else if polls_left > 1 {
                CreateState::AwaitInit { semid, polls_left: (polls_left - 1) as u32 }
            } else {
                CreateState::Failed { error: CreateError::TimedOut }
            },
            Event::Failed(e) => CreateState::Failed { error: CreateError::Os(e) },
            _ => s,
        }),
        CreateState::Ready { .. } => s,
        CreateState::Failed { .. } => s,
    }
}

/// The action that a state calls for.  `cnt` is the requested initial
/// count; only the race winner's bump uses it.
pub open spec fn spec_action(s: CreateState, cnt: u16) -> Action {
    match s {
        CreateState::EnsureDir => Action::MakeDir,
        CreateState::EnsureFile => Action::MakeFile,
        CreateState::DeriveKey => Action::DeriveKey,
        CreateState::ExclCreate { key } => Action::GetExcl { key },
        CreateState::SetInitial { semid } => Action::SetValue { semid, value: 0 },
        CreateState::BumpStamp { semid } => Action::Operate { semid, delta: cnt },
        CreateState::Unwind { semid, errno: _ } => Action::Remove { semid },
        CreateState::Attach { key } => Action::GetExisting { key },
        CreateState::AwaitInit { semid, polls_left: _ } => Action::ReadStamp { semid },
        CreateState::Ready { .. } => Action::Idle,
        CreateState::Failed { .. } => Action::Idle,
    }
}

/// States in which the protocol has stopped.
pub open spec fn spec_done(s: CreateState) -> bool {
    s is Ready || s is Failed
}

/// Internal consistency: a poll counter is positive and never above the
/// bound, and every counter id the protocol holds came from the kernel, so
/// it is non-negative.
pub open spec fn wf(s: CreateState) -> bool {
    match s {
        CreateState::AwaitInit { semid, polls_left } => semid >= 0 && 1 <= polls_left
            <= POLL_LIMIT,
        CreateState::SetInitial { semid } => semid >= 0,
        CreateState::BumpStamp { semid } => semid >= 0,
        CreateState::Ready { semid } => semid >= 0,
        _ => true,
    }
}

/// An upper bound on how many more steps the protocol can take; it shrinks
/// at every step, so the whole procedure — including the joiner's poll
/// loop — is bounded.
pub open spec fn fuel(s: CreateState) -> nat {
    match s {
        CreateState::EnsureDir => (POLL_LIMIT + 7) as nat,
        CreateState::EnsureFile => (POLL_LIMIT + 6) as nat,
        CreateState::DeriveKey => (POLL_LIMIT + 5) as nat,
        CreateState::ExclCreate { .. } => (POLL_LIMIT + 4) as nat,
        CreateState::Attach { .. } => (POLL_LIMIT + 3) as nat,
        CreateState::AwaitInit { polls_left, .. } => (polls_left + 1) as nat,
        CreateState::SetInitial { .. } => 3,
        CreateState::BumpStamp { .. } => 2,
        CreateState::Unwind { .. } => 1,
        CreateState::Ready { .. } => 0,
        CreateState::Failed { .. } => 0,
    }
}

/// The flag word for the exclusive-creation request: create, fail if it
/// already exists, read-and-alter permission for everyone.
pub fn excl_create_flags() -> (f: i32)
    ensures
        f == IPC_CREAT | IPC_EXCL | CREATE_MODE,
        f == 0o3666,
{
    assert((0o1000 as i32) | (0o2000 as i32) | (0o666 as i32) == 0o3666) by (bit_vector);
    IPC_CREAT | IPC_EXCL | CREATE_MODE
}

/// States on the attach side of the fork — everything a process can be in
/// once it has lost the creation race — together with the stopped states.
pub open spec fn joiner_side(s: CreateState) -> bool {
    s is Attach || s is AwaitInit || spec_done(s)
}

/// The state after consuming a whole sequence of events.
pub open spec fn spec_run(s: CreateState, evs: Seq<Event>) -> CreateState
    decreases evs.len(),
{
    if evs.len() == 0 {
        s
    } else {
        spec_run(spec_step(s, evs[0]), evs.drop_first())
    }
}

/// Every action the protocol asks for along a run: the current state's
/// action, then those of the states the events lead through.
pub open spec fn spec_actions(s: CreateState, evs: Seq<Event>, cnt: u16) -> Seq<Action>
    decreases evs.len(),
{
    if evs.len() == 0 {
        seq![spec_action(s, cnt)]
    } else {
        seq![spec_action(s, cnt)] + spec_actions(spec_step(s, evs[0]), evs.drop_first(), cnt)
    }
}

/// A sequence of events that the protocol can actually observe from `s`:
/// each one is admitted by the state it arrives in, and none arrives after
/// the protocol has stopped.
pub open spec fn feasible(s: CreateState, evs: Seq<Event>) -> bool
    decreases evs.len(),
{
    evs.len() == 0 || (!spec_done(s) && admits(s, evs[0]) && feasible(
        spec_step(s, evs[0]),
        evs.drop_first(),
    ))
}

/// A run is its first part followed by its last event.
pub proof fn lemma_run_snoc(s: CreateState, evs: Seq<Event>)
    requires
        evs.len() > 0,
    ensures
        spec_run(s, evs) == spec_step(
            spec_run(s, evs.take(evs.len() - 1)),
            evs[evs.len() - 1],
        ),
    decreases evs.len(),
{
    if evs.len() == 1 {
        assert(evs.take(0) =~= Seq::<Event>::empty());
        assert(evs.drop_first().len() == 0);
    } else {
        lemma_run_snoc(spec_step(s, evs[0]), evs.drop_first());
        assert(evs.drop_first().take(evs.len() - 2) =~= evs.take(evs.len() - 1).drop_first());
        assert(evs.drop_first()[evs.len() - 2] == evs[evs.len() - 1]);
        assert(evs.take(evs.len() - 1)[0] == evs[0]);
    }
}

/// While a feasible run still has events left, the protocol has not
/// stopped, and the next event is one its state admits.
pub proof fn lemma_feasible_midway(s: CreateState, evs: Seq<Event>, k: int)
    requires
        feasible(s, evs),
        0 <= k < evs.len(),
    ensures
        !spec_done(spec_run(s, evs.take(k))),
        admits(spec_run(s, evs.take(k)), evs[k]),
    decreases k,
{
    if k == 0 {
        assert(evs.take(0) =~= Seq::<Event>::empty());
    } else {
        lemma_feasible_midway(spec_step(s, evs[0]), evs.drop_first(), k - 1);
        assert(evs.drop_first().take(k - 1) =~= evs.take(k).drop_first());
        assert(evs.drop_first()[k - 1] == evs[k]);
        assert(evs.take(k)[0] == evs[0]);
    }
}

/// At position `j` of the run, the protocol saw initialization finish
/// for counter `id`: either its own bump succeeded, or the polled stamp
/// was non-zero.
pub open spec fn init_evidence_at(s: CreateState, evs: Seq<Event>, j: int, id: i32) -> bool {
    let prev = spec_run(s, evs.take(j));
    ||| (prev == (CreateState::BumpStamp { semid: id }) && evs[j] is Succeeded)
    ||| ((exists|n: u32| prev == (CreateState::AwaitInit { semid: id, polls_left: n }))
        && (evs[j] matches Event::Stamp(t) && t != 0))
}

/// The protocol hands a counter out only with initialization evidence:
/// a feasible run ends `Ready` only when the race winner's own bump
/// succeeded, or when the joiner observed a non-zero operation time —
/// the one externally visible sign that some initializer finished.
pub proof fn lemma_ready_needs_initialization(s: CreateState, evs: Seq<Event>, id: i32)
    requires
        feasible(s, evs),
        !spec_done(s),
        spec_run(s, evs) == (CreateState::Ready { semid: id }),
    ensures
        exists|j: int| 0 <= j < evs.len() && #[trigger] init_evidence_at(s, evs, j, id),
{
    assert(evs.len() > 0);
    let k = evs.len() - 1;
    lemma_run_snoc(s, evs);
    lemma_feasible_midway(s, evs, k as int);
    let prev = spec_run(s, evs.take(k as int));
    assert(init_evidence_at(s, evs, k as int, id)) by {
        match prev {
            CreateState::AwaitInit { semid, polls_left } => {
                assert(prev == (CreateState::AwaitInit { semid, polls_left }));
            },
            _ => {},
        }
    }
}

/// One admitted step keeps the protocol consistent and burns fuel.
pub proof fn lemma_step_preserves(s: CreateState, ev: Event)
    requires
        wf(s),
        !spec_done(s),
        admits(s, ev),
    ensures
        wf(spec_step(s, ev)),
        fuel(spec_step(s, ev)) < fuel(s),
{
}

/// The protocol is bounded: no feasible run from a consistent state is
/// longer than the state's fuel.  In particular the joiner's poll loop —
/// the only busy-wait in the system — cannot run past [`POLL_LIMIT`], and
/// the whole creation procedure stops after finitely many kernel requests.
pub proof fn lemma_protocol_bounded(s: CreateState, evs: Seq<Event>)
    requires
        wf(s),
        feasible(s, evs),
    ensures
        evs.len() <= fuel(s),
    decreases evs.len(),
{
    if evs.len() > 0 {
        lemma_step_preserves(s, evs[0]);
        lemma_protocol_bounded(spec_step(s, evs[0]), evs.drop_first());
    }
}

/// Losing the race makes the requested initial count irrelevant: every
/// event moves an attach-side state to an attach-side state.
pub proof fn lemma_joiner_side_closed(s: CreateState, ev: Event)
    requires
        joiner_side(s),
    ensures
        joiner_side(spec_step(s, ev)),
{
}

/// On the attach side the requested initial count has no effect: a process
/// that found the counter already in place asks the kernel for exactly the
/// same requests, whatever count it wanted, so only the race winner's
/// count ever reaches the counter.
pub proof fn lemma_joiner_ignores_count(s: CreateState, evs: Seq<Event>, c1: u16, c2: u16)
    requires
        joiner_side(s),
    ensures
        spec_actions(s, evs, c1) == spec_actions(s, evs, c2),
    decreases evs.len(),
{
    if evs.len() > 0 {
        lemma_joiner_side_closed(s, evs[0]);
        lemma_joiner_ignores_count(spec_step(s, evs[0]), evs.drop_first(), c1, c2);
    }
}

impl CreateState {
    /// Where every creation begins.
    pub fn start() -> (s: CreateState)
        ensures
            s == CreateState::EnsureDir,
            wf(s),
    {
        CreateState::EnsureDir
    }

    /// Whether the protocol has stopped, in a `Ready` or `Failed` state.
    pub fn is_done(&self) -> (r: bool)
        ensures
            r == spec_done(*self),
    {
        matches!(self, CreateState::Ready { .. } | CreateState::Failed { .. })
    }

    /// The counter id, once the protocol is `Ready`.
    pub fn semid(&self) -> (r: Option<i32>)
        ensures
            r == (match *self {
                CreateState::Ready { semid } => Some(semid),
                _ => None::<i32>,
            }),
    {
        match self {
            CreateState::Ready { semid } => Some(*semid),
            _ => None,
        }
    }

    /// The error, once the protocol has `Failed`.
    pub fn error(&self) -> (r: Option<CreateError>)
        ensures
            r == (match *self {
                CreateState::Failed { error } => Some(error),
                _ => None::<CreateError>,
            }),
    {
        match self {
            CreateState::Failed { error } => Some(*error),
            _ => None,
        }
    }

    /// The kernel request this state calls for; `cnt` is the initial count
    /// the caller asked for.
    pub fn action(&self, cnt: u16) -> (a: Action)
        requires
            cnt <= MAX_COUNT,
        ensures
            a == spec_action(*self, cnt),
    {
        match self {
            CreateState::EnsureDir => Action::MakeDir,
            CreateState::EnsureFile => Action::MakeFile,
            CreateState::DeriveKey => Action::DeriveKey,
            CreateState::ExclCreate { key } => Action::GetExcl { key: *key },
            CreateState::SetInitial { semid } => Action::SetValue { semid: *semid, value: 0 },
            CreateState::BumpStamp { semid } => Action::Operate { semid: *semid, delta: cnt },
            CreateState::Unwind { semid, errno: _ } => Action::Remove { semid: *semid },
            CreateState::Attach { key } => Action::GetExisting { key: *key },
            CreateState::AwaitInit { semid, polls_left: _ } => Action::ReadStamp { semid: *semid },
            CreateState::Ready { .. } => Action::Idle,
            CreateState::Failed { .. } => Action::Idle,
        }
    }

    /// Consume the observed outcome of this state's action and move on.
    pub fn step(self, ev: Event) -> (next: CreateState)
        requires
            !spec_done(self),
            admits(self, ev),
            wf(self),
        ensures
            next == spec_step(self, ev),
            wf(next),
            fuel(next) < fuel(self),
    {
        match self {
            CreateState::EnsureDir => match ev {
                Event::Failed(e) => CreateState::Failed { error: CreateError::Os(e) },
                _ => CreateState::EnsureFile,
            },
            CreateState::EnsureFile => match ev {
                Event::Failed(e) => CreateState::Failed { error: CreateError::Os(e) },
                _ => CreateState::DeriveKey,
            },
            CreateState::DeriveKey => match ev {
                Event::Identifier(key) => CreateState::ExclCreate { key },
                Event::Failed(e) => CreateState::Failed { error: CreateError::Os(e) },
                _ => self,
            },
            CreateState::ExclCreate { key } => match ev {
                Event::Identifier(id) => CreateState::SetInitial { semid: id },
                Event::AlreadyExists => CreateState::Attach { key },
                Event::Failed(e) => CreateState::Failed { error: CreateError::Os(e) },
                _ => self,
            },
            CreateState::SetInitial { semid } => match ev {
                Event::Succeeded => CreateState::BumpStamp { semid },
                Event::Failed(e) => CreateState::Unwind { semid, errno: e },
                _ => self,
            },
            CreateState::BumpStamp { semid } => match ev {
                Event::Succeeded => CreateState::Ready { semid },
                Event::Failed(e) => CreateState::Unwind { semid, errno: e },
                _ => self,
            },
            CreateState::Unwind { semid: _, errno } => CreateState::Failed {
                error: CreateError::Os(errno),
            },
            CreateState::Attach { key: _ } => match ev {
                Event::Identifier(id) => CreateState::AwaitInit {
                    semid: id,
                    polls_left: POLL_LIMIT,
                },
                Event::Failed(e) => CreateState::Failed { error: CreateError::Os(e) },
                _ => self,
            },
            CreateState::AwaitInit { semid, polls_left } => match ev {
                Event::Stamp(t) => if t != 0 {
                    CreateState::Ready { semid }
                } else if polls_left > 1 {
                    CreateState::AwaitInit { semid, polls_left: polls_left - 1 }
                } else {
                    CreateState::Failed { error: CreateError::TimedOut }
                },
                Event::Failed(e) => CreateState::Failed { error: CreateError::Os(e) },
                _ => self,
            },
            CreateState::Ready { .. } => self,
            CreateState::Failed { .. } => self,
        }
    }
}

} // verus!

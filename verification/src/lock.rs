use vstd::prelude::*;
use vstd::string::StringExecFns;

use crate::client::Acquisition;
use crate::client::MockableLockClient;
use crate::client::Presence;
use crate::client::TransportError;
use crate::heartbeat::Heartbeat;
use crate::heartbeat::HeartbeatView;
use crate::heartbeat::started;
use crate::heartbeat::stopped;

verus! {

/// Base address of the remote lock service when none is given.
pub const DEFAULT_BASE_URI: &'static str = "http://localhost:8080";

/// Retry budget of [`Lock::lock_with_retry`].
pub const DEFAULT_RETRY_ATTEMPTS: u64 = 10;

/// The remote operation that a transport failure interrupted: the presence
/// check (`get_lock`) or the acquire-or-renew write (`put_lock`).
#[derive(Clone, Copy, Debug, PartialEq, Eq, Structural)]
pub enum LockOp {
    Get,
    Put,
}

/// How an acquisition entry point ended.
///
/// `Acquired` means the lock was taken and the caller's action ran;
/// `Exhausted` means every attempt hit a conflict and the retry budget ran
/// out after `waits` wait rounds (not an error); `TransportFailed` means a
/// remote call could not complete, naming the operation that failed.
#[derive(Clone, Copy, Debug, PartialEq, Eq, Structural)]
pub enum LockOutcome {
    Acquired,
    Exhausted { waits: u64 },
    TransportFailed { op: LockOp },
}

/// What one acquisition attempt decides: enter the `Held` state, wait and
/// retry, give up by exhaustion, or abort on a transport failure.
#[derive(Clone, Copy, Debug, PartialEq, Eq, Structural)]
pub enum AttemptDecision {
    Hold,
    Wait,
    GiveUp,
    Fail { op: LockOp },
}

/// What one tick of the holding heartbeat did: renewed the lease, found the
/// lease gone and released the local state, or skipped the tick because the
/// presence check could not complete.
#[derive(Clone, Copy, Debug, PartialEq, Eq, Structural)]
pub enum HoldStep {
    Renewed,
    Lost,
    Skipped,
}

/// A zero-argument action supplied by the embedding application: the
/// critical section run while a lock is held, or the leader and follower
/// behaviour of an election.
///
/// `invocations` is the abstract count of completed runs; the only demand
/// on an implementation is that `invoke` counts each call. Errors inside an
/// action are the action's own concern: `invoke` returns normally and the
/// surrounding machinery neither observes nor propagates them.
pub trait Action {
    /// How many times the action has run. An implementation verified
    /// against this crate overrides the count with a function of its own
    /// state; an unverified one may leave the default in place, counting
    /// for itself at run time.
    open spec fn invocations(&self) -> nat {
        0
    }

    /// Run the action once.
    fn invoke(&mut self)
        ensures
            final(self).invocations() == old(self).invocations() + 1,
    ;
}

/// Mathematical state of a [`Lock`]: its identity (name and service
/// address), the local belief about ownership, and its heartbeat. The
/// remote client handle is an opaque capability and has no state here.
pub ghost struct LockView {
    pub name: Seq<char>,
    pub base_uri: Seq<char>,
    pub locked: bool,
    pub heartbeat: HeartbeatView,
}

/// The parts of a lock that no operation changes: its name, the service
/// address, and the heartbeat interval.
pub open spec fn same_identity(pre: LockView, post: LockView) -> bool {
    &&& post.name == pre.name
    &&& post.base_uri == pre.base_uri
    &&& post.heartbeat.wait_interval == pre.heartbeat.wait_interval
}

/// The acquisition state machine's reaction to an acquire-or-renew
/// response, given how many retries are left: ownership enters the `Held`
/// state; a conflict waits and retries while budget remains, and gives up
/// by exhaustion once it is spent; a transport failure aborts.
pub open spec fn acquire_decision(
    acq: Result<Acquisition, TransportError>,
    remaining_attempts: u64,
) -> AttemptDecision {
    match acq {
        Result::Err(_) => AttemptDecision::Fail { op: LockOp::Put },
        Result::Ok(Acquisition::Owned) => AttemptDecision::Hold,
        Result::Ok(Acquisition::Conflict) => if remaining_attempts == 0 {
            AttemptDecision::GiveUp
        } else {
            AttemptDecision::Wait
        },
    }
}

/// Exec form of [`acquire_decision`]: the one place where a remote
/// acquire-or-renew response is interpreted, with the response as an
/// explicit argument so that the interpretation is pinned down for every
/// value the remote side can return.
pub fn decide_acquire(acq: &Result<Acquisition, TransportError>, remaining_attempts: u64) -> (d:
    AttemptDecision)
    ensures
        d == acquire_decision(*acq, remaining_attempts),
{
    match acq {
        Result::Err(_) => AttemptDecision::Fail { op: LockOp::Put },
        Result::Ok(Acquisition::Owned) => AttemptDecision::Hold,
        Result::Ok(Acquisition::Conflict) => {
            if remaining_attempts == 0 {
                AttemptDecision::GiveUp
            } else {
                AttemptDecision::Wait
            }
        },
    }
}

/// The waiting poll's reaction to a presence response: observing a present
/// key — the contested key has been refreshed or observed — is the wake
/// signal. An absent key or a transport failure never signals; polling
/// simply continues at the next tick.
pub open spec fn spin_decision(p: Result<Presence, TransportError>) -> bool {
    p matches Result::Ok(Presence::Present)
}

/// Exec form of [`spin_decision`]: the one place where the waiting
/// heartbeat interprets a presence response, with the response as an
/// explicit argument so that the wake-on-present law is pinned down for
/// every value the remote side can return.
pub fn decide_spin(p: &Result<Presence, TransportError>) -> (signalled: bool)
    ensures
        signalled == spin_decision(*p),
{
    match p {
        Result::Ok(Presence::Present) => true,
        Result::Ok(Presence::Absent) => false,
        Result::Err(_) => false,
    }
}

/// The holding tick's reaction to a presence response: a still-present key
/// means the lease stands and is renewed; an absent key means the lease is
/// no longer valid — stop and release; a transport failure skips the tick
/// and leaves everything as it was.
pub open spec fn hold_decision(p: Result<Presence, TransportError>) -> HoldStep {
    match p {
        Result::Ok(Presence::Present) => HoldStep::Renewed,
        Result::Ok(Presence::Absent) => HoldStep::Lost,
        Result::Err(_) => HoldStep::Skipped,
    }
}

/// Exec form of [`hold_decision`]: the one place where the holding
/// heartbeat interprets a presence response, with the response as an
/// explicit argument so that the renewal rule is pinned down for every
/// value the remote side can return.
pub fn decide_hold(p: &Result<Presence, TransportError>) -> (st: HoldStep)
    ensures
        st == hold_decision(*p),
{
    match p {
        Result::Ok(Presence::Present) => HoldStep::Renewed,
        Result::Ok(Presence::Absent) => HoldStep::Lost,
        Result::Err(_) => HoldStep::Skipped,
    }
}

/// With no competing owner the remote service answers `Owned`, and the
/// acquisition step then decides to hold, whatever retry budget is left;
/// together with [`lock_contract`] (an acquired lock means the action ran
/// exactly once, and the local flags are clear again afterwards) this is
/// the law that an uncontended `lock` succeeds.
pub proof fn lemma_uncontested_attempt_holds(remaining_attempts: u64)
    ensures
        acquire_decision(Result::<Acquisition, TransportError>::Ok(Acquisition::Owned), remaining_attempts)
            == AttemptDecision::Hold,
{
}

/// A conflicting attempt with nothing left in the budget gives up at once,
/// and one with budget left decides to wait: the law that a zero-retry call
/// hitting a conflict returns without any wait round.
pub proof fn lemma_conflict_decision(remaining_attempts: u64)
    ensures
        remaining_attempts == 0 ==> acquire_decision(
            Result::<Acquisition, TransportError>::Ok(Acquisition::Conflict),
            remaining_attempts,
        ) == AttemptDecision::GiveUp,
        remaining_attempts > 0 ==> acquire_decision(
            Result::<Acquisition, TransportError>::Ok(Acquisition::Conflict),
            remaining_attempts,
        ) == AttemptDecision::Wait,
{
}

/// Releasing a lock returns it to the very state a fresh lock of the same
/// identity is constructed in: ownership believed clear, heartbeat
/// inactive, name and addresses kept. An immediate re-acquisition from the
/// same instance therefore proceeds exactly as a first acquisition would,
/// with no local residue to provoke a spurious conflict; whether the
/// remote side reports one is the service's decision alone.
pub proof fn lemma_unlock_resets(v: LockView)
    ensures
        (LockView { locked: false, heartbeat: stopped(v.heartbeat), ..v }) == (LockView {
            name: v.name,
            base_uri: v.base_uri,
            locked: false,
            heartbeat: HeartbeatView { running: false, wait_interval: v.heartbeat.wait_interval },
        }),
{
}

/// What every acquisition entry point guarantees, whatever the remote
/// service answered, for a retry budget of `retries` attempts beyond the
/// first:
///
/// - the lock's identity is kept;
/// - on `Acquired` the action ran exactly once, and the local ownership
///   flag and the heartbeat are both clear again on return;
/// - on any other outcome the action never ran and the ownership flag is
///   what it was;
/// - exhaustion happens exactly when every attempt conflicted, after
///   exactly `retries` wait rounds;
/// - the call never starts a heartbeat that it leaves running: the
///   heartbeat runs afterwards only if it already ran before, it is
///   stopped after an exhaustion that waited at all, and a zero-budget
///   call that did not acquire never touched it.
pub open spec fn lock_contract(
    pre: LockView,
    post: LockView,
    pre_invocations: nat,
    post_invocations: nat,
    retries: u64,
    r: LockOutcome,
) -> bool {
    &&& same_identity(pre, post)
    &&& (r is Acquired ==> {
        &&& post_invocations == pre_invocations + 1
        &&& !post.locked
        &&& !post.heartbeat.running
    })
    &&& (!(r is Acquired) ==> {
        &&& post_invocations == pre_invocations
        &&& post.locked == pre.locked
    })
    &&& (r matches LockOutcome::Exhausted { waits } ==> waits == retries)
    &&& (r is Exhausted && retries > 0 ==> !post.heartbeat.running)
    &&& (post.heartbeat.running ==> pre.heartbeat.running)
    &&& (!(r is Acquired) && retries == 0 ==> post.heartbeat == pre.heartbeat)
}

/// The distributed mutual-exclusion primitive: orchestrates acquisition
/// attempts against the remote lock service, conflict-driven retry with a
/// wait round between attempts, and the lease-holding heartbeat around a
/// caller-supplied critical-section action.
///
/// The `locked` flag is the local belief about current ownership. It is
/// advisory: the authority over who owns the key is the remote service. The
/// lock is not reentrant, and reentrancy is not enforced: an acquisition
/// entry point called on an instance that already believes itself held
/// proceeds regardless, a deliberate looseness that callers must not rely
/// on for safety.
pub struct Lock<C: MockableLockClient> {
    name: String,
    base_uri: String,
    locked: bool,
    client: C,
    heartbeat: Heartbeat,
}

impl<C: MockableLockClient> View for Lock<C> {
    type V = LockView;

    closed spec fn view(&self) -> LockView {
        LockView {
            name: self.name@,
            base_uri: self.base_uri@,
            locked: self.locked,
            heartbeat: self.heartbeat@,
        }
    }
}

impl<C: MockableLockClient> Lock<C> {
    /// A lock for the key `name`, coordinated through the service at
    /// `base_uri`, using `client` to reach it. `interval` is the heartbeat
    /// interval in seconds; ticks happen every `interval * 1000`
    /// milliseconds.
    pub fn new(name: String, base_uri: String, interval: u64, client: C) -> (l: Lock<C>)
        requires
            interval <= u64::MAX / 1000,
        ensures
            l@ == (LockView {
                name: name@,
                base_uri: base_uri@,
                locked: false,
                heartbeat: HeartbeatView { running: false, wait_interval: (interval * 1000) as u64 },
            }),
    {
        let wait_interval: u64 = interval * 1000;
        Lock {
            name,
            base_uri,
            locked: false,
            client,
            heartbeat: Heartbeat::new(wait_interval),
        }
    }

    /// The fully-qualified URI of this lock's key on the remote service.
    fn uri(&self) -> (u: String)
        ensures
            u@ == self@.base_uri + "/locks/"@ + self@.name,
    {
        let mut u = self.base_uri.clone();
        u.append("/locks/");
        u.append(self.name.as_str());
        u
    }

    /// The local belief about current ownership. True only while a holding
    /// heartbeat is active and the critical-section action has not yet
    /// returned; it does not by itself prevent remote conflicts.
    pub fn is_locked(&self) -> (r: bool)
        ensures
            r == self@.locked,
    {
        self.locked
    }

    /// Whether this lock's heartbeat is logically active.
    pub fn heartbeat_running(&self) -> (r: bool)
        ensures
            r == self@.heartbeat.running,
    {
        self.heartbeat.is_running()
    }

    /// Force-stop the holding heartbeat and clear the ownership flag. Does
    /// not interrupt a currently-running action, and does not tell the
    /// remote service anything: the key is released by the service's own
    /// staleness policy once renewals cease.
    pub fn unlock(&mut self)
        ensures
            final(self)@ == (LockView {
                locked: false,
                heartbeat: stopped(old(self)@.heartbeat),
                ..old(self)@
            }),
    {
        self.heartbeat.stop();
        self.locked = false;
    }

    /// One acquisition attempt: the `Attempting` state of the machine.
    /// Calls the presence check and, whatever it reports short of a
    /// transport failure, the acquire-or-renew write; interprets the
    /// response with [`decide_acquire`]. On `Hold` the local ownership flag
    /// is set and the holding heartbeat marked active; every other decision
    /// leaves the lock untouched.
    pub fn try_acquire(&mut self, remaining_attempts: u64) -> (d: AttemptDecision)
        ensures
            d is Hold ==> final(self)@ == (LockView {
                locked: true,
                heartbeat: started(old(self)@.heartbeat),
                ..old(self)@
            }),
            !(d is Hold) ==> final(self)@ == old(self)@,
            d is Wait ==> remaining_attempts > 0,
            d is GiveUp ==> remaining_attempts == 0,
    {
        let uri = self.uri();
        match self.client.get_lock(uri.as_str()) {
            Result::Err(_) => AttemptDecision::Fail { op: LockOp::Get },
            Result::Ok(_presence) => {
                // Present and absent alike proceed to the write: the remote
                // side alone decides between ownership and conflict.
                let acq = self.client.put_lock(uri.as_str());
                let d = decide_acquire(&acq, remaining_attempts);
                match d {
                    AttemptDecision::Hold => {
                        self.locked = true;
                        self.heartbeat.start();
                    },
                    _ => {},
                }
                d
            },
        }
    }

    /// Run the critical-section action while the lock is held: the `Held`
    /// state. Callable only while the ownership flag and the holding
    /// heartbeat are active, which is how "the action runs only while the
    /// lock is believed held" is stated.
    pub fn run_locked<A: Action>(&self, func: &mut A)
        requires
            self@.locked,
            self@.heartbeat.running,
        ensures
            final(func).invocations() == old(func).invocations() + 1,
    {
        func.invoke();
    }

    /// One tick of the waiting (spin) heartbeat: poll the remote service
    /// for the contested key and interpret the response with
    /// [`decide_spin`] — observing `Present` is the wake signal, so the
    /// heartbeat stops itself and the waiter is to be signalled; an absent
    /// key or a transport failure changes nothing, and polling simply
    /// continues at the next tick.
    pub fn spin_tick(&mut self) -> (signalled: bool)
        ensures
            signalled ==> final(self)@ == (LockView {
                heartbeat: stopped(old(self)@.heartbeat),
                ..old(self)@
            }),
            !signalled ==> final(self)@ == old(self)@,
    {
        let uri = self.uri();
        let p = self.client.get_lock(uri.as_str());
        let signalled = decide_spin(&p);
        if signalled {
            self.heartbeat.stop();
        }
        signalled
    }

    /// One tick of the holding heartbeat: re-check presence and interpret
    /// the response with [`decide_hold`]. A lease that still stands is
    /// renewed with another acquire-or-renew write (whose response is not
    /// inspected) and the heartbeat keeps running; one that is no longer
    /// valid stops the heartbeat and clears the ownership flag; a
    /// transport failure skips the tick.
    pub fn hold_tick(&mut self) -> (st: HoldStep)
        ensures
            st is Renewed ==> final(self)@ == old(self)@,
            st is Lost ==> final(self)@ == (LockView {
                locked: false,
                heartbeat: stopped(old(self)@.heartbeat),
                ..old(self)@
            }),
            st is Skipped ==> final(self)@ == old(self)@,
    {
        let uri = self.uri();
        let p = self.client.get_lock(uri.as_str());
        let st = decide_hold(&p);
        match st {
            HoldStep::Renewed => {
                let _ = self.client.put_lock(uri.as_str());
            },
            HoldStep::Lost => {
                self.heartbeat.stop();
                self.locked = false;
            },
            HoldStep::Skipped => {},
        }
        st
    }

    /// Attempt the lock once, without retrying: a conflicting first attempt
    /// returns at once, with no wait round.
    pub fn lock<A: Action>(&mut self, func: &mut A) -> (r: LockOutcome)
        ensures
            lock_contract(
                old(self)@,
                final(self)@,
                old(func).invocations(),
                final(func).invocations(),
                0,
                r,
            ),
    {
        self.acquire(0, func)
    }

    /// Attempt the lock, waiting out up to [`DEFAULT_RETRY_ATTEMPTS`]
    /// conflicts before giving up.
    pub fn lock_with_retry<A: Action>(&mut self, func: &mut A) -> (r: LockOutcome)
        ensures
            lock_contract(
                old(self)@,
                final(self)@,
                old(func).invocations(),
                final(func).invocations(),
                DEFAULT_RETRY_ATTEMPTS,
                r,
            ),
    {
        self.acquire(DEFAULT_RETRY_ATTEMPTS, func)
    }

    /// The acquisition state machine, with the retry budget explicit:
    /// [`Lock::lock`] and [`Lock::lock_with_retry`] are its zero-budget and
    /// default-budget forms. The machine runs for at most `retries` retry
    /// cycles beyond the first attempt; each retry cycle costs one wait
    /// round — the waiting heartbeat is started, polls the contested key
    /// once, and is stopped again — before the next attempt. On acquisition
    /// the action runs synchronously in the `Held` state, then the holding
    /// heartbeat is stopped and the ownership flag cleared. Whatever the
    /// budget, the action runs at most once, and exhaustion costs exactly
    /// `retries` wait rounds.
    #[verifier::loop_isolation(false)]
    pub fn acquire<A: Action>(&mut self, retries: u64, func: &mut A) -> (r: LockOutcome)
        ensures
            lock_contract(
                old(self)@,
                final(self)@,
                old(func).invocations(),
                final(func).invocations(),
                retries,
                r,
            ),
    {
        let ghost pre: LockView = self@;
        let ghost pre_invocations: nat = func.invocations();
        let mut remaining: u64 = retries;
        let mut waits: u64 = 0;
        loop
            invariant
                waits + remaining == retries,
                same_identity(pre, self@),
                self@.locked == pre.locked,
                func.invocations() == pre_invocations,
                self@.heartbeat.running ==> pre.heartbeat.running,
                waits == 0 ==> self@.heartbeat == pre.heartbeat,
                waits > 0 ==> !self@.heartbeat.running,
            decreases remaining,
        {
            match self.try_acquire(remaining) {
                AttemptDecision::Hold => {
                    self.run_locked(func);
                    self.heartbeat.stop();
                    self.locked = false;
                    return LockOutcome::Acquired;
                },
                AttemptDecision::GiveUp => {
                    return LockOutcome::Exhausted { waits };
                },
                AttemptDecision::Fail { op } => {
                    return LockOutcome::TransportFailed { op };
                },
                AttemptDecision::Wait => {
                    // One wait round: poll once for the conflict to clear,
                    // then move on to the next attempt whatever was seen
                    // (a waiter that wakes may immediately re-conflict).
                    self.heartbeat.start();
                    let _signalled = self.spin_tick();
                    self.heartbeat.stop();
                    waits = waits + 1;
                    remaining = remaining - 1;
                },
            }
        }
    }
}

} // verus!

use vstd::prelude::*;

use crate::client::MockableLockClient;
use crate::heartbeat::HeartbeatView;
use crate::lock::Action;
use crate::lock::Lock;
use crate::lock::LockOutcome;
use crate::lock::LockView;
use crate::lock::lock_contract;

verus! {

/// Which of an election's two actions [`Election::add_handler`] replaces.
#[derive(Clone, Copy, Debug, PartialEq, Eq, Structural)]
pub enum Handler {
    Leader,
    Follower,
}

/// Mathematical state of an [`Election`]: its running flag and the state
/// of the lock it contends for. The two actions are abstract; their
/// invocation counts are exposed by `Election::leader_invocations` and
/// `Election::follower_invocations`.
pub ghost struct ElectionView {
    pub running: bool,
    pub lock: LockView,
}

/// The leader-election primitive: one [`Lock`] composed with a leader
/// action and a follower action. A call to [`Election::run`] makes a
/// single-shot attempt to take the lock; the leader action runs as the
/// critical section exactly when the attempt succeeds, and the follower
/// action runs unconditionally afterwards. Callers wanting persistent
/// leadership contention invoke `run` repeatedly with their own pacing.
///
/// Both actions have one type, so that either can replace the other
/// through [`Election::add_handler`].
pub struct Election<C: MockableLockClient, A: Action> {
    lock: Lock<C>,
    running: bool,
    leader_fn: A,
    follower_fn: A,
}

impl<C: MockableLockClient, A: Action> View for Election<C, A> {
    type V = ElectionView;

    closed spec fn view(&self) -> ElectionView {
        ElectionView { running: self.running, lock: self.lock@ }
    }
}

impl<C: MockableLockClient, A: Action> Election<C, A> {
    /// The stored leader action.
    pub closed spec fn leader(&self) -> A {
        self.leader_fn
    }

    /// The stored follower action.
    pub closed spec fn follower(&self) -> A {
        self.follower_fn
    }

    /// How many times the current leader action has run.
    pub open spec fn leader_invocations(&self) -> nat {
        self.leader().invocations()
    }

    /// How many times the current follower action has run.
    pub open spec fn follower_invocations(&self) -> nat {
        self.follower().invocations()
    }

    /// An election contending for the key `name` on the service at
    /// `base_uri`, reached through `client`, with a ten-second heartbeat
    /// interval on the underlying lock.
    pub fn new(name: String, base_uri: String, leader_fn: A, follower_fn: A, client: C) -> (e:
        Election<C, A>)
        ensures
            e@ == (ElectionView {
                running: false,
                lock: LockView {
                    name: name@,
                    base_uri: base_uri@,
                    locked: false,
                    heartbeat: HeartbeatView { running: false, wait_interval: 10000 },
                },
            }),
            e.leader() == leader_fn,
            e.follower() == follower_fn,
    {
        Election {
            lock: Lock::new(name, base_uri, 10, client),
            running: false,
            leader_fn,
            follower_fn,
        }
    }

    /// Whether a `run` has been entered and no `shutdown` has happened
    /// since.
    pub fn is_running(&self) -> (r: bool)
        ensures
            r == self@.running,
    {
        self.running
    }

    /// Try once to lead, then act as follower. Sets the running flag,
    /// makes a single-shot acquisition attempt with the leader action as
    /// the critical section — no retries, no waiting on conflict — and
    /// unconditionally invokes the follower action afterwards. Returns how
    /// the acquisition ended: the leader action ran exactly when the lock
    /// was acquired.
    pub fn run(&mut self) -> (r: LockOutcome)
        ensures
            final(self)@.running,
            lock_contract(
                old(self)@.lock,
                final(self)@.lock,
                old(self).leader_invocations(),
                final(self).leader_invocations(),
                0,
                r,
            ),
            final(self).follower_invocations() == old(self).follower_invocations() + 1,
    {
        self.running = true;
        if self.is_running() {
            let r = self.lock.lock(&mut self.leader_fn);
            self.follower_fn.invoke();
            r
        } else {
            vstd::pervasive::unreached()
        }
    }

    /// Clear the running flag observed by [`Election::is_running`]. This
    /// affects only that flag — and any external loop driving repeated
    /// `run` calls — it does not cancel a `run` already past its running
    /// check.
    pub fn shutdown(&mut self)
        ensures
            final(self)@ == (ElectionView { running: false, ..old(self)@ }),
            final(self).leader() == old(self).leader(),
            final(self).follower() == old(self).follower(),
    {
        self.running = false;
    }

    /// Replace the leader or the follower action; safe to call before
    /// `run`.
    pub fn add_handler(&mut self, typ: Handler, handler: A)
        ensures
            final(self)@ == old(self)@,
            typ is Leader ==> final(self).leader() == handler
                && final(self).follower() == old(self).follower(),
            typ is Follower ==> final(self).follower() == handler
                && final(self).leader() == old(self).leader(),
    {
        match typ {
            Handler::Leader => {
                self.leader_fn = handler;
            },
            Handler::Follower => {
                self.follower_fn = handler;
            },
        }
    }
}

} // verus!

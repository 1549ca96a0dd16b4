use vstd::prelude::*;

verus! {

/// Mathematical state of a [`Heartbeat`]: whether the periodic loop is
/// logically active, and the pause between two ticks, in milliseconds.
pub ghost struct HeartbeatView {
    pub running: bool,
    pub wait_interval: u64,
}

/// The state a heartbeat is left in by [`Heartbeat::start`]: the same
/// engine, marked active.
pub open spec fn started(v: HeartbeatView) -> HeartbeatView {
    HeartbeatView { running: true, ..v }
}

/// The state a heartbeat is left in by [`Heartbeat::stop`]: the same
/// engine, marked inactive.
pub open spec fn stopped(v: HeartbeatView) -> HeartbeatView {
    HeartbeatView { running: false, ..v }
}

/// A restartable periodic-execution engine: the bookkeeping behind a loop
/// that runs a caller-supplied action once per interval until told to stop.
///
/// The engine itself only records whether the loop is active and how long
/// the pause between two ticks is. Sleeping for the interval and invoking
/// the action between re-checks of the flag is work for an outside driver;
/// the per-tick decisions taken by the two drivers a [`crate::Lock`] uses
/// are `Lock::hold_tick` and `Lock::spin_tick`.
pub struct Heartbeat {
    running: bool,
    wait_interval: u64,
}

impl View for Heartbeat {
    type V = HeartbeatView;

    closed spec fn view(&self) -> HeartbeatView {
        HeartbeatView { running: self.running, wait_interval: self.wait_interval }
    }
}

impl Heartbeat {
    /// A new, inactive engine with the given pause between ticks,
    /// in milliseconds.
    pub fn new(interval: u64) -> (hb: Heartbeat)
        ensures
            hb@ == (HeartbeatView { running: false, wait_interval: interval }),
    {
        Heartbeat { running: false, wait_interval: interval }
    }

    /// Whether the loop is logically active.
    pub fn is_running(&self) -> (r: bool)
        ensures
            r == self@.running,
    {
        self.running
    }

    /// Mark the engine active.
    pub fn start(&mut self)
        ensures
            final(self)@ == started(old(self)@),
    {
        self.running = true;
    }

    /// Mark the engine inactive; the driving loop exits at its next check.
    ///
    /// Stopping never fails: an engine that was never started, or one that
    /// was stopped before, is simply left inactive.
    pub fn stop(&mut self)
        ensures
            final(self)@ == stopped(old(self)@),
    {
        self.running = false;
    }
}

/// Stopping a heartbeat is idempotent: after one `stop`, further `stop`
/// calls leave the state unchanged, and a `stop` before any `start` leaves
/// the engine inactive just the same. In every case the engine reports
/// itself not running and the interval is kept.
pub proof fn lemma_stop_idempotent(v: HeartbeatView)
    ensures
        !stopped(v).running,
        stopped(stopped(v)) == stopped(v),
        stopped(started(v)) == stopped(v),
        stopped(v).wait_interval == v.wait_interval,
{
}

} // verus!

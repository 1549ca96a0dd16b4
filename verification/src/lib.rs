//! Distributed-coordination primitives for processes on separate machines
//! that agree on mutual exclusion or on a single active leader through a
//! remote lock service reachable over HTTP.
//!
//! The crate offers two primitives:
//!
//! - [`Lock`]: a distributed mutual-exclusion primitive that acquires and
//!   renews a lease on a named key held by a remote lock service, with
//!   bounded retry on conflict.
//! - [`Election`]: a thin leader-election layer composed on one `Lock`: it
//!   attempts a single-shot acquisition and runs a leader action while
//!   holding the lock, otherwise only a follower action.
//!
//! The remote service itself is an external collaborator, reached through the
//! [`MockableLockClient`] capability; a live HTTP adapter or an in-memory
//! test double is chosen at construction time.

mod client;
mod election;
mod heartbeat;
mod lock;

pub use client::Acquisition;
pub use client::MockableLockClient;
pub use client::Presence;
pub use client::TransportError;
pub use election::Election;
pub use election::ElectionView;
pub use election::Handler;
pub use heartbeat::Heartbeat;
pub use heartbeat::HeartbeatView;
pub use heartbeat::lemma_stop_idempotent;
pub use heartbeat::started;
pub use heartbeat::stopped;
pub use lock::Action;
pub use lock::AttemptDecision;
pub use lock::HoldStep;
pub use lock::Lock;
pub use lock::LockOp;
pub use lock::LockOutcome;
pub use lock::LockView;
pub use lock::DEFAULT_BASE_URI;
pub use lock::DEFAULT_RETRY_ATTEMPTS;
pub use lock::acquire_decision;
pub use lock::decide_acquire;
pub use lock::decide_hold;
pub use lock::decide_spin;
pub use lock::hold_decision;
pub use lock::spin_decision;
pub use lock::lemma_conflict_decision;
pub use lock::lemma_uncontested_attempt_holds;
pub use lock::lemma_unlock_resets;
pub use lock::lock_contract;
pub use lock::same_identity;

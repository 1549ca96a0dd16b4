use vstd::prelude::*;

verus! {

/// What a presence check reports: whether any entry exists for the lock key.
/// Presence says nothing about who owns the entry.
#[derive(Clone, Copy, Debug, PartialEq, Eq, Structural)]
pub enum Presence {
    Present,
    Absent,
}

/// What an acquire-or-renew attempt reports: either the caller became or
/// stayed the owner, or a different, still-valid owner holds the key.
#[derive(Clone, Copy, Debug, PartialEq, Eq, Structural)]
pub enum Acquisition {
    Owned,
    Conflict,
}

/// A transport failure: the remote call could not complete at all. Always
/// terminal for the current acquisition attempt; never silently retried.
#[derive(Debug)]
pub struct TransportError {
    pub message: String,
}

/// The remote lock service capability consumed by [`crate::Lock`]: two
/// operations keyed by the fully-qualified lock URI.
///
/// The remote side is the authority: it applies its own staleness policy
/// and decides every response, so neither operation carries a promise about
/// which value comes back. A live adapter speaks HTTP to the service; an
/// in-memory double substituted for testing simulates a store of its own.
/// Either way the handle must tolerate being consulted repeatedly with the
/// same URI.
pub trait MockableLockClient {
    /// Does an entry exist for this key?
    fn get_lock(&self, lock: &str) -> Result<Presence, TransportError>;

    /// Attempt to create or renew ownership of this key. `Conflict` means a
    /// different, non-stale owner holds it.
    fn put_lock(&self, lock: &str) -> Result<Acquisition, TransportError>;
}

} // verus!

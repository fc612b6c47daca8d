//! The call admission gate: a single-slot lock that admits at most one
//! active call session at a time on the listening side.

use vstd::prelude::*;

verus! {

/// Whether a `try_acquire` finding the admission slot in the given occupancy is granted.
pub open spec fn acquire_granted(occupied: bool) -> bool {
    !occupied
}

/// Occupancy after a `try_acquire`: the slot is taken afterwards either way
/// (it was either just won or already held by another session).
pub open spec fn occupied_after_acquire(occupied: bool) -> bool {
    true
}

/// Occupancy after a `release`: the slot is free afterwards unconditionally.
pub open spec fn occupied_after_release(occupied: bool) -> bool {
    false
}

/// Single-slot admission lock. At most one call session holds the slot at a
/// time; a second caller is rejected, never queued. The ghost grant and
/// release counters record the history needed to state the bookkeeping law
/// that every successful acquisition is matched by exactly one release.
pub struct AdmissionGate {
    pub occupied: bool,
    pub grants: Ghost<nat>,
    pub releases: Ghost<nat>,
}

impl AdmissionGate {
    /// The grant/release history is balanced: the slot is occupied exactly
    /// when one more grant than releases has happened so far.
    pub open spec fn balanced(self) -> bool {
        self.grants@ == self.releases@ + (if self.occupied {
            1nat
        } else {
            0nat
        })
    }

    /// A fresh gate: free, with no grants or releases on record.
    pub fn new() -> (g: Self)
        ensures
            !g.occupied,
            g.grants@ == 0,
            g.releases@ == 0,
            g.balanced(),
    {
        AdmissionGate { occupied: false, grants: Ghost(0nat), releases: Ghost(0nat) }
    }

    /// Attempt to take the slot. Succeeds exactly when the slot was free, and
    /// leaves the slot occupied either way.
    pub fn try_acquire(&mut self) -> (granted: bool)
        ensures
            granted == acquire_granted(old(self).occupied),
            final(self).occupied == occupied_after_acquire(old(self).occupied),
            granted ==> final(self).grants@ == old(self).grants@ + 1,
            !granted ==> final(self).grants@ == old(self).grants@,
            final(self).releases@ == old(self).releases@,
            old(self).balanced() ==> final(self).balanced(),
    {
        if self.occupied {
            false
        } else {
            self.occupied = true;
            self.grants = Ghost(self.grants@ + 1);
            true
        }
    }

    /// Free the slot unconditionally. Only a release of a held slot counts
    /// toward the release history.
    pub fn release(&mut self)
        ensures
            final(self).occupied == occupied_after_release(old(self).occupied),
            final(self).grants@ == old(self).grants@,
            old(self).occupied ==> final(self).releases@ == old(self).releases@ + 1,
            !old(self).occupied ==> final(self).releases@ == old(self).releases@,
            old(self).balanced() ==> final(self).balanced(),
    {
        if self.occupied {
            self.releases = Ghost(self.releases@ + 1);
        }
        self.occupied = false;
    }
}

/// Mutual exclusion of the admission gate: while the slot is held every
/// concurrent `try_acquire` is denied, a `try_acquire` on a free gate is
/// granted, the first `try_acquire` after a `release` is granted again, and
/// after any `try_acquire` the slot is occupied.
pub proof fn lemma_gate_mutual_exclusion(occupied: bool)
    ensures
        occupied ==> !acquire_granted(occupied),
        !occupied ==> acquire_granted(occupied),
        acquire_granted(occupied_after_release(occupied)),
        occupied_after_acquire(occupied),
{
}

/// Grant/release bookkeeping: whenever the slot is free, every grant on
/// record has been matched by exactly one release.
pub proof fn lemma_grants_match_releases(g: AdmissionGate)
    requires
        g.balanced(),
        !g.occupied,
    ensures
        g.grants@ == g.releases@,
{
}

} // verus!

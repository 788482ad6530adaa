//! The snapshot shared between the sampler, its only writer, and any
//! number of readers on other threads.

use vstd::prelude::*;
use vstd::rwlock::{RwLock, RwLockPredicate};
use crate::sampler::UtilizationSnapshot;

verus! {

/// What every snapshot held in the lock satisfies.
pub struct SnapshotInvariant;

impl RwLockPredicate<UtilizationSnapshot> for SnapshotInvariant {
    open spec fn inv(self, v: UtilizationSnapshot) -> bool {
        v.wf()
    }
}

/// A reader-writer lock around one whole `UtilizationSnapshot`: a write
/// replaces it entirely while no reader holds it, and a read copies it out
/// entirely while no writer holds it.
pub struct SharedSnapshot {
    lock: RwLock<UtilizationSnapshot, SnapshotInvariant>,
}

impl SharedSnapshot {
    pub fn new(initial: UtilizationSnapshot) -> (r: SharedSnapshot)
        requires
            initial.wf(),
    {
        SharedSnapshot { lock: RwLock::new(initial, Ghost(SnapshotInvariant)) }
    }

    /// Replaces the snapshot as a whole.
    pub fn publish(&self, snapshot: UtilizationSnapshot)
        requires
            snapshot.wf(),
    {
        let (_previous, handle) = self.lock.acquire_write();
        handle.release_write(snapshot);
    }

    /// A copy of one snapshot that was published as a whole.
    pub fn read(&self) -> (r: UtilizationSnapshot)
        ensures
            r.wf(),
    {
        let handle = self.lock.acquire_read();
        let r = *handle.borrow();
        handle.release_read();
        r
    }
}

} // verus!

//! The shared snapshot slot: one complete (table, flag) snapshot behind a
//! verified reader/writer lock.
//!
//! The table and the auto-reload flag always travel as one value: a writer
//! replaces the whole snapshot while holding the write lock, and a reader
//! borrows the whole snapshot while holding a read lock, so no reader can
//! ever observe a table from one load paired with a flag from another.

use vstd::prelude::*;
use vstd::rwlock::RwLock;
use vstd::rwlock::RwLockPredicate;

use crate::overrides::StakedNodesOverrides;

verus! {

/// The slot's invariant: every snapshot stored in the lock is well formed.
pub struct SnapshotPred {}

impl RwLockPredicate<StakedNodesOverrides> for SnapshotPred {
    open spec fn inv(self, v: StakedNodesOverrides) -> bool {
        v.wf()
    }
}

/// The process-wide slot that the updater task writes and arbitrarily many
/// readers read. It starts at the default snapshot: auto-reload off, empty
/// table.
pub struct SharedOverrides {
    lock: RwLock<StakedNodesOverrides, SnapshotPred>,
}

impl SharedOverrides {
    /// A fresh slot holding the default snapshot.
    pub fn new() -> (s: Self) {
        let initial = StakedNodesOverrides::default();
        SharedOverrides { lock: RwLock::new(initial, Ghost(SnapshotPred {  })) }
    }

    /// Replaces the stored snapshot with `snap` as one atomic unit: the
    /// writer excludes all readers for the duration of the swap, so the new
    /// table and the new flag become visible together.
    pub fn publish(&self, snap: StakedNodesOverrides)
        requires
            snap.wf(),
    {
        let (_displaced, write_handle) = self.lock.acquire_write();
        write_handle.release_write(snap);
    }

    /// Reads the stored snapshot: a complete, well-formed (table, flag)
    /// pair from a single load (or the default).
    pub fn read(&self) -> (snap: StakedNodesOverrides)
        ensures
            snap.wf(),
    {
        let read_handle = self.lock.acquire_read();
        let snap = read_handle.borrow().duplicate();
        read_handle.release_read();
        snap
    }
}

} // verus!

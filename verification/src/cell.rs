//! The shared measurement cell.
//!
//! One slot holding the most recent sample, or nothing before the first
//! successful poll.  The slot is guarded by a verified reader-writer lock,
//! so the poller may overwrite it while the reactor and any number of
//! status responders read it concurrently: a reader always observes either
//! "absent" or one complete `Measurement`, never a partial write, and
//! `read` hands back a snapshot copy, never a live reference.

use vstd::prelude::*;
use vstd::rwlock::RwLock;
use vstd::rwlock::RwLockPredicate;
use crate::measurement::Measurement;

verus! {

/// The lock invariant of the cell: any complete slot value is admissible.
/// The type of the slot already confines it to "absent" or one whole
/// sample; the lock's job here is mutual exclusion, not data refinement.
pub struct AnyReading {}

impl RwLockPredicate<Option<Measurement>> for AnyReading {
    open spec fn inv(self, v: Option<Measurement>) -> bool {
        true
    }
}

/// The lock-guarded single slot shared by the poller (writer), the
/// reactor and the status responder (readers).
pub struct MeasurementCell {
    slot: RwLock<Option<Measurement>, AnyReading>,
}

impl MeasurementCell {
    /// An empty cell: no measurement yet.
    pub fn new() -> (c: MeasurementCell) {
        MeasurementCell { slot: RwLock::new(None, Ghost(AnyReading {  })) }
    }

    /// Replaces the slot's contents with `m`, whole, under the write lock.
    /// The lock is held only for the store itself, never across blocking
    /// calls.
    pub fn write(&self, m: Measurement) {
        let (_prev, handle) = self.slot.acquire_write();
        handle.release_write(Some(m));
    }

    /// Returns a snapshot copy of the slot under a read lock: `None`
    /// before the first write, afterwards some complete sample that a
    /// write put there.
    pub fn read(&self) -> (r: Option<Measurement>) {
        let handle = self.slot.acquire_read();
        let r = *handle.borrow();
        handle.release_read();
        r
    }
}

} // verus!

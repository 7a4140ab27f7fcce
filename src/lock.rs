//! Lock guards that are detached from the borrow of the lock they came from,
//! so that a reference can carry one next to the key and value it guards.
use vstd::prelude::*;

verus! {

/// Shared (read) access to one shard. The access lasts as long as the value.
#[derive(Debug)]
pub struct RwLockReadGuardDetached {
    _held: (),
}

/// Exclusive (write) access to one shard. The access lasts as long as the value.
#[derive(Debug)]
pub struct RwLockWriteGuardDetached {
    _held: (),
}

impl RwLockReadGuardDetached {
    pub(crate) fn new() -> (r: RwLockReadGuardDetached) {
        RwLockReadGuardDetached { _held: () }
    }
}

impl RwLockWriteGuardDetached {
    pub(crate) fn new() -> (r: RwLockWriteGuardDetached) {
        RwLockWriteGuardDetached { _held: () }
    }

    /// Turns exclusive access into shared access in place: the shard is never
    /// unlocked in between, so no writer can come in.
    pub(crate) fn downgrade(self) -> (r: RwLockReadGuardDetached) {
        let RwLockWriteGuardDetached { _held } = self;
        RwLockReadGuardDetached { _held }
    }
}

} // verus!

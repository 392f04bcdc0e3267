//! Screen lock: a toggle that swallows all input while set.
use vstd::prelude::*;

verus! {

/// The lock flag.
#[derive(Clone, Copy, PartialEq, Eq, Structural, Debug)]
pub struct LockState {
    pub locked: bool,
}

impl LockState {
    /// Unlocked.
    pub fn new() -> (l: LockState)
        ensures
            !l.locked,
    {
        LockState { locked: false }
    }

    /// Is the screen currently locked?
    pub fn is_active(&self) -> (b: bool)
        ensures
            b == self.locked,
    {
        self.locked
    }

    /// Flip the lock state (lock if unlocked, unlock if locked).
    pub fn toggle(&mut self)
        ensures
            final(self).locked == !old(self).locked,
    {
        self.locked = !self.locked;
    }
}

} // verus!

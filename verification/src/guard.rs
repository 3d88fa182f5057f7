//! Mutual exclusion of long-running passes.
//!
//! Only one synchronization or download pass may run at a time. The guard is
//! an explicit two-state machine — idle or running — whose transition the
//! host makes under its own lock: a pass begins only when the guard was idle,
//! and releases the guard when it ends, however it ends.

use vstd::prelude::*;

verus! {

/// The idle-or-running state guarding long operations.
pub struct OperationGuard {
    running: bool,
}

impl OperationGuard {
    /// Whether a pass holds the guard.
    pub closed spec fn running(&self) -> bool {
        self.running
    }

    /// A fresh guard: idle.
    pub fn new() -> (g: Self)
        ensures
            !g.running(),
    {
        OperationGuard { running: false }
    }

    /// Whether a pass holds the guard.
    pub fn is_running(&self) -> (r: bool)
        ensures
            r == self.running(),
    {
        self.running
    }

    /// Tries to begin a pass: succeeds exactly when the guard was idle, and
    /// the guard is held afterwards either way.
    pub fn try_begin(&mut self) -> (r: bool)
        ensures
            r == !old(self).running(),
            final(self).running(),
    {
        let was_running = self.running;
        self.running = true;
        !was_running
    }

    /// Ends the pass holding the guard: the guard is idle again.
    pub fn finish(&mut self)
        requires
            old(self).running(),
        ensures
            !final(self).running(),
    {
        self.running = false;
    }
}

} // verus!

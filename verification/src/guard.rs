//! The one-time constructor guard.
//!
//! Some target environments defer static initializers until a designated
//! "run constructors" hook is invoked by hand. Every exported entry point
//! therefore begins by consulting a process-wide guard; the first entry, and
//! only the first, is told to run the initializers, however many entry points
//! exist and in whatever order they are called.

use vstd::prelude::*;

verus! {

/// The guard's process-wide state: whether the initializers have run.
pub struct CtorGuard {
    has_run: bool,
}

/// The guard's state after `n` entries: untouched only before the first.
pub open spec fn guard_state_after(n: nat) -> bool {
    n != 0
}

/// What the `k`-th entry (counting from zero) is told: to run the
/// initializers exactly when no entry came before it.
pub open spec fn guard_observation(k: nat) -> bool {
    !guard_state_after(k)
}

impl CtorGuard {
    /// True once the initializers have run.
    pub closed spec fn ran(&self) -> bool {
        self.has_run
    }

    /// The guard at process start: the initializers have not run.
    pub fn new() -> (g: CtorGuard)
        ensures
            !g.ran(),
    {
        CtorGuard { has_run: false }
    }

    /// Consulted at the top of an exported entry point. Returns whether this
    /// entry must run the initializers, which is the case exactly when no
    /// earlier entry did; afterwards they count as run forever.
    pub fn enter(&mut self) -> (first: bool)
        ensures
            final(self).ran(),
            first == !old(self).ran(),
    {
        let first = !self.has_run;
        self.has_run = true;
        first
    }
}

/// The initializers run exactly once: of any sequence of entries through the
/// guard, the first and only the first is told to run them.
pub proof fn lemma_ctors_run_exactly_once(k: nat)
    ensures
        guard_observation(k) <==> k == 0,
{
}

} // verus!

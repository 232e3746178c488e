//! One-time initialisation: a flag that lets an initialiser run exactly once.

use vstd::prelude::*;

verus! {

/// Guards an initialiser that runs at most once.
pub struct Once<F: FnOnce()> {
    init: bool,
    f: F,
}

impl<F: FnOnce()> Once<F> {
    /// Whether the initialiser has run.
    pub closed spec fn is_done(self) -> bool {
        self.init
    }

    /// The function the guard was made with.
    pub closed spec fn kept(self) -> F {
        self.f
    }

    /// A guard whose initialiser has not run yet.
    pub fn new(f: F) -> (once: Once<F>)
        ensures
            !once.is_done(),
            once.kept() == f,
    {
        Once { init: false, f }
    }

    /// Tells whether the initialiser has run.
    pub fn is_completed(&self) -> (done: bool)
        ensures
            done == self.is_done(),
    {
        self.init
    }

    /// Runs `f` and marks the initialisation as done. Asking for a second run
    /// is a fatal error of the caller, which this contract rules out.
    pub fn call_once(&mut self, f: F)
        requires
            !old(self).is_done(),
            call_requires(f, ()),
        ensures
            final(self).is_done(),
            final(self).kept() == old(self).kept(),
            call_ensures(f, (), ()),
    {
        self.init = true;
        f()
    }
}

} // verus!

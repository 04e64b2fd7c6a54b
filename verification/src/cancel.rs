//! The cooperative cancellation switch: set once, never reset.

use vstd::prelude::*;

verus! {

/// A write-once boolean switch. Long-running loops poll it between steps;
/// no operation ever clears it, so once observed set it stays set.
#[derive(Debug)]
pub struct CancelToken {
    stopped: bool,
}

impl CancelToken {
    /// Whether the token has been set.
    pub closed spec fn spec_is_set(&self) -> bool {
        self.stopped
    }

    /// A fresh, unset token.
    pub fn new() -> (r: Self)
        ensures
            !r.spec_is_set(),
    {
        CancelToken { stopped: false }
    }

    /// Sets the token; it is set afterwards whatever it held before.
    pub fn set(&mut self)
        ensures
            final(self).spec_is_set(),
    {
        self.stopped = true;
    }

    /// Reads the token without blocking.
    pub fn is_set(&self) -> (r: bool)
        ensures
            r == self.spec_is_set(),
    {
        self.stopped
    }
}

} // verus!

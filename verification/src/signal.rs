use vstd::prelude::*;

verus! {

/// Model of the shared cancellation flag that every loop in the watchdog
/// polls. The flag moves in one direction only: once an exit has been
/// requested it never reverts, so every observer may treat a `true`
/// reading as terminal.
pub struct CancellationState {
    should_exit: bool,
}

impl CancellationState {
    /// True when an exit has been requested.
    pub closed spec fn spec_is_set(&self) -> bool {
        self.should_exit
    }

    /// A fresh signal: no exit requested yet.
    pub fn new() -> (r: CancellationState)
        ensures
            !r.spec_is_set(),
    {
        CancellationState { should_exit: false }
    }

    /// Request exit. Sets the flag; a second call is a no-op and the flag
    /// stays set for the remainder of the run.
    pub fn request_exit(&mut self)
        ensures
            final(self).spec_is_set(),
            old(self).spec_is_set() ==> *final(self) == *old(self),
    {
        self.should_exit = true;
    }

    /// Non-blocking read of the flag.
    pub fn is_set(&self) -> (r: bool)
        ensures
            r == self.spec_is_set(),
    {
        self.should_exit
    }
}

} // verus!

use vstd::prelude::*;

verus! {

/// The signal's state after observing the shared flag as `flag`.
pub open spec fn observed(set: bool, flag: bool) -> bool {
    set || flag
}

/// A run's view of the cancellation request: once it has been seen set, it
/// stays set for the rest of the run.
pub struct CancelSignal {
    set: bool,
}

impl View for CancelSignal {
    type V = bool;

    closed spec fn view(&self) -> bool {
        self.set
    }
}

impl CancelSignal {
    /// A signal that has not been set.
    pub fn new() -> (r: CancelSignal)
        ensures
            r@ == false,
    {
        CancelSignal { set: false }
    }

    /// Sets the signal; setting it again changes nothing.
    pub fn signal(&mut self)
        ensures
            final(self)@ == true,
    {
        self.set = true;
    }

    /// Takes in what the shared flag read: a set flag sets the signal, an
    /// unset one leaves it as it was.
    pub fn observe(&mut self, flag: bool)
        ensures
            final(self)@ == observed(old(self)@, flag),
    {
        if flag {
            self.set = true;
        }
    }

    /// Whether the signal has been set.
    pub fn is_set(&self) -> (r: bool)
        ensures
            r == self@,
    {
        self.set
    }
}

/// Signalling leaves the signal set whatever it was before, so signalling
/// twice has the effect of signalling once; and no later observation of
/// the shared flag clears a set signal.
pub proof fn signal_is_idempotent_and_monotonic(s: CancelSignal, flag: bool)
    requires
        s@ == true,
    ensures
        observed(s@, flag) == true,
{
}

} // verus!

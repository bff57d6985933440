use vstd::prelude::*;

verus! {

/// Counts the webhook deliveries that were turned away because they would
/// have moved a dispute backwards. The caller owns the counter and hands it
/// to the validation, so separate instances never share a count.
#[derive(Debug)]
pub struct DisputeValidationFailureCounter {
    failures: u64,
}

impl DisputeValidationFailureCounter {
    /// Number of failures recorded so far.
    pub closed spec fn view(&self) -> nat {
        self.failures as nat
    }

    /// What `add` leaves in a counter that held `before`: the sum, held at the
    /// largest value the counter can show.
    pub open spec fn after_add(before: nat, amount: u64) -> nat {
        if before + amount <= u64::MAX {
            (before + amount) as nat
        } else {
            u64::MAX as nat
        }
    }

    /// A counter that has recorded nothing.
    pub fn new() -> (counter: Self)
        ensures
            counter@ == 0,
    {
        DisputeValidationFailureCounter { failures: 0 }
    }

    /// The number of failures recorded so far.
    pub fn count(&self) -> (n: u64)
        ensures
            n == self@,
    {
        self.failures
    }

    /// Records `amount` further failures.
    pub fn add(&mut self, amount: u64)
        ensures
            final(self)@ == Self::after_add(old(self)@, amount),
    {
        self.failures = self.failures.saturating_add(amount);
    }
}

} // verus!

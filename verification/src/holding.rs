//! The fungible credit the XCM precompile puts in an XCM holding register.

use vstd::prelude::*;

verus! {

/// `x + y`, clamped to `u128::MAX`.
pub open spec fn sat_add_u128(x: u128, y: u128) -> u128 {
    if x + y > u128::MAX { u128::MAX } else { (x + y) as u128 }
}

/// An amount of fungible credit.
#[derive(Debug)]
pub struct HoldingCredit {
    amount: u128,
}

impl HoldingCredit {
    /// The amount of credit.
    pub closed spec fn value(&self) -> u128 {
        self.amount
    }

    /// A credit of `amount`.
    pub fn new(amount: u128) -> (c: HoldingCredit)
        ensures
            c.value() == amount,
    {
        HoldingCredit { amount }
    }

    /// A second credit of the same amount.
    pub fn unsafe_clone(&self) -> (c: HoldingCredit)
        ensures
            c.value() == self.value(),
    {
        HoldingCredit { amount: self.amount }
    }

    /// Empties the credit and returns what it held.
    pub fn forget_imbalance(&mut self) -> (amount: u128)
        ensures
            amount == old(self).value(),
            final(self).value() == 0,
    {
        let amount = self.amount;
        self.amount = 0;
        amount
    }

    /// Absorbs `other` into this credit, saturating at `u128::MAX`.
    pub fn saturating_subsume(&mut self, other: HoldingCredit)
        ensures
            final(self).value() == sat_add_u128(old(self).value(), other.value()),
    {
        let mut other = other;
        let taken = other.forget_imbalance();
        self.amount = self.amount.saturating_add(taken);
    }

    /// The amount of credit.
    pub fn amount(&self) -> (a: u128)
        ensures
            a == self.value(),
    {
        self.amount
    }

    /// Takes up to `amount` out of this credit, as a new credit.
    pub fn saturating_take(&mut self, amount: u128) -> (taken: HoldingCredit)
        ensures
            (final(self).value(), taken.value()) == spec_take(old(self).value(), amount),
    {
        let taken = if self.amount < amount { self.amount } else { amount };
        self.amount = self.amount - taken;
        HoldingCredit { amount: taken }
    }
}

/// What taking `amount` out of a credit of `value` leaves: the remaining
/// credit and the taken one.
pub open spec fn spec_take(value: u128, amount: u128) -> (u128, u128) {
    let taken = if value < amount { value } else { amount };
    ((value - taken) as u128, taken)
}

/// Taking credit out conserves it: the remaining and the taken credit add
/// up to the original, and subsuming the taken credit back restores it.
pub proof fn lemma_take_then_subsume_restores(value: u128, amount: u128)
    ensures
        spec_take(value, amount).0 + spec_take(value, amount).1 == value,
        sat_add_u128(spec_take(value, amount).0, spec_take(value, amount).1) == value,
        spec_take(value, amount).1 <= amount,
{
}

} // verus!

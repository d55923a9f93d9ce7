//! The record of what one investor holds in one vault.

use vstd::prelude::*;
use crate::error::VaultError;
use crate::identity::Identity;

verus! {

/// An investor's claim on a vault.
///
/// There is one position for each pair of a vault and an investor. It starts
/// at zero with the investor's first deposit and stays on the books from then
/// on, also when it is back at zero.
#[derive(Clone, Copy, Debug, PartialEq, Eq)]
pub struct InvestorPosition {
    pub vault: Identity,
    pub investor: Identity,
    pub amount: u64,
}

impl InvestorPosition {
    /// The position that `investor` has in `vault` before the first deposit.
    pub fn new(vault: Identity, investor: Identity) -> (position: Self)
        ensures
            position == (InvestorPosition { vault, investor, amount: 0 }),
    {
        InvestorPosition { vault, investor, amount: 0 }
    }

    /// Adds `amount` to the position.
    ///
    /// Refused with `ArithmeticOverflow`, and the position left as it was,
    /// when the sum does not fit in `u64`.
    pub fn credit(&mut self, amount: u64) -> (res: Result<(), VaultError>)
        ensures
            old(self).amount + amount <= u64::MAX ==> res == Ok::<(), VaultError>(())
                && *final(self) == (InvestorPosition {
                amount: (old(self).amount + amount) as u64,
                ..*old(self)
            }),
            old(self).amount + amount > u64::MAX ==> res == Err::<(), VaultError>(
                VaultError::ArithmeticOverflow,
            ) && *final(self) == *old(self),
    {
        match self.amount.checked_add(amount) {
            Some(sum) => {
                self.amount = sum;
                Ok(())
            },
            None => Err(VaultError::ArithmeticOverflow),
        }
    }

    /// Takes `amount` from the position.
    ///
    /// Refused with `InsufficientFunds`, and the position left as it was, when
    /// the position holds less than `amount`.
    pub fn debit(&mut self, amount: u64) -> (res: Result<(), VaultError>)
        ensures
            old(self).amount >= amount ==> res == Ok::<(), VaultError>(()) && *final(self) == (
            InvestorPosition { amount: (old(self).amount - amount) as u64, ..*old(self) }),
            old(self).amount < amount ==> res == Err::<(), VaultError>(
                VaultError::InsufficientFunds,
            ) && *final(self) == *old(self),
    {
        if self.amount < amount {
            return Err(VaultError::InsufficientFunds);
        }
        self.amount = self.amount - amount;
        Ok(())
    }
}

} // verus!

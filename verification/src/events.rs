//! The records that a booked operation leaves for auditors and indexers.

use vstd::prelude::*;
use crate::identity::Identity;

verus! {

/// Left by a deposit: who deposited, how much, and what the investor's
/// position stands at after it.
#[derive(Clone, Copy, Debug, PartialEq, Eq)]
pub struct DepositEvent {
    pub investor: Identity,
    pub amount: u64,
    pub total_invested: u64,
}

/// Left by a withdrawal: who withdrew, how much, and what remains of the
/// investor's position.
#[derive(Clone, Copy, Debug, PartialEq, Eq)]
pub struct WithdrawEvent {
    pub investor: Identity,
    pub amount: u64,
    pub remaining_balance: u64,
}

/// An entry of the event log. Operations only ever append to the log.
#[derive(Clone, Copy, Debug, PartialEq, Eq)]
pub enum VaultEvent {
    Deposit(DepositEvent),
    Withdraw(WithdrawEvent),
}

} // verus!

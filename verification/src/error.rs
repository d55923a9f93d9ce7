//! The ways in which a vault operation is refused.

use vstd::prelude::*;

verus! {

/// Why the asset-transfer primitive declined a transfer.
#[derive(Clone, Copy, Debug, PartialEq, Eq, Structural)]
pub enum TransferFailure {
    /// The authority given does not control the source account.
    AuthorizationError,
    /// The source account holds less than the amount.
    InsufficientBalance,
    /// One of the two accounts is frozen.
    AccountFrozen,
}

/// Why a vault operation was refused. Every refusal leaves the books as they
/// were.
#[derive(Clone, Copy, Debug, PartialEq, Eq, Structural)]
pub enum VaultError {
    /// The amount of a deposit or withdrawal was zero.
    InvalidAmount,
    /// A withdrawal asked for more than the position holds.
    InsufficientFunds,
    /// The vault's manager asked to withdraw.
    ManagerCannotWithdraw,
    /// A vault of that name exists already.
    AlreadyExists,
    /// The asset-transfer primitive declined the transfer.
    TransferFailed(TransferFailure),
    /// A balance would have left the range of `u64`.
    ArithmeticOverflow,
}

} // verus!

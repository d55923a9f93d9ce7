//! The three operations on a vault: create it, deposit into it, withdraw from
//! it.
//!
//! Each operation works on the records that the storage layer has resolved
//! for it. A deposit or a withdrawal goes in two steps around the transfer of
//! the asset. First `deposit_transfer` or `withdraw_transfer` checks the
//! request and names the transfer that it needs; a request refused there
//! needs no transfer. The caller has the transfer performed, and hands its
//! outcome to `deposit_funds` or `withdraw_funds`, which checks the request
//! once more and books it only if the transfer went through. A request that
//! is refused at any point leaves every record and the event log untouched.

use vstd::prelude::*;
use crate::error::{TransferFailure, VaultError};
use crate::events::{DepositEvent, VaultEvent, WithdrawEvent};
use crate::identity::Identity;
use crate::position::InvestorPosition;
use crate::transfer::{
    signer_seeds_of,
    vault_signer_seeds,
    DerivedAuthority,
    TransferInstruction,
    TransferInstructionView,
};
use crate::vault::Vault;

verus! {

/// The asset-holding accounts that a deposit or a withdrawal moves the asset
/// between, and the kind of asset that they hold.
#[derive(Clone, Copy, Debug, PartialEq, Eq)]
pub struct CustodyAccounts {
    pub token_mint: Identity,
    pub investor_token_account: Identity,
    pub vault_token_account: Identity,
}

/// What the creation of a vault works on: the record to fill, and the
/// creator.
#[derive(Debug, PartialEq, Eq)]
pub struct CreateVault {
    pub vault: Vault,
    pub manager: Identity,
}

/// What a deposit works on: the vault, the depositing investor with the
/// position held in the vault, and the accounts that the asset moves between.
#[derive(Debug, PartialEq, Eq)]
pub struct DepositFunds {
    pub vault: Vault,
    pub investor: Identity,
    pub token_mint: Identity,
    pub investor_token_account: Identity,
    pub investor_position: InvestorPosition,
    pub vault_token_account: Identity,
}

/// What a withdrawal works on: as for a deposit, and the vault's signing
/// authority.
#[derive(Debug, PartialEq, Eq)]
pub struct WithdrawFunds {
    pub vault: Vault,
    pub vault_authority: DerivedAuthority,
    pub investor: Identity,
    pub token_mint: Identity,
    pub investor_token_account: Identity,
    pub investor_position: InvestorPosition,
    pub vault_token_account: Identity,
}

/// Fills the record of a new vault: `ctx.manager` manages it, it is called
/// `name`, and it holds nothing. Anyone may create a vault, so this never
/// refuses.
pub fn create_vault(ctx: &mut CreateVault, name: String) -> (res: Result<(), VaultError>)
    ensures
        res == Ok::<(), VaultError>(()),
        *final(ctx) == (CreateVault {
            vault: Vault { manager: old(ctx).manager, name: name, total_value: 0 },
            manager: old(ctx).manager,
        }),
{
    ctx.vault.manager = ctx.manager;
    ctx.vault.name = name;
    ctx.vault.total_value = 0;
    Ok(())
}

/// Why a deposit of `amount` is refused before any transfer, if it is.
pub open spec fn deposit_refusal(amount: u64) -> Option<VaultError> {
    if amount == 0 {
        Some(VaultError::InvalidAmount)
    } else {
        None
    }
}

/// The transfer that a deposit of `amount` needs: from the investor's account
/// to the vault's, on the investor's own authority.
pub open spec fn deposit_instruction(ctx: DepositFunds, amount: u64) -> TransferInstructionView {
    TransferInstructionView {
        from: ctx.investor_token_account,
        to: ctx.vault_token_account,
        authority: ctx.investor,
        signer_seeds: Seq::empty(),
        amount,
    }
}

/// How a deposit of `amount` ends when the transfer ended as `transfer`.
///
/// In this order: a zero amount is invalid; a failed transfer fails the
/// deposit; a position or a total that would leave `u64` is an overflow;
/// otherwise the deposit is booked, and the event tells the new position.
pub open spec fn deposit_outcome(
    ctx: DepositFunds,
    amount: u64,
    transfer: Result<(), TransferFailure>,
) -> Result<DepositEvent, VaultError> {
    if amount == 0 {
        Err(VaultError::InvalidAmount)
    } else if transfer is Err {
        Err(VaultError::TransferFailed(transfer->Err_0))
    } else if ctx.investor_position.amount + amount > u64::MAX || ctx.vault.total_value + amount
        > u64::MAX {
        Err(VaultError::ArithmeticOverflow)
    } else {
        Ok(
            DepositEvent {
                investor: ctx.investor,
                amount,
                total_invested: (ctx.investor_position.amount + amount) as u64,
            },
        )
    }
}

/// The records after a deposit of `amount` is booked: the position and the
/// vault's total are both up by `amount`, and nothing else has changed.
pub open spec fn after_deposit(ctx: DepositFunds, amount: u64) -> DepositFunds {
    DepositFunds {
        vault: Vault { total_value: (ctx.vault.total_value + amount) as u64, ..ctx.vault },
        investor_position: InvestorPosition {
            amount: (ctx.investor_position.amount + amount) as u64,
            ..ctx.investor_position
        },
        ..ctx
    }
}

/// Checks a deposit request and names the transfer that it needs.
///
/// Refused with `InvalidAmount` when `amount` is zero; no transfer is to be
/// attempted then.
pub fn deposit_transfer(ctx: &DepositFunds, amount: u64) -> (res: Result<
    TransferInstruction,
    VaultError,
>)
    ensures
        match deposit_refusal(amount) {
            Some(refusal) => res == Err::<TransferInstruction, VaultError>(refusal),
            None => res is Ok && res->Ok_0@ == deposit_instruction(*ctx, amount),
        },
{
    if amount == 0 {
        return Err(VaultError::InvalidAmount);
    }
    let instruction = TransferInstruction {
        from: ctx.investor_token_account,
        to: ctx.vault_token_account,
        authority: ctx.investor,
        signer_seeds: Vec::new(),
        amount,
    };
    assert(instruction@.signer_seeds =~= Seq::<Seq<u8>>::empty());
    Ok(instruction)
}

/// Books a deposit of `amount` whose transfer ended as `transfer`.
///
/// The result is `deposit_outcome`. When it is `Ok`, the records are
/// `after_deposit` and the event is appended to `events`. When it is `Err`,
/// the records and `events` are as they were.
pub fn deposit_funds(
    ctx: &mut DepositFunds,
    amount: u64,
    transfer: Result<(), TransferFailure>,
    events: &mut Vec<VaultEvent>,
) -> (res: Result<DepositEvent, VaultError>)
    ensures
        res == deposit_outcome(*old(ctx), amount, transfer),
        res is Ok ==> *final(ctx) == after_deposit(*old(ctx), amount) && final(events)@ == old(
            events,
        )@.push(VaultEvent::Deposit(res->Ok_0)),
        res is Err ==> *final(ctx) == *old(ctx) && final(events)@ == old(events)@,
{
    if amount == 0 {
        return Err(VaultError::InvalidAmount);
    }
    if let Err(failure) = transfer {
        return Err(VaultError::TransferFailed(failure));
    }
    let total: u64 = match ctx.vault.total_value.checked_add(amount) {
        Some(total) => total,
        None => {
            return Err(VaultError::ArithmeticOverflow);
        },
    };
    if let Err(refusal) = ctx.investor_position.credit(amount) {
        return Err(refusal);
    }
    ctx.vault.total_value = total;
    let event = DepositEvent {
        investor: ctx.investor,
        amount,
        total_invested: ctx.investor_position.amount,
    };
    events.push(VaultEvent::Deposit(event));
    Ok(event)
}

/// Why a withdrawal of `amount` is refused before any transfer, if it is.
///
/// In this order: a zero amount is invalid; the vault's manager cannot
/// withdraw, whatever the position holds; the position must hold the amount.
pub open spec fn withdraw_refusal(ctx: WithdrawFunds, amount: u64) -> Option<VaultError> {
    if amount == 0 {
        Some(VaultError::InvalidAmount)
    } else if ctx.investor == ctx.vault.manager {
        Some(VaultError::ManagerCannotWithdraw)
    } else if ctx.investor_position.amount < amount {
        Some(VaultError::InsufficientFunds)
    } else {
        None
    }
}

/// The transfer that a withdrawal of `amount` needs: from the vault's account
/// to the investor's, on the vault's own authority, with the seeds that
/// derive that authority from the vault's stored name.
pub open spec fn withdraw_instruction(ctx: WithdrawFunds, amount: u64) -> TransferInstructionView {
    TransferInstructionView {
        from: ctx.vault_token_account,
        to: ctx.investor_token_account,
        authority: ctx.vault_authority.address,
        signer_seeds: vault_signer_seeds(ctx.vault.name@, ctx.vault_authority.bump),
        amount,
    }
}

/// How a withdrawal of `amount` ends when the transfer ended as `transfer`.
///
/// A request that `withdraw_refusal` refuses ends with that refusal. Then a
/// failed transfer fails the withdrawal, and a vault total below `amount` is
/// an overflow; otherwise the withdrawal is booked, and the event tells what
/// remains of the position.
pub open spec fn withdraw_outcome(
    ctx: WithdrawFunds,
    amount: u64,
    transfer: Result<(), TransferFailure>,
) -> Result<WithdrawEvent, VaultError> {
    if withdraw_refusal(ctx, amount) is Some {
        Err(withdraw_refusal(ctx, amount)->Some_0)
    } else if transfer is Err {
        Err(VaultError::TransferFailed(transfer->Err_0))
    } else if ctx.vault.total_value < amount {
        Err(VaultError::ArithmeticOverflow)
    } else {
        Ok(
            WithdrawEvent {
                investor: ctx.investor,
                amount,
                remaining_balance: (ctx.investor_position.amount - amount) as u64,
            },
        )
    }
}

/// The records after a withdrawal of `amount` is booked: the position and the
/// vault's total are both down by `amount`, and nothing else has changed.
pub open spec fn after_withdraw(ctx: WithdrawFunds, amount: u64) -> WithdrawFunds {
    WithdrawFunds {
        vault: Vault { total_value: (ctx.vault.total_value - amount) as u64, ..ctx.vault },
        investor_position: InvestorPosition {
            amount: (ctx.investor_position.amount - amount) as u64,
            ..ctx.investor_position
        },
        ..ctx
    }
}

/// Checks a withdrawal request and names the transfer that it needs.
///
/// Refused as `withdraw_refusal` says; no transfer is to be attempted then.
pub fn withdraw_transfer(ctx: &WithdrawFunds, amount: u64) -> (res: Result<
    TransferInstruction,
    VaultError,
>)
    ensures
        match withdraw_refusal(*ctx, amount) {
            Some(refusal) => res == Err::<TransferInstruction, VaultError>(refusal),
            None => res is Ok && res->Ok_0@ == withdraw_instruction(*ctx, amount),
        },
{
    if amount == 0 {
        return Err(VaultError::InvalidAmount);
    }
    if ctx.investor == ctx.vault.manager {
        return Err(VaultError::ManagerCannotWithdraw);
    }
    if ctx.investor_position.amount < amount {
        return Err(VaultError::InsufficientFunds);
    }
    Ok(
        TransferInstruction {
            from: ctx.vault_token_account,
            to: ctx.investor_token_account,
            authority: ctx.vault_authority.address,
            signer_seeds: signer_seeds_of(&ctx.vault.name, ctx.vault_authority.bump),
            amount,
        },
    )
}

/// Books a withdrawal of `amount` whose transfer ended as `transfer`.
///
/// The result is `withdraw_outcome`. When it is `Ok`, the records are
/// `after_withdraw` and the event is appended to `events`. When it is `Err`,
/// the records and `events` are as they were.
pub fn withdraw_funds(
    ctx: &mut WithdrawFunds,
    amount: u64,
    transfer: Result<(), TransferFailure>,
    events: &mut Vec<VaultEvent>,
) -> (res: Result<WithdrawEvent, VaultError>)
    ensures
        res == withdraw_outcome(*old(ctx), amount, transfer),
        res is Ok ==> *final(ctx) == after_withdraw(*old(ctx), amount) && final(events)@ == old(
            events,
        )@.push(VaultEvent::Withdraw(res->Ok_0)),
        res is Err ==> *final(ctx) == *old(ctx) && final(events)@ == old(events)@,
{
    if amount == 0 {
        return Err(VaultError::InvalidAmount);
    }
    if ctx.investor == ctx.vault.manager {
        return Err(VaultError::ManagerCannotWithdraw);
    }
    if ctx.investor_position.amount < amount {
        return Err(VaultError::InsufficientFunds);
    }
    if let Err(failure) = transfer {
        return Err(VaultError::TransferFailed(failure));
    }
    let total: u64 = match ctx.vault.total_value.checked_sub(amount) {
        Some(total) => total,
        None => {
            return Err(VaultError::ArithmeticOverflow);
        },
    };
    if let Err(refusal) = ctx.investor_position.debit(amount) {
        return Err(refusal);
    }
    ctx.vault.total_value = total;
    let event = WithdrawEvent {
        investor: ctx.investor,
        amount,
        remaining_balance: ctx.investor_position.amount,
    };
    events.push(VaultEvent::Withdraw(event));
    Ok(event)
}

} // verus!

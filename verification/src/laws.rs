//! What holds of a vault's books whatever is asked of them.

use vstd::prelude::*;
use crate::book::{distinct_investors, has_position, position_index, total_of, VaultBookView};
use crate::custody::{
    after_deposit,
    after_withdraw,
    deposit_outcome,
    deposit_refusal,
    withdraw_outcome,
    withdraw_refusal,
    CustodyAccounts,
    DepositFunds,
    WithdrawFunds,
};
use crate::error::{TransferFailure, VaultError};
use crate::events::{DepositEvent, WithdrawEvent};
use crate::identity::Identity;
use crate::position::InvestorPosition;
use crate::registry::VaultRegistry;
use crate::vault::Vault;

verus! {

/// Replacing one position changes the sum by the difference of the two
/// amounts.
pub proof fn total_of_update(positions: Seq<InvestorPosition>, i: int, position: InvestorPosition)
    requires
        0 <= i < positions.len(),
    ensures
        total_of(positions.update(i, position)) == total_of(positions) - positions[i].amount
            + position.amount,
    decreases positions.len(),
{
    let updated = positions.update(i, position);
    if i == positions.len() - 1 {
        assert(updated.drop_last() =~= positions.drop_last());
    } else {
        assert(updated.drop_last() =~= positions.drop_last().update(i, position));
        total_of_update(positions.drop_last(), i, position);
    }
}

/// A further position adds its amount to the sum.
pub proof fn total_of_push(positions: Seq<InvestorPosition>, position: InvestorPosition)
    ensures
        total_of(positions.push(position)) == total_of(positions) + position.amount,
{
    assert(positions.push(position).drop_last() =~= positions);
}

/// No position holds more than all of them together.
pub proof fn position_within_total(positions: Seq<InvestorPosition>, i: int)
    requires
        0 <= i < positions.len(),
    ensures
        positions[i].amount <= total_of(positions),
    decreases positions.len(),
{
    total_of_is_not_negative(positions.drop_last());
    if i < positions.len() - 1 {
        position_within_total(positions.drop_last(), i);
    }
}

/// A sum of positions is not negative.
pub proof fn total_of_is_not_negative(positions: Seq<InvestorPosition>)
    ensures
        0 <= total_of(positions),
    decreases positions.len(),
{
    if positions.len() > 0 {
        total_of_is_not_negative(positions.drop_last());
    }
}

/// Writing a position back leaves every other investor's position alone: an
/// investor's position is afterwards the one written back if it is that
/// investor's, and what it was if it is not.
pub proof fn written_back_touches_one_position(
    book: VaultBookView,
    vault: Vault,
    position: InvestorPosition,
    other: Identity,
)
    requires
        distinct_investors(book.positions),
    ensures
        distinct_investors(book.written_back(vault, position).positions),
        book.written_back(vault, position).position_of(other) == (if other == position.investor {
            position
        } else {
            book.position_of(other)
        }),
        has_position(book.written_back(vault, position).positions, other) == (other
            == position.investor || has_position(book.positions, other)),
{
    let before = book.positions;
    let after = book.written_back(vault, position).positions;
    let place = if has_position(before, position.investor) {
        position_index(before, position.investor)
    } else {
        before.len() as int
    };
    assert(after[place] == position);
    assert forall|a: int, b: int| 0 <= a < b < after.len() implies (#[trigger] after[a]).investor
        != (#[trigger] after[b]).investor by {
        if b < before.len() {
            assert(before[a].investor != before[b].investor);
        } else {
            assert(after[a].investor == before[a].investor);
        }
    }
    if other == position.investor {
        assert(after[place].investor == other);
        let k = position_index(after, other);
        assert(after[k].investor == after[place].investor);
        assert(k == place);
    } else if has_position(before, other) {
        let k = position_index(before, other);
        assert(after[k].investor == other);
        let j = position_index(after, other);
        assert(after[j].investor == after[k].investor);
        assert(j == k);
    } else {
        if has_position(after, other) {
            let j = position_index(after, other);
            assert(j != place);
            assert(before[j].investor == other);
        }
    }
}

/// Books stay reconciled when an investor's position and the vault's total
/// change by the same amount and nothing else changes.
pub proof fn written_back_keeps_books_reconciled(
    book: VaultBookView,
    vault: Vault,
    position: InvestorPosition,
    change: int,
)
    requires
        book.reconciled(),
        vault.total_value == book.vault.total_value + change,
        position.amount == book.position_of(position.investor).amount + change,
        position.vault == book.authority.address,
    ensures
        book.written_back(vault, position).reconciled(),
{
    written_back_touches_one_position(book, vault, position, position.investor);
    if has_position(book.positions, position.investor) {
        total_of_update(book.positions, position_index(book.positions, position.investor), position);
    } else {
        total_of_push(book.positions, position);
    }
}

/// The vault's total equals the sum of its positions after a deposit as
/// before it, whether the deposit is booked or refused.
pub proof fn deposit_keeps_books_reconciled(
    book: VaultBookView,
    investor: Identity,
    custody: CustodyAccounts,
    amount: u64,
    transfer: Result<(), TransferFailure>,
)
    requires
        book.reconciled(),
    ensures
        book.deposited(investor, custody, amount, transfer).reconciled(),
{
    let ctx = book.deposit_accounts(investor, custody);
    if deposit_outcome(ctx, amount, transfer) is Ok {
        written_back_keeps_books_reconciled(
            book,
            after_deposit(ctx, amount).vault,
            after_deposit(ctx, amount).investor_position,
            amount as int,
        );
    }
}

/// The vault's total equals the sum of its positions after a withdrawal as
/// before it, whether the withdrawal is booked or refused.
pub proof fn withdrawal_keeps_books_reconciled(
    book: VaultBookView,
    investor: Identity,
    custody: CustodyAccounts,
    amount: u64,
    transfer: Result<(), TransferFailure>,
)
    requires
        book.reconciled(),
    ensures
        book.withdrawn(investor, custody, amount, transfer).reconciled(),
{
    let ctx = book.withdraw_accounts(investor, custody);
    if withdraw_outcome(ctx, amount, transfer) is Ok {
        written_back_keeps_books_reconciled(
            book,
            after_withdraw(ctx, amount).vault,
            after_withdraw(ctx, amount).investor_position,
            -(amount as int),
        );
    }
}

/// In a registry in order, the total of every vault equals the sum of the
/// positions held in it.
pub proof fn registry_totals_match_positions(registry: VaultRegistry, vault: int)
    requires
        registry.wf(),
        0 <= vault < registry@.len(),
    ensures
        registry@[vault].vault.total_value == total_of(registry@[vault].positions),
{
    assert(registry@[vault].reconciled());
}

/// A deposit lowers no position. It raises the depositor's by the amount when
/// it is booked, and leaves every other investor's as it was.
pub proof fn deposit_lowers_no_position(
    book: VaultBookView,
    investor: Identity,
    custody: CustodyAccounts,
    amount: u64,
    transfer: Result<(), TransferFailure>,
    other: Identity,
)
    requires
        book.reconciled(),
    ensures
        book.deposited(investor, custody, amount, transfer).position_of(other).amount
            >= book.position_of(other).amount,
        other != investor ==> book.deposited(investor, custody, amount, transfer).position_of(other)
            == book.position_of(other),
        deposit_outcome(book.deposit_accounts(investor, custody), amount, transfer) is Ok
            ==> book.deposited(investor, custody, amount, transfer).position_of(investor).amount
            == book.position_of(investor).amount + amount,
{
    let ctx = book.deposit_accounts(investor, custody);
    if deposit_outcome(ctx, amount, transfer) is Ok {
        written_back_touches_one_position(
            book,
            after_deposit(ctx, amount).vault,
            after_deposit(ctx, amount).investor_position,
            other,
        );
        written_back_touches_one_position(
            book,
            after_deposit(ctx, amount).vault,
            after_deposit(ctx, amount).investor_position,
            investor,
        );
    }
}

/// A position falls only by a withdrawal that is booked, only the
/// withdrawing investor's, and by exactly the amount withdrawn.
pub proof fn withdrawal_lowers_one_position_by_the_amount(
    book: VaultBookView,
    investor: Identity,
    custody: CustodyAccounts,
    amount: u64,
    transfer: Result<(), TransferFailure>,
    other: Identity,
)
    requires
        book.reconciled(),
    ensures
        other != investor ==> book.withdrawn(investor, custody, amount, transfer).position_of(other)
            == book.position_of(other),
        withdraw_outcome(book.withdraw_accounts(investor, custody), amount, transfer) is Err
            ==> book.withdrawn(investor, custody, amount, transfer).position_of(other)
            == book.position_of(other),
        withdraw_outcome(book.withdraw_accounts(investor, custody), amount, transfer) is Ok
            ==> book.withdrawn(investor, custody, amount, transfer).position_of(investor).amount
            == book.position_of(investor).amount - amount,
{
    let ctx = book.withdraw_accounts(investor, custody);
    if withdraw_outcome(ctx, amount, transfer) is Ok {
        written_back_touches_one_position(
            book,
            after_withdraw(ctx, amount).vault,
            after_withdraw(ctx, amount).investor_position,
            other,
        );
        written_back_touches_one_position(
            book,
            after_withdraw(ctx, amount).vault,
            after_withdraw(ctx, amount).investor_position,
            investor,
        );
    }
}

/// On reconciled books the arithmetic of a request fails only where the
/// vault's total would leave `u64`: a deposit overflows exactly when the total
/// and the amount do not fit together, and a withdrawal never does.
pub proof fn reconciled_books_overflow_only_in_the_total(
    book: VaultBookView,
    investor: Identity,
    custody: CustodyAccounts,
    amount: u64,
    transfer: Result<(), TransferFailure>,
)
    requires
        book.reconciled(),
    ensures
        book.position_of(investor).amount <= book.vault.total_value,
        deposit_outcome(book.deposit_accounts(investor, custody), amount, transfer) == Err::<
            DepositEvent,
            VaultError,
        >(VaultError::ArithmeticOverflow) <==> amount > 0 && transfer is Ok
            && book.vault.total_value + amount > u64::MAX,
        withdraw_outcome(book.withdraw_accounts(investor, custody), amount, transfer) != Err::<
            WithdrawEvent,
            VaultError,
        >(VaultError::ArithmeticOverflow),
{
    if has_position(book.positions, investor) {
        position_within_total(book.positions, position_index(book.positions, investor));
    }
}

/// A request that is refused, for whatever reason, changes nothing on the
/// books.
pub proof fn refusal_changes_nothing(
    book: VaultBookView,
    investor: Identity,
    custody: CustodyAccounts,
    amount: u64,
    transfer: Result<(), TransferFailure>,
)
    ensures
        deposit_outcome(book.deposit_accounts(investor, custody), amount, transfer) is Err
            ==> book.deposited(investor, custody, amount, transfer) == book,
        withdraw_outcome(book.withdraw_accounts(investor, custody), amount, transfer) is Err
            ==> book.withdrawn(investor, custody, amount, transfer) == book,
{
}

/// A request that is refused before the transfer is refused for the same
/// reason whatever a transfer would have done, so none needs to be attempted
/// for it.
pub proof fn refusal_before_transfer_stands(
    deposit: DepositFunds,
    withdrawal: WithdrawFunds,
    amount: u64,
    transfer: Result<(), TransferFailure>,
)
    ensures
        deposit_refusal(amount) matches Some(refusal) ==> deposit_outcome(deposit, amount, transfer)
            == Err::<DepositEvent, VaultError>(refusal),
        withdraw_refusal(withdrawal, amount) matches Some(refusal) ==> withdraw_outcome(
            withdrawal,
            amount,
            transfer,
        ) == Err::<WithdrawEvent, VaultError>(refusal),
{
}

/// The manager of a vault cannot withdraw from it: a withdrawal of a valid
/// amount by the manager is refused with `ManagerCannotWithdraw` before any
/// transfer, whatever the position holds.
pub proof fn manager_cannot_withdraw(
    ctx: WithdrawFunds,
    amount: u64,
    transfer: Result<(), TransferFailure>,
)
    requires
        ctx.investor == ctx.vault.manager,
        amount > 0,
    ensures
        withdraw_refusal(ctx, amount) == Some(VaultError::ManagerCannotWithdraw),
        withdraw_outcome(ctx, amount, transfer) == Err::<WithdrawEvent, VaultError>(
            VaultError::ManagerCannotWithdraw,
        ),
{
}

/// The same of a vault's books: a withdrawal of a valid amount by the vault's
/// manager is refused with `ManagerCannotWithdraw`, also where the manager
/// has a position of its own, and the books stay as they are.
pub proof fn manager_cannot_withdraw_from_books(
    book: VaultBookView,
    custody: CustodyAccounts,
    amount: u64,
    transfer: Result<(), TransferFailure>,
)
    requires
        amount > 0,
    ensures
        withdraw_outcome(book.withdraw_accounts(book.vault.manager, custody), amount, transfer)
            == Err::<WithdrawEvent, VaultError>(VaultError::ManagerCannotWithdraw),
        book.withdrawn(book.vault.manager, custody, amount, transfer) == book,
{
}

/// Neither a deposit nor a withdrawal changes who manages a vault, what it is
/// called, or what it signs with.
pub proof fn manager_and_name_are_fixed(
    book: VaultBookView,
    investor: Identity,
    custody: CustodyAccounts,
    amount: u64,
    transfer: Result<(), TransferFailure>,
)
    ensures
        book.deposited(investor, custody, amount, transfer).vault.manager == book.vault.manager,
        book.deposited(investor, custody, amount, transfer).vault.name == book.vault.name,
        book.deposited(investor, custody, amount, transfer).authority == book.authority,
        book.withdrawn(investor, custody, amount, transfer).vault.manager == book.vault.manager,
        book.withdrawn(investor, custody, amount, transfer).vault.name == book.vault.name,
        book.withdrawn(investor, custody, amount, transfer).authority == book.authority,
{
}

} // verus!

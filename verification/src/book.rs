//! The books of one vault: its record and the positions of its investors.
//!
//! The books are reconciled at all times: no investor has two positions, every
//! position names the vault it belongs to, and the vault's total is the sum of
//! the positions. A deposit or a withdrawal resolves the records it needs
//! from the books, has `custody` book it on them, and writes them back only
//! if it was booked.

use vstd::prelude::*;
use crate::custody::{
    after_deposit,
    after_withdraw,
    create_vault,
    deposit_funds,
    deposit_outcome,
    withdraw_funds,
    withdraw_outcome,
    CreateVault,
    CustodyAccounts,
    DepositFunds,
    WithdrawFunds,
};
use crate::error::{TransferFailure, VaultError};
use crate::events::{DepositEvent, VaultEvent, WithdrawEvent};
use crate::identity::Identity;
use crate::laws::{deposit_keeps_books_reconciled, withdrawal_keeps_books_reconciled};
use crate::position::InvestorPosition;
use crate::transfer::DerivedAuthority;
use crate::vault::Vault;

verus! {

/// The sum of what `positions` hold.
pub open spec fn total_of(positions: Seq<InvestorPosition>) -> int
    decreases positions.len(),
{
    if positions.len() == 0 {
        0
    } else {
        total_of(positions.drop_last()) + positions.last().amount
    }
}

/// Whether `investor` has a position among `positions`.
pub open spec fn has_position(positions: Seq<InvestorPosition>, investor: Identity) -> bool {
    exists|i: int| 0 <= i < positions.len() && #[trigger] positions[i].investor == investor
}

/// Where among `positions` the position of `investor` stands, if there is one.
pub open spec fn position_index(positions: Seq<InvestorPosition>, investor: Identity) -> int {
    choose|i: int| 0 <= i < positions.len() && #[trigger] positions[i].investor == investor
}

/// Whether no investor has two positions among `positions`.
pub open spec fn distinct_investors(positions: Seq<InvestorPosition>) -> bool {
    forall|i: int, j: int|
        0 <= i < j < positions.len() ==> #[trigger] positions[i].investor
            != #[trigger] positions[j].investor
}

/// The books of one vault as a mathematical value.
pub struct VaultBookView {
    pub authority: DerivedAuthority,
    pub vault: Vault,
    pub positions: Seq<InvestorPosition>,
}

impl VaultBookView {
    /// Whether the books are in order: one position for each investor, each
    /// naming this vault, and the vault's total equal to their sum.
    pub open spec fn reconciled(self) -> bool {
        &&& distinct_investors(self.positions)
        &&& forall|i: int|
            0 <= i < self.positions.len() ==> (#[trigger] self.positions[i]).vault
                == self.authority.address
        &&& self.vault.total_value == total_of(self.positions)
    }

    /// The position of `investor`: the one on the books, or a new one that
    /// holds nothing where the investor has none yet.
    pub open spec fn position_of(self, investor: Identity) -> InvestorPosition {
        if has_position(self.positions, investor) {
            self.positions[position_index(self.positions, investor)]
        } else {
            InvestorPosition { vault: self.authority.address, investor, amount: 0 }
        }
    }

    /// The records that a deposit by `investor` works on.
    pub open spec fn deposit_accounts(
        self,
        investor: Identity,
        custody: CustodyAccounts,
    ) -> DepositFunds {
        DepositFunds {
            vault: self.vault,
            investor,
            token_mint: custody.token_mint,
            investor_token_account: custody.investor_token_account,
            investor_position: self.position_of(investor),
            vault_token_account: custody.vault_token_account,
        }
    }

    /// The records that a withdrawal by `investor` works on.
    pub open spec fn withdraw_accounts(
        self,
        investor: Identity,
        custody: CustodyAccounts,
    ) -> WithdrawFunds {
        WithdrawFunds {
            vault: self.vault,
            vault_authority: self.authority,
            investor,
            token_mint: custody.token_mint,
            investor_token_account: custody.investor_token_account,
            investor_position: self.position_of(investor),
            vault_token_account: custody.vault_token_account,
        }
    }

    /// The books after a deposit of `amount` by `investor` whose transfer ended
    /// as `transfer`: with the vault's record and the investor's position
    /// written back as `after_deposit` has them where the deposit is booked,
    /// and unchanged where it is refused.
    pub open spec fn deposited(
        self,
        investor: Identity,
        custody: CustodyAccounts,
        amount: u64,
        transfer: Result<(), TransferFailure>,
    ) -> VaultBookView {
        let ctx = self.deposit_accounts(investor, custody);
        if deposit_outcome(ctx, amount, transfer) is Ok {
            self.written_back(
                after_deposit(ctx, amount).vault,
                after_deposit(ctx, amount).investor_position,
            )
        } else {
            self
        }
    }

    /// The books after a withdrawal of `amount` by `investor` whose transfer
    /// ended as `transfer`: with the vault's record and the investor's
    /// position written back as `after_withdraw` has them where the withdrawal
    /// is booked, and unchanged where it is refused.
    pub open spec fn withdrawn(
        self,
        investor: Identity,
        custody: CustodyAccounts,
        amount: u64,
        transfer: Result<(), TransferFailure>,
    ) -> VaultBookView {
        let ctx = self.withdraw_accounts(investor, custody);
        if withdraw_outcome(ctx, amount, transfer) is Ok {
            self.written_back(
                after_withdraw(ctx, amount).vault,
                after_withdraw(ctx, amount).investor_position,
            )
        } else {
            self
        }
    }

    /// The books with `vault` as the vault's record and `position` written
    /// back: in the place of its investor's position where there is one,
    /// behind all others where there is none.
    pub open spec fn written_back(self, vault: Vault, position: InvestorPosition) -> VaultBookView {
        VaultBookView {
            authority: self.authority,
            vault,
            positions: if has_position(self.positions, position.investor) {
                self.positions.update(position_index(self.positions, position.investor), position)
            } else {
                self.positions.push(position)
            },
        }
    }
}

/// The books of one vault.
#[derive(Debug)]
pub struct VaultBook {
    authority: DerivedAuthority,
    vault: Vault,
    positions: Vec<InvestorPosition>,
}

impl View for VaultBook {
    type V = VaultBookView;

    closed spec fn view(&self) -> VaultBookView {
        VaultBookView {
            authority: self.authority,
            vault: self.vault,
            positions: self.positions@,
        }
    }
}

impl VaultBook {
    /// Whether the books are in order. Every book that this library hands out
    /// is, before and after each operation.
    pub open spec fn wf(&self) -> bool {
        self@.reconciled()
    }

    /// Opens the books of a new vault called `name`, managed by `manager` and
    /// signing with `authority`. The vault holds nothing and has no positions.
    pub fn open(authority: DerivedAuthority, manager: Identity, name: String) -> (book: Self)
        ensures
            book.wf(),
            book@ == (VaultBookView {
                authority,
                vault: Vault { manager, name, total_value: 0 },
                positions: Seq::empty(),
            }),
    {
        let mut ctx = CreateVault { vault: Vault::blank(), manager };
        let _ = create_vault(&mut ctx, name);
        VaultBook { authority, vault: ctx.vault, positions: Vec::new() }
    }

    /// The vault's signing authority.
    pub fn authority(&self) -> (authority: DerivedAuthority)
        ensures
            authority == self@.authority,
    {
        self.authority
    }

    /// The vault's record.
    pub fn vault(&self) -> (vault: &Vault)
        ensures
            *vault == self@.vault,
    {
        &self.vault
    }

    /// The positions on the books, in the order of the investors' first
    /// deposits.
    pub fn positions(&self) -> (positions: &Vec<InvestorPosition>)
        ensures
            positions@ == self@.positions,
    {
        &self.positions
    }

    /// Where the position of `investor` stands on the books, if there is one.
    fn find_position(&self, investor: &Identity) -> (found: Option<usize>)
        requires
            self.wf(),
        ensures
            match found {
                Some(i) => has_position(self@.positions, *investor) && i == position_index(
                    self@.positions,
                    *investor,
                ) && i < self@.positions.len(),
                None => !has_position(self@.positions, *investor),
            },
    {
        let mut i: usize = 0;
        while i < self.positions.len()
            invariant
                self.wf(),
                i <= self.positions.len(),
                forall|j: int| 0 <= j < i ==> (#[trigger] self.positions@[j]).investor != *investor,
            decreases self.positions.len() - i,
        {
            if self.positions[i].investor == *investor {
                proof {
                    let k = position_index(self@.positions, *investor);
                    assert(self@.positions[i as int].investor == *investor);
                    assert(self@.positions[k].investor == *investor);
                    assert(k == i);
                }
                return Some(i);
            }
            i += 1;
        }
        None
    }

    /// The position of `investor` as it stands on the books, if there is one.
    pub fn position(&self, investor: &Identity) -> (found: Option<InvestorPosition>)
        requires
            self.wf(),
        ensures
            found == (if has_position(self@.positions, *investor) {
                Some(self@.position_of(*investor))
            } else {
                None
            }),
    {
        match self.find_position(investor) {
            Some(i) => Some(self.positions[i]),
            None => None,
        }
    }

    /// The position of `investor`: the one on the books, or a new one that
    /// holds nothing where the investor has none yet. The books themselves do
    /// not change: a new position is written to them with the first deposit
    /// that is booked.
    pub fn get_or_create(&self, investor: Identity) -> (position: InvestorPosition)
        requires
            self.wf(),
        ensures
            position == self@.position_of(investor),
            position.investor == investor,
            position.vault == self@.authority.address,
    {
        match self.find_position(&investor) {
            Some(i) => self.positions[i],
            None => InvestorPosition::new(self.authority.address, investor),
        }
    }

    /// Resolves the records that a deposit by `investor` works on.
    pub fn deposit_accounts(&self, investor: Identity, custody: &CustodyAccounts) -> (ctx:
        DepositFunds)
        requires
            self.wf(),
        ensures
            ctx == self@.deposit_accounts(investor, *custody),
    {
        DepositFunds {
            vault: self.vault.clone(),
            investor,
            token_mint: custody.token_mint,
            investor_token_account: custody.investor_token_account,
            investor_position: self.get_or_create(investor),
            vault_token_account: custody.vault_token_account,
        }
    }

    /// Resolves the records that a withdrawal by `investor` works on.
    pub fn withdraw_accounts(&self, investor: Identity, custody: &CustodyAccounts) -> (ctx:
        WithdrawFunds)
        requires
            self.wf(),
        ensures
            ctx == self@.withdraw_accounts(investor, *custody),
    {
        WithdrawFunds {
            vault: self.vault.clone(),
            vault_authority: self.authority,
            investor,
            token_mint: custody.token_mint,
            investor_token_account: custody.investor_token_account,
            investor_position: self.get_or_create(investor),
            vault_token_account: custody.vault_token_account,
        }
    }

    /// Writes `vault` and `position` back to the books.
    fn write_back(&mut self, vault: Vault, position: InvestorPosition)
        requires
            old(self).wf(),
        ensures
            final(self)@ == old(self)@.written_back(vault, position),
    {
        match self.find_position(&position.investor) {
            Some(i) => {
                self.positions[i] = position;
            },
            None => {
                self.positions.push(position);
            },
        }
        self.vault = vault;
    }

    /// Books a deposit of `amount` by `investor` whose transfer ended as
    /// `transfer`.
    ///
    /// The deposit is booked on the records that `deposit_accounts` resolves,
    /// as `deposit_funds` books it. When it is booked, the vault's record and
    /// the investor's position are written back, and the event is appended to
    /// `events`. When it is refused, the books and `events` are as they were.
    pub fn deposit(
        &mut self,
        investor: Identity,
        custody: &CustodyAccounts,
        amount: u64,
        transfer: Result<(), TransferFailure>,
        events: &mut Vec<VaultEvent>,
    ) -> (res: Result<DepositEvent, VaultError>)
        requires
            old(self).wf(),
        ensures
            final(self).wf(),
            res == deposit_outcome(old(self)@.deposit_accounts(investor, *custody), amount, transfer),
            final(self)@ == old(self)@.deposited(investor, *custody, amount, transfer),
            res is Ok ==> final(events)@ == old(events)@.push(VaultEvent::Deposit(res->Ok_0)),
            res is Err ==> final(self)@ == old(self)@ && final(events)@ == old(events)@,
    {
        let mut ctx = self.deposit_accounts(investor, custody);
        let res = deposit_funds(&mut ctx, amount, transfer, events);
        if res.is_ok() {
            proof {
                deposit_keeps_books_reconciled(self@, investor, *custody, amount, transfer);
            }
            self.write_back(ctx.vault, ctx.investor_position);
        }
        res
    }

    /// Books a withdrawal of `amount` by `investor` whose transfer ended as
    /// `transfer`.
    ///
    /// The withdrawal is booked on the records that `withdraw_accounts`
    /// resolves, as `withdraw_funds` books it. When it is booked, the vault's
    /// record and the investor's position are written back, and the event is
    /// appended to `events`. When it is refused, the books and `events` are as
    /// they were.
    pub fn withdraw(
        &mut self,
        investor: Identity,
        custody: &CustodyAccounts,
        amount: u64,
        transfer: Result<(), TransferFailure>,
        events: &mut Vec<VaultEvent>,
    ) -> (res: Result<WithdrawEvent, VaultError>)
        requires
            old(self).wf(),
        ensures
            final(self).wf(),
            res == withdraw_outcome(
                old(self)@.withdraw_accounts(investor, *custody),
                amount,
                transfer,
            ),
            final(self)@ == old(self)@.withdrawn(investor, *custody, amount, transfer),
            res is Ok ==> final(events)@ == old(events)@.push(VaultEvent::Withdraw(res->Ok_0)),
            res is Err ==> final(self)@ == old(self)@ && final(events)@ == old(events)@,
    {
        let mut ctx = self.withdraw_accounts(investor, custody);
        let res = withdraw_funds(&mut ctx, amount, transfer, events);
        if res.is_ok() {
            proof {
                withdrawal_keeps_books_reconciled(self@, investor, *custody, amount, transfer);
            }
            self.write_back(ctx.vault, ctx.investor_position);
        }
        res
    }
}

} // verus!

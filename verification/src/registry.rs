//! The registry of vaults, keyed by name.
//!
//! A name identifies at most one vault. A vault, once created, is never
//! removed, so the place that `create` returns for it stays its place.

use vstd::prelude::*;
use crate::book::{VaultBook, VaultBookView};
use crate::custody::{deposit_outcome, withdraw_outcome, CustodyAccounts};
use crate::error::{TransferFailure, VaultError};
use crate::events::{DepositEvent, VaultEvent, WithdrawEvent};
use crate::identity::Identity;
use crate::transfer::DerivedAuthority;
use crate::vault::Vault;

verus! {

/// Whether one of `books` is of a vault called `name`.
pub open spec fn has_vault(books: Seq<VaultBookView>, name: Seq<char>) -> bool {
    exists|i: int| 0 <= i < books.len() && (#[trigger] books[i]).vault.name@ == name
}

/// Where among `books` the vault called `name` stands, if there is one.
pub open spec fn vault_index(books: Seq<VaultBookView>, name: Seq<char>) -> int {
    choose|i: int| 0 <= i < books.len() && (#[trigger] books[i]).vault.name@ == name
}

/// Whether no two of `books` are of vaults with the same name.
pub open spec fn distinct_names(books: Seq<VaultBookView>) -> bool {
    forall|i: int, j: int|
        0 <= i < j < books.len() ==> (#[trigger] books[i]).vault.name@ != (
        #[trigger] books[j]).vault.name@
}

/// All vaults, each with its books.
#[derive(Debug)]
pub struct VaultRegistry {
    books: Vec<VaultBook>,
}

impl View for VaultRegistry {
    type V = Seq<VaultBookView>;

    closed spec fn view(&self) -> Seq<VaultBookView> {
        Seq::new(self.books@.len(), |i: int| self.books@[i]@)
    }
}

impl VaultRegistry {
    /// Whether the registry is in order: no two vaults share a name, and the
    /// books of every vault are reconciled. Every registry that this library
    /// hands out is, before and after each operation.
    pub open spec fn wf(&self) -> bool {
        &&& distinct_names(self@)
        &&& forall|i: int| 0 <= i < self@.len() ==> (#[trigger] self@[i]).reconciled()
    }

    /// A registry without vaults.
    pub fn new() -> (registry: Self)
        ensures
            registry.wf(),
            registry@ == Seq::<VaultBookView>::empty(),
    {
        VaultRegistry { books: Vec::new() }
    }

    /// How many vaults there are.
    pub fn len(&self) -> (len: usize)
        ensures
            len == self@.len(),
    {
        self.books.len()
    }

    /// The place of the vault called `name`, if there is one.
    pub fn find(&self, name: &String) -> (found: Option<usize>)
        requires
            self.wf(),
        ensures
            match found {
                Some(i) => has_vault(self@, name@) && i == vault_index(self@, name@) && i
                    < self@.len(),
                None => !has_vault(self@, name@),
            },
    {
        let mut i: usize = 0;
        while i < self.books.len()
            invariant
                self.wf(),
                i <= self.books.len(),
                forall|j: int| 0 <= j < i ==> (#[trigger] self@[j]).vault.name@ != name@,
            decreases self.books.len() - i,
        {
            if self.books[i].vault().name == *name {
                proof {
                    let k = vault_index(self@, name@);
                    assert(self@[i as int].vault.name@ == name@);
                    assert(self@[k].vault.name@ == name@);
                    assert(k == i);
                }
                return Some(i);
            }
            i += 1;
        }
        None
    }

    /// Creates the vault called `name`, managed by `manager` and signing with
    /// `authority`, and returns its place. The new vault holds nothing and has
    /// no positions, and stands behind all others.
    ///
    /// Refused with `AlreadyExists`, and the registry left as it was, when
    /// there is a vault of that name.
    pub fn create(&mut self, name: String, manager: Identity, authority: DerivedAuthority) -> (res:
        Result<usize, VaultError>)
        requires
            old(self).wf(),
        ensures
            final(self).wf(),
            has_vault(old(self)@, name@) ==> res == Err::<usize, VaultError>(
                VaultError::AlreadyExists,
            ) && final(self)@ == old(self)@,
            !has_vault(old(self)@, name@) ==> res == Ok::<usize, VaultError>(
                old(self)@.len() as usize,
            ) && final(self)@ == old(self)@.push(
                VaultBookView {
                    authority,
                    vault: Vault { manager, name, total_value: 0 },
                    positions: Seq::empty(),
                },
            ),
    {
        if self.find(&name).is_some() {
            return Err(VaultError::AlreadyExists);
        }
        let place: usize = self.books.len();
        let book = VaultBook::open(authority, manager, name);
        self.books.push(book);
        proof {
            assert(self@ =~= old(self)@.push(book@));
            assert forall|i: int, j: int| 0 <= i < j < self@.len() implies (
            #[trigger] self@[i]).vault.name@ != (#[trigger] self@[j]).vault.name@ by {
                if j < old(self)@.len() {
                    assert(old(self)@[i].vault.name@ != old(self)@[j].vault.name@);
                } else {
                    assert(old(self)@[i].vault.name@ != name@);
                }
            }
        }
        Ok(place)
    }

    /// The books of the vault at `vault`.
    pub fn book(&self, vault: usize) -> (book: &VaultBook)
        requires
            vault < self@.len(),
        ensures
            book@ == self@[vault as int],
    {
        &self.books[vault]
    }

    /// Books a deposit into the vault at `vault`, as `VaultBook::deposit`
    /// does. No other vault changes.
    pub fn deposit(
        &mut self,
        vault: usize,
        investor: Identity,
        custody: &CustodyAccounts,
        amount: u64,
        transfer: Result<(), TransferFailure>,
        events: &mut Vec<VaultEvent>,
    ) -> (res: Result<DepositEvent, VaultError>)
        requires
            old(self).wf(),
            vault < old(self)@.len(),
        ensures
            final(self).wf(),
            res == deposit_outcome(
                old(self)@[vault as int].deposit_accounts(investor, *custody),
                amount,
                transfer,
            ),
            final(self)@ == old(self)@.update(
                vault as int,
                old(self)@[vault as int].deposited(investor, *custody, amount, transfer),
            ),
            res is Ok ==> final(events)@ == old(events)@.push(VaultEvent::Deposit(res->Ok_0)),
            res is Err ==> final(self)@ == old(self)@ && final(events)@ == old(events)@,
    {
        let res = self.books[vault].deposit(investor, custody, amount, transfer, events);
        proof {
            assert(self@ =~= old(self)@.update(vault as int, self.books@[vault as int]@));
            self.lemma_names_kept(*old(self), vault as int);
        }
        res
    }

    /// Books a withdrawal from the vault at `vault`, as `VaultBook::withdraw`
    /// does. No other vault changes.
    pub fn withdraw(
        &mut self,
        vault: usize,
        investor: Identity,
        custody: &CustodyAccounts,
        amount: u64,
        transfer: Result<(), TransferFailure>,
        events: &mut Vec<VaultEvent>,
    ) -> (res: Result<WithdrawEvent, VaultError>)
        requires
            old(self).wf(),
            vault < old(self)@.len(),
        ensures
            final(self).wf(),
            res == withdraw_outcome(
                old(self)@[vault as int].withdraw_accounts(investor, *custody),
                amount,
                transfer,
            ),
            final(self)@ == old(self)@.update(
                vault as int,
                old(self)@[vault as int].withdrawn(investor, *custody, amount, transfer),
            ),
            res is Ok ==> final(events)@ == old(events)@.push(VaultEvent::Withdraw(res->Ok_0)),
            res is Err ==> final(self)@ == old(self)@ && final(events)@ == old(events)@,
    {
        let res = self.books[vault].withdraw(investor, custody, amount, transfer, events);
        proof {
            assert(self@ =~= old(self)@.update(vault as int, self.books@[vault as int]@));
            self.lemma_names_kept(*old(self), vault as int);
        }
        res
    }

    /// A registry that differs from a registry in order only in the books of
    /// one vault, which kept its name and are reconciled, is in order.
    proof fn lemma_names_kept(self, before: Self, vault: int)
        requires
            before.wf(),
            0 <= vault < before@.len(),
            self@ == before@.update(vault, self@[vault]),
            self@[vault].vault.name@ == before@[vault].vault.name@,
            self@[vault].reconciled(),
        ensures
            self.wf(),
    {
        assert forall|i: int, j: int| 0 <= i < j < self@.len() implies (
        #[trigger] self@[i]).vault.name@ != (#[trigger] self@[j]).vault.name@ by {
            assert(before@[i].vault.name@ != before@[j].vault.name@);
        }
        assert forall|i: int| 0 <= i < self@.len() implies (#[trigger] self@[i]).reconciled() by {
            if i != vault {
                assert(before@[i].reconciled());
            }
        }
    }
}

} // verus!

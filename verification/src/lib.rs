//! Custody and accounting core of a named fund vault.
//!
//! A vault pools deposits of one fungible asset from many investors. The
//! library decides who may move funds and how much, and keeps the books: each
//! investor's position, and the vault's total, which always equals the sum of
//! the positions. Moving the asset itself is left to the caller: the library
//! says which transfer an operation needs, and books the operation once the
//! caller reports how that transfer went.
//!
//! `custody` holds the three operations on the records of one request.
//! `book` keeps the records of one vault and `registry` those of all vaults.
//! `laws` states what holds of the books whatever is asked of them.

pub mod book;
pub mod custody;
pub mod error;
pub mod events;
pub mod identity;
pub mod laws;
pub mod position;
pub mod registry;
pub mod transfer;
pub mod vault;

pub use crate::book::VaultBook;
pub use crate::custody::{
    create_vault, deposit_funds, deposit_transfer, withdraw_funds, withdraw_transfer,
    CreateVault, CustodyAccounts, DepositFunds, WithdrawFunds,
};
pub use crate::error::{TransferFailure, VaultError};
pub use crate::events::{DepositEvent, VaultEvent, WithdrawEvent};
pub use crate::identity::Identity;
pub use crate::position::InvestorPosition;
pub use crate::registry::VaultRegistry;
pub use crate::transfer::{signer_seeds_of, DerivedAuthority, TransferInstruction};
pub use crate::vault::Vault;

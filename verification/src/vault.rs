//! The record of a vault.

use vstd::prelude::*;
use crate::identity::Identity;

verus! {

/// A named pool of funds.
///
/// `manager` and `name` are fixed when the vault is created. `total_value` is
/// the sum of what the vault's investors hold in it, and changes only with a
/// deposit or a withdrawal.
#[derive(Debug, PartialEq, Eq)]
pub struct Vault {
    pub manager: Identity,
    pub name: String,
    pub total_value: u64,
}

impl Vault {
    /// A record that no vault has been written to yet: no manager, no name,
    /// nothing held.
    pub fn blank() -> (vault: Self)
        ensures
            vault.manager.bytes@ == Seq::new(32, |i: int| 0u8),
            vault.name@ == Seq::<char>::empty(),
            vault.total_value == 0,
    {
        Vault { manager: Identity::new([0u8; 32]), name: String::new(), total_value: 0 }
    }
}

impl Clone for Vault {
    fn clone(&self) -> (copy: Self)
        ensures
            copy == *self,
    {
        Vault { manager: self.manager, name: self.name.clone(), total_value: self.total_value }
    }
}

} // verus!

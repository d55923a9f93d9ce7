//! What the library asks of the asset-transfer primitive.
//!
//! The library never moves the asset itself. An operation names the transfer
//! that it needs; the caller has the primitive perform it and reports the
//! outcome. A deposit is authorised by the investor. A withdrawal is
//! authorised by no person: its authority is derived from the vault's name,
//! and the seeds of that derivation go with the instruction.

use vstd::prelude::*;
use vstd::slice::slice_to_vec;
use vstd::utf8::encode_utf8;
use crate::identity::Identity;

verus! {

/// The signing authority of a vault: the address that the vault's name
/// derives, and the bump with which it does.
#[derive(Clone, Copy, Debug, PartialEq, Eq)]
pub struct DerivedAuthority {
    pub address: Identity,
    pub bump: u8,
}

/// One transfer between two asset-holding accounts.
///
/// `signer_seeds` is empty where `authority` signs for itself, and holds the
/// seeds that derive `authority` where it is a vault's.
#[derive(Debug, PartialEq, Eq)]
pub struct TransferInstruction {
    pub from: Identity,
    pub to: Identity,
    pub authority: Identity,
    pub signer_seeds: Vec<Vec<u8>>,
    pub amount: u64,
}

/// A `TransferInstruction` as a mathematical value.
pub struct TransferInstructionView {
    pub from: Identity,
    pub to: Identity,
    pub authority: Identity,
    pub signer_seeds: Seq<Seq<u8>>,
    pub amount: u64,
}

impl View for TransferInstruction {
    type V = TransferInstructionView;

    open spec fn view(&self) -> TransferInstructionView {
        TransferInstructionView {
            from: self.from,
            to: self.to,
            authority: self.authority,
            signer_seeds: self.signer_seeds.deep_view(),
            amount: self.amount,
        }
    }
}

/// The bytes that every derivation of a vault's authority starts with.
pub open spec fn vault_seed_prefix() -> Seq<u8> {
    encode_utf8("asset_vault"@)
}

/// The seeds that derive the authority of the vault called `name`: the
/// prefix, the name's bytes, and the bump.
pub open spec fn vault_signer_seeds(name: Seq<char>, bump: u8) -> Seq<Seq<u8>> {
    seq![vault_seed_prefix(), encode_utf8(name), seq![bump]]
}

/// Builds the seeds that derive the authority of the vault called `name`.
pub fn signer_seeds_of(name: &String, bump: u8) -> (seeds: Vec<Vec<u8>>)
    ensures
        seeds.deep_view() == vault_signer_seeds(name@, bump),
{
    let prefix = slice_to_vec("asset_vault".as_bytes());
    let name_bytes = slice_to_vec(name.as_str().as_bytes());
    let mut bump_bytes: Vec<u8> = Vec::new();
    bump_bytes.push(bump);
    let mut seeds: Vec<Vec<u8>> = Vec::new();
    seeds.push(prefix);
    seeds.push(name_bytes);
    seeds.push(bump_bytes);
    assert(seeds.deep_view() =~= vault_signer_seeds(name@, bump)) by {
        assert(seeds[0].deep_view() =~= vault_seed_prefix());
        assert(seeds[1].deep_view() =~= encode_utf8(name@));
        assert(seeds[2].deep_view() =~= seq![bump]);
    }
    seeds
}

} // verus!

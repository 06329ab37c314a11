//! Which token account a permissionless call is about, as a user names it:
//! by its address, or by a wallet and a mint, which stand for the wallet's
//! associated token account.

use crate::native::{spec_token_program_id, token_program_id};
use crate::pubkey::{derived_address, Pubkey};
use vstd::prelude::*;

verus! {

/// The address of the associated token account program,
/// `ATokenGPvbdGVxr1b2hvZbsiqW5xWH25efTNsLJA8knL`.
pub const ASSOCIATED_TOKEN_PROGRAM_ID: [u8; 32] = [
    140, 151, 37, 143, 78, 36, 137, 241, 187, 61, 16, 41, 20, 142, 13, 131,
    11, 90, 19, 153, 218, 255, 16, 132, 4, 142, 123, 216, 219, 233, 248, 89,
];

/// What a user names.
#[derive(Clone, Copy, Debug, PartialEq, Eq)]
pub enum Target {
    /// A token account that exists. Its mint and owner are read from it.
    TokenAccount { token_account: Pubkey },
    /// The associated token account of `owner` for `mint`, which is created
    /// in the same transaction.
    Wallet { mint: Pubkey, owner: Pubkey },
}

/// The target that the three optional addresses name: a token account alone,
/// or a mint together with an owner. Every other combination names nothing.
pub open spec fn spec_select(mint: Option<Pubkey>, token_account: Option<Pubkey>, owner: Option<Pubkey>) -> Option<
    Target,
> {
    match (mint, token_account, owner) {
        (None, Some(token_account), None) => Some(Target::TokenAccount { token_account }),
        (Some(mint), None, Some(owner)) => Some(Target::Wallet { mint, owner }),
        _ => None,
    }
}

/// The target that the three optional addresses name.
pub fn select(mint: Option<Pubkey>, token_account: Option<Pubkey>, owner: Option<Pubkey>) -> (r: Option<Target>)
    ensures
        r == spec_select(mint, token_account, owner),
{
    match (mint, token_account, owner) {
        (None, Some(token_account), None) => Some(Target::TokenAccount { token_account }),
        (Some(mint), None, Some(owner)) => Some(Target::Wallet { mint, owner }),
        _ => None,
    }
}

/// The seeds of an associated token account: the wallet, the token program
/// and the mint.
pub open spec fn associated_seeds(owner: Pubkey, mint: Pubkey) -> Seq<Seq<u8>> {
    seq![owner.bytes(), spec_token_program_id().bytes(), mint.bytes()]
}

/// The address of the associated token account of `owner` for `mint` under
/// the token program with extensions; `None` where the seeds derive none.
pub fn find_associated_token_address(owner: &Pubkey, mint: &Pubkey) -> (r: Option<Pubkey>)
    ensures
        match derived_address(associated_seeds(*owner, *mint), Pubkey(ASSOCIATED_TOKEN_PROGRAM_ID)) {
            Some(found) => r == Some(found.0),
            None => r is None,
        },
{
    let mut seeds: Vec<Vec<u8>> = Vec::new();
    seeds.push(owner.to_vec());
    seeds.push(token_program_id().to_vec());
    seeds.push(mint.to_vec());
    assert(seeds.deep_view()[0] =~= owner.bytes());
    assert(seeds.deep_view()[1] =~= spec_token_program_id().bytes());
    assert(seeds.deep_view()[2] =~= mint.bytes());
    assert(seeds.deep_view() =~= associated_seeds(*owner, *mint));
    match Pubkey::find_program_address(&seeds, &Pubkey(ASSOCIATED_TOKEN_PROGRAM_ID)) {
        Some((address, _)) => Some(address),
        None => None,
    }
}

/// What a fetch of `address` gives while an instruction for a token account
/// is built that does not exist yet: for the token account itself the data
/// it will have, and for every other address what the ledger holds.
pub open spec fn spec_fetched(
    address: Pubkey,
    new_account: Option<(Pubkey, Seq<u8>)>,
    on_ledger: Option<Seq<u8>>,
) -> Option<Seq<u8>> {
    match new_account {
        Some(found) => if found.0 == address {
            Some(found.1)
        } else {
            on_ledger
        },
        None => on_ledger,
    }
}

/// What a fetch of `address` gives while an instruction for a token account
/// is built that may not exist yet.
pub fn fetched(address: &Pubkey, new_account: Option<(Pubkey, Vec<u8>)>, on_ledger: Option<Vec<u8>>) -> (r: Option<
    Vec<u8>,
>)
    ensures
        match r {
            Some(data) => spec_fetched(
                *address,
                match new_account {
                    Some(found) => Some((found.0, found.1@)),
                    None => None,
                },
                match on_ledger {
                    Some(data) => Some(data@),
                    None => None,
                },
            ) == Some(data@),
            None => spec_fetched(
                *address,
                match new_account {
                    Some(found) => Some((found.0, found.1@)),
                    None => None,
                },
                match on_ledger {
                    Some(data) => Some(data@),
                    None => None,
                },
            ) is None,
        },
{
    match new_account {
        Some((key, data)) => if key == *address {
            Some(data)
        } else {
            on_ledger
        },
        None => on_ledger,
    }
}

} // verus!

//! The program's own address and the addresses that it signs for.

use crate::error::ProgramError;
use crate::gate::prefixed_seeds;
use crate::plan::{Step, StepView};
use crate::pubkey::{derived_address, Pubkey};
use crate::state::{FLAG_ACCOUNT_SEED_PREFIX, MINT_CONFIG_SEED_PREFIX};
use vstd::prelude::*;

verus! {

/// The address of the program,
/// `TACLkU6CiCdkQN2MjoyDkVg2yAH9zkxiHDsiztQ52TP`.
pub const ID: [u8; 32] = [
    6, 179, 127, 154, 112, 244, 6, 234, 54, 211, 41, 245, 148, 165, 22, 5,
    150, 15, 242, 225, 55, 23, 91, 46, 218, 0, 102, 202, 50, 58, 107, 206,
];

/// The address of the program.
pub open spec fn spec_id() -> Pubkey {
    Pubkey(ID)
}

/// The address of the program.
pub fn id() -> (r: Pubkey)
    ensures
        r == spec_id(),
{
    Pubkey(ID)
}

/// What a decided instruction is, in contracts: its steps, or its error.
pub open spec fn plan_view(plan: Result<Vec<Step>, ProgramError>) -> Result<Seq<StepView>, ProgramError> {
    match plan {
        Ok(steps) => Ok(steps.deep_view()),
        Err(error) => Err(error),
    }
}

/// The seeds with which the program signs for an address of its own: the
/// seeds of the address, then its bump seed.
pub open spec fn signer_seeds(prefix: Seq<u8>, key: Pubkey, bump: u8) -> Seq<Seq<u8>> {
    seq![prefix, key.bytes(), seq![bump]]
}

/// Builds the seeds with which the program signs for an address of its own.
pub fn collect_signer_seeds(prefix: &[u8], key: &Pubkey, bump: u8) -> (r: Vec<Vec<u8>>)
    ensures
        r.deep_view() == signer_seeds(prefix@, *key, bump),
{
    let mut seeds: Vec<Vec<u8>> = Vec::new();
    seeds.push(vstd::slice::slice_to_vec(prefix));
    seeds.push(key.to_vec());
    let mut last: Vec<u8> = Vec::new();
    last.push(bump);
    seeds.push(last);
    assert(seeds.deep_view()[0] =~= prefix@);
    assert(seeds.deep_view()[1] =~= key.bytes());
    assert(seeds.deep_view()[2] =~= seq![bump]);
    assert(seeds.deep_view() =~= signer_seeds(prefix@, *key, bump));
    seeds
}

/// The seeds with which the program signs for the record of `mint`.
pub open spec fn config_signer_seeds(mint: Pubkey, bump: u8) -> Seq<Seq<u8>> {
    signer_seeds(MINT_CONFIG_SEED_PREFIX@, mint, bump)
}

/// The seeds with which the program signs for the flag account of
/// `token_account`.
pub open spec fn flag_signer_seeds(token_account: Pubkey, bump: u8) -> Seq<Seq<u8>> {
    signer_seeds(FLAG_ACCOUNT_SEED_PREFIX@, token_account, bump)
}

/// The address of the record of `mint`, with its bump seed, if the seeds
/// derive one.
pub open spec fn spec_mint_config_address(mint: Pubkey) -> Option<(Pubkey, u8)> {
    derived_address(prefixed_seeds(MINT_CONFIG_SEED_PREFIX@, mint), spec_id())
}

/// The address of the flag account of `token_account`, with its bump seed,
/// if the seeds derive one.
pub open spec fn spec_flag_account_address(token_account: Pubkey) -> Option<(Pubkey, u8)> {
    derived_address(prefixed_seeds(FLAG_ACCOUNT_SEED_PREFIX@, token_account), spec_id())
}

/// The address of the record of `mint`, with its bump seed; `None` where the
/// seeds derive none.
pub fn find_mint_config_address(mint: &Pubkey) -> (r: Option<(Pubkey, u8)>)
    ensures
        r == spec_mint_config_address(*mint),
{
    let seeds = crate::gate::collect_seeds(MINT_CONFIG_SEED_PREFIX.as_slice(), mint);
    Pubkey::find_program_address(&seeds, &id())
}

/// The address of the flag account of `token_account`, with its bump seed;
/// `None` where the seeds derive none.
pub fn find_flag_account_address(token_account: &Pubkey) -> (r: Option<(Pubkey, u8)>)
    ensures
        r == spec_flag_account_address(*token_account),
{
    let seeds = crate::gate::collect_seeds(FLAG_ACCOUNT_SEED_PREFIX.as_slice(), token_account);
    Pubkey::find_program_address(&seeds, &id())
}

} // verus!

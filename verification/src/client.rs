//! What a client of the program starts from: the two permissionless
//! instructions, built only where the mint's record has them enabled.

use crate::offchain::{
    create_permissionless_instruction, spec_blank, spec_creation, ExtraMetas, Request, RequestView, Stage,
};
use crate::privileged::Operation;
use crate::program::{id, spec_id};
use crate::pubkey::Pubkey;
use vstd::prelude::*;

verus! {

/// Starts on a thaw for any caller. The record of the mint is fetched first;
/// the instruction is built only if the record has the thaw enabled.
pub fn create_thaw_permissionless_instruction_with_extra_metas(
    signer_pubkey: &Pubkey,
    token_account_pubkey: &Pubkey,
    mint_pubkey: &Pubkey,
    mint_config_pubkey: &Pubkey,
    token_program_pubkey: &Pubkey,
    token_account_owner_pubkey: &Pubkey,
    idempotent: bool,
) -> (r: (ExtraMetas, Request))
    ensures
        r.0.stage == Stage::AwaitingConfig,
        r.0.query == spec_creation(
            Operation::Thaw,
            spec_id(),
            *signer_pubkey,
            *token_account_pubkey,
            *mint_pubkey,
            *mint_config_pubkey,
            *token_program_pubkey,
            *token_account_owner_pubkey,
            idempotent,
            true,
        ),
        r.0.instruction@ == spec_blank(spec_id()),
        r.1@ == RequestView::Fetch(*mint_config_pubkey),
{
    create_permissionless_instruction(
        Operation::Thaw,
        &id(),
        signer_pubkey,
        token_account_pubkey,
        mint_pubkey,
        mint_config_pubkey,
        token_program_pubkey,
        token_account_owner_pubkey,
        idempotent,
        true,
    )
}

/// Starts on a freeze for any caller. The record of the mint is fetched
/// first; the instruction is built only if the record has the freeze
/// enabled.
pub fn create_freeze_permissionless_instruction_with_extra_metas(
    signer_pubkey: &Pubkey,
    token_account_pubkey: &Pubkey,
    mint_pubkey: &Pubkey,
    mint_config_pubkey: &Pubkey,
    token_program_pubkey: &Pubkey,
    token_account_owner_pubkey: &Pubkey,
    idempotent: bool,
) -> (r: (ExtraMetas, Request))
    ensures
        r.0.stage == Stage::AwaitingConfig,
        r.0.query == spec_creation(
            Operation::Freeze,
            spec_id(),
            *signer_pubkey,
            *token_account_pubkey,
            *mint_pubkey,
            *mint_config_pubkey,
            *token_program_pubkey,
            *token_account_owner_pubkey,
            idempotent,
            true,
        ),
        r.0.instruction@ == spec_blank(spec_id()),
        r.1@ == RequestView::Fetch(*mint_config_pubkey),
{
    create_permissionless_instruction(
        Operation::Freeze,
        &id(),
        signer_pubkey,
        token_account_pubkey,
        mint_pubkey,
        mint_config_pubkey,
        token_program_pubkey,
        token_account_owner_pubkey,
        idempotent,
        true,
    )
}

} // verus!

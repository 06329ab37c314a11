//! The accounts that a gating program asks for.
//!
//! A gating program publishes, at an address derived from the mint, a list
//! that says which further accounts its decision needs. Resolving the list
//! into addresses is the business of the account-resolution library that the
//! host links. This module decides what is handed to that library, and what
//! becomes of the addresses that come back.

use crate::account::{account_keys, AccountInfo, AccountMeta, Instruction, InstructionView};
use crate::error::{ProgramError, ThawFreezeGateError};
use crate::offchain::{spec_addition, ExtraMetas, Query, Request, RequestView, Stage, Turn};
use crate::permissionless::{resolver, spec_resolver};
use crate::privileged::Operation;
use crate::pubkey::Pubkey;
use vstd::prelude::*;

verus! {

/// The first code of the account-resolution library's errors: an account
/// that the list asks for was not provided.
pub const INCORRECT_ACCOUNT: u32 = 2_724_315_840;

/// The code with which the account-resolution library reports that an
/// account could not be fetched.
pub const ACCOUNT_FETCH_FAILED: u32 = 2_724_315_856;

/// The last code of the account-resolution library's errors.
pub const LAST_RESOLUTION_ERROR: u32 = 2_724_315_859;

/// Whether `code` is one of the account-resolution library's errors.
pub open spec fn spec_is_resolution_error(code: u32) -> bool {
    INCORRECT_ACCOUNT <= code <= LAST_RESOLUTION_ERROR
}

/// Calls `FromPrimitive::from_u32` of num-traits for the error type
/// `AccountResolutionError` of spl-tlv-account-resolution: whether `code` is
/// the number of one of its twenty errors, which are numbered in a row from
/// 2724315840.
#[verifier::external_body]
fn resolution_error_from_u32(code: u32) -> (r: bool)
    ensures
        r == spec_is_resolution_error(code),
{
    <spl_tlv_account_resolution::error::AccountResolutionError as num_traits::FromPrimitive>::from_u32(code).is_some()
}

/// Whether `code` is one of the account-resolution library's errors.
pub fn is_resolution_error(code: u32) -> (r: bool)
    ensures
        r == spec_is_resolution_error(code),
{
    resolution_error_from_u32(code)
}

/// Whether `key` is one of the addresses `provided`.
pub open spec fn presented(provided: Seq<Pubkey>, key: Pubkey) -> bool {
    provided.contains(key)
}

/// Whether each of `metas` has one of the addresses `provided`.
pub open spec fn all_presented(provided: Seq<Pubkey>, metas: Seq<AccountMeta>) -> bool {
    forall|i: int| 0 <= i < metas.len() ==> presented(provided, #[trigger] metas[i].pubkey)
}

/// The accounts of `metas` as references that neither sign nor are written.
pub open spec fn read_only(metas: Seq<AccountMeta>) -> Seq<AccountMeta> {
    Seq::new(metas.len(), |i: int| AccountMeta::readonly(metas[i].pubkey, false))
}

/// The position in `accounts` of the first account with the address `key`.
pub fn find_account(accounts: &Vec<AccountInfo>, key: &Pubkey) -> (r: Option<usize>)
    ensures
        r is Some <==> presented(account_keys(accounts@), *key),
        r matches Some(i) ==> i < accounts@.len() && accounts@[i as int].key == *key,
{
    let mut i: usize = 0;
    while i < accounts.len()
        invariant
            i <= accounts.len(),
            forall|j: int| 0 <= j < i ==> accounts@[j].key != *key,
        decreases accounts.len() - i,
    {
        if accounts[i].key == *key {
            assert(account_keys(accounts@)[i as int] == *key);
            return Some(i);
        }
        i += 1;
    }
    assert forall|j: int| 0 <= j < account_keys(accounts@).len() implies account_keys(accounts@)[j] != *key by {
        assert(account_keys(accounts@)[j] == accounts@[j].key);
    }
    None
}

/// The call to a gating program, once the accounts it asks for are known.
///
/// Where the gating program's list is not among the accounts that the caller
/// provided, the call goes out with its four accounts alone. Where it is,
/// `resolved` is what resolving the list gave: an error, which is passed on,
/// or the accounts it asks for. Each of them must be among the accounts
/// provided, or the call fails with `INCORRECT_ACCOUNT`. The call then takes
/// the list's own account and the resolved accounts, all read-only.
pub open spec fn spec_gate_instruction(
    base: InstructionView,
    resolver: Option<Pubkey>,
    remaining: Seq<Pubkey>,
    resolved: Result<Seq<AccountMeta>, ProgramError>,
) -> Result<InstructionView, ProgramError> {
    match resolver {
        None => Ok(base),
        Some(address) => if !presented(remaining, address) {
            Ok(base)
        } else {
            match resolved {
                Err(error) => Err(error),
                Ok(metas) => if !all_presented(remaining, metas) {
                    Err(ProgramError::Custom(INCORRECT_ACCOUNT))
                } else {
                    Ok(
                        InstructionView {
                            accounts: base.accounts + seq![AccountMeta::readonly(address, false)] + read_only(metas),
                            ..base
                        },
                    )
                },
            }
        },
    }
}

/// The view of what resolving a list gave.
pub open spec fn resolved_view(resolved: Result<Vec<AccountMeta>, ProgramError>) -> Result<Seq<AccountMeta>, ProgramError> {
    match resolved {
        Ok(metas) => Ok(metas@),
        Err(error) => Err(error),
    }
}

/// Completes the call to a gating program with the accounts it asks for.
pub fn gate_instruction(
    base: Instruction,
    resolver: Option<Pubkey>,
    remaining: &Vec<AccountInfo>,
    resolved: &Result<Vec<AccountMeta>, ProgramError>,
) -> (r: Result<Instruction, ProgramError>)
    ensures
        match r {
            Ok(instruction) => spec_gate_instruction(base@, resolver, account_keys(remaining@), resolved_view(*resolved)) == Ok::<
                InstructionView,
                ProgramError,
            >(instruction@),
            Err(error) => spec_gate_instruction(base@, resolver, account_keys(remaining@), resolved_view(*resolved)) == Err::<
                InstructionView,
                ProgramError,
            >(error),
        },
{
    let address = match resolver {
        Some(address) => address,
        None => {
            return Ok(base);
        },
    };
    if find_account(remaining, &address).is_none() {
        return Ok(base);
    }
    let metas = match resolved {
        Ok(metas) => metas,
        Err(error) => {
            return Err(*error);
        },
    };
    let mut instruction = base;
    instruction.accounts.push(AccountMeta::new_readonly(address, false));
    let ghost start = instruction.accounts@;
    assert(start =~= base.accounts@ + seq![AccountMeta::readonly(address, false)]);
    assert(read_only(metas@.subrange(0, 0)) =~= Seq::<AccountMeta>::empty());
    assert(start + read_only(metas@.subrange(0, 0)) =~= start);
    let mut i: usize = 0;
    while i < metas.len()
        invariant
            i <= metas.len(),
            instruction.program_id == base.program_id,
            instruction.data@ == base.data@,
            resolver == Some(address),
            presented(account_keys(remaining@), address),
            resolved_view(*resolved) == Ok::<Seq<AccountMeta>, ProgramError>(metas@),
            start == base.accounts@ + seq![AccountMeta::readonly(address, false)],
            instruction.accounts@ == start + read_only(metas@.subrange(0, i as int)),
            all_presented(account_keys(remaining@), metas@.subrange(0, i as int)),
        decreases metas.len() - i,
    {
        if find_account(remaining, &metas[i].pubkey).is_none() {
            assert(!all_presented(account_keys(remaining@), metas@));
            return Err(ProgramError::Custom(INCORRECT_ACCOUNT));
        }
        instruction.accounts.push(AccountMeta::new_readonly(metas[i].pubkey, false));
        proof {
            let before = metas@.subrange(0, i as int);
            let after = metas@.subrange(0, i + 1);
            assert(read_only(after) =~= read_only(before).push(AccountMeta::readonly(metas@[i as int].pubkey, false)));
            assert(instruction.accounts@ =~= start + read_only(after));
            assert forall|j: int| 0 <= j < after.len() implies presented(account_keys(remaining@), #[trigger] after[j].pubkey) by {
                if j < i {
                    assert(before[j] == after[j]);
                }
            }
        }
        i += 1;
    }
    assert(metas@.subrange(0, i as int) =~= metas@);
    Ok(instruction)
}

/// An error of the resolution as this library reports it: a custom error
/// with one of the account-resolution library's codes is a resolution
/// error, and every other error stays what it is.
pub open spec fn spec_translate(error: ProgramError) -> ThawFreezeGateError {
    match error {
        ProgramError::Custom(code) => if spec_is_resolution_error(code) {
            ThawFreezeGateError::ResolutionError(code)
        } else {
            ThawFreezeGateError::ProgramError(error)
        },
        _ => ThawFreezeGateError::ProgramError(error),
    }
}

/// Translates an error of the resolution.
pub fn translate(error: ProgramError) -> (r: ThawFreezeGateError)
    ensures
        r == spec_translate(error),
{
    match error {
        ProgramError::Custom(code) => if is_resolution_error(code) {
            ThawFreezeGateError::ResolutionError(code)
        } else {
            ThawFreezeGateError::ProgramError(error)
        },
        _ => ThawFreezeGateError::ProgramError(error),
    }
}

/// Starts on adding to `instruction` the accounts that the gating program
/// `program_id` lists at `extra_metas_pubkey`. The first request is for the
/// list.
pub fn add_extra_account_metas_for_permissionless_ix(
    instruction: Instruction,
    program_id: &Pubkey,
    signer_pubkey: &Pubkey,
    token_account_pubkey: &Pubkey,
    mint_pubkey: &Pubkey,
    token_account_owner: &Pubkey,
    extra_metas_pubkey: &Pubkey,
    operation: Operation,
) -> (r: (ExtraMetas, Request))
    ensures
        r.0.stage == Stage::AwaitingList,
        r.0.query == spec_addition(
            operation,
            *program_id,
            *signer_pubkey,
            *token_account_pubkey,
            *mint_pubkey,
            *token_account_owner,
            Pubkey::spec_default(),
            *extra_metas_pubkey,
        ),
        r.0.instruction@ == instruction@,
        r.1@ == RequestView::Fetch(*extra_metas_pubkey),
{
    let query = Query {
        operation,
        program_id: Pubkey::default(),
        gating_program: *program_id,
        signer: *signer_pubkey,
        token_account: *token_account_pubkey,
        mint: *mint_pubkey,
        token_account_owner: *token_account_owner,
        mint_config: Pubkey::default(),
        token_program: Pubkey::default(),
        extra_metas: *extra_metas_pubkey,
        idempotent: false,
        check_enabled: false,
        build: false,
    };
    (
        ExtraMetas { stage: Stage::AwaitingList, query, instruction },
        Request::Fetch(*extra_metas_pubkey),
    )
}

/// What adding the accounts of a gating program starts with: the request
/// for the gating program's list, or, where the seeds derive no address for
/// the list, the end with invalid seeds.
pub open spec fn spec_start(
    operation: Operation,
    instruction: InstructionView,
    program_id: Pubkey,
    signer: Pubkey,
    token_account: Pubkey,
    mint: Pubkey,
    token_account_owner: Pubkey,
) -> Turn {
    match spec_resolver(operation, mint, program_id) {
        Some(address) => Turn {
            stage: Stage::AwaitingList,
            query: spec_addition(
                operation,
                program_id,
                signer,
                token_account,
                mint,
                token_account_owner,
                Pubkey::spec_default(),
                address,
            ),
            instruction,
            request: RequestView::Fetch(address),
        },
        None => Turn {
            stage: Stage::Finished,
            query: spec_addition(
                operation,
                program_id,
                signer,
                token_account,
                mint,
                token_account_owner,
                Pubkey::spec_default(),
                Pubkey::spec_default(),
            ),
            instruction,
            request: RequestView::Failed(
                ThawFreezeGateError::ProgramError(ProgramError::InvalidSeeds),
            ),
        },
    }
}

fn start(
    operation: Operation,
    instruction: Instruction,
    program_id: &Pubkey,
    signer_pubkey: &Pubkey,
    token_account_pubkey: &Pubkey,
    mint_pubkey: &Pubkey,
    token_account_owner: &Pubkey,
) -> (r: (ExtraMetas, Request))
    ensures
        r.0.turn(r.1) == spec_start(
            operation,
            instruction@,
            *program_id,
            *signer_pubkey,
            *token_account_pubkey,
            *mint_pubkey,
            *token_account_owner,
        ),
{
    match resolver(operation, mint_pubkey, program_id) {
        Some(address) => add_extra_account_metas_for_permissionless_ix(
            instruction,
            program_id,
            signer_pubkey,
            token_account_pubkey,
            mint_pubkey,
            token_account_owner,
            &address,
            operation,
        ),
        None => {
            let (mut state, _) = add_extra_account_metas_for_permissionless_ix(
                instruction,
                program_id,
                signer_pubkey,
                token_account_pubkey,
                mint_pubkey,
                token_account_owner,
                &Pubkey::default(),
                operation,
            );
            state.stage = Stage::Finished;
            (
                state,
                Request::Failed(
                    ThawFreezeGateError::ProgramError(ProgramError::InvalidSeeds),
                ),
            )
        },
    }
}

/// Starts on adding to a freeze the accounts that the gating program
/// `program_id` asks for.
pub fn add_extra_account_metas_for_freeze(
    instruction: Instruction,
    program_id: &Pubkey,
    signer_pubkey: &Pubkey,
    token_account_pubkey: &Pubkey,
    mint_pubkey: &Pubkey,
    token_account_owner: &Pubkey,
) -> (r: (ExtraMetas, Request))
    ensures
        r.0.turn(r.1) == spec_start(
            Operation::Freeze,
            instruction@,
            *program_id,
            *signer_pubkey,
            *token_account_pubkey,
            *mint_pubkey,
            *token_account_owner,
        ),
{
    start(
        Operation::Freeze,
        instruction,
        program_id,
        signer_pubkey,
        token_account_pubkey,
        mint_pubkey,
        token_account_owner,
    )
}

/// Starts on adding to a thaw the accounts that the gating program
/// `program_id` asks for.
pub fn add_extra_account_metas_for_thaw(
    instruction: Instruction,
    program_id: &Pubkey,
    signer_pubkey: &Pubkey,
    token_account_pubkey: &Pubkey,
    mint_pubkey: &Pubkey,
    token_account_owner: &Pubkey,
) -> (r: (ExtraMetas, Request))
    ensures
        r.0.turn(r.1) == spec_start(
            Operation::Thaw,
            instruction@,
            *program_id,
            *signer_pubkey,
            *token_account_pubkey,
            *mint_pubkey,
            *token_account_owner,
        ),
{
    start(
        Operation::Thaw,
        instruction,
        program_id,
        signer_pubkey,
        token_account_pubkey,
        mint_pubkey,
        token_account_owner,
    )
}

} // verus!

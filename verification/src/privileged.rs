//! Freeze and thaw on the word of the record's authority. No gating program
//! is asked.

use crate::account::{AccountInfo, AccountInfoView};
use crate::config::{acl_error, program_error};
use crate::error::{ProgramError, TokenAclError};
use crate::native::{
    freeze_account, is_token_program, spec_freeze_account, spec_thaw_account, spec_token_program_id, thaw_account,
};
use crate::plan::{Step, StepView};
use crate::program::{collect_signer_seeds, config_signer_seeds, plan_view};
use crate::pubkey::Pubkey;
use crate::state::{load_mint_config, spec_load_mint_config, MINT_CONFIG_SEED_PREFIX};
use vstd::prelude::*;

verus! {

/// What is done to a token account.
#[derive(Clone, Copy, Debug, PartialEq, Eq, Structural)]
pub enum Operation {
    Freeze,
    Thaw,
}

/// The token program's call that carries out `operation` on `token_account`
/// with the record as the freeze authority.
pub open spec fn spec_native_call(
    operation: Operation,
    token_program: Pubkey,
    token_account: Pubkey,
    mint: Pubkey,
    mint_config: Pubkey,
) -> Result<crate::account::InstructionView, ProgramError> {
    match operation {
        Operation::Freeze => spec_freeze_account(token_program, token_account, mint, mint_config),
        Operation::Thaw => spec_thaw_account(token_program, token_account, mint, mint_config),
    }
}

/// The step in which the host has the token program carry out `operation`,
/// signing for the record.
pub open spec fn spec_native_step(
    operation: Operation,
    token_program: Pubkey,
    token_account: Pubkey,
    mint: Pubkey,
    mint_config: Pubkey,
    bump: u8,
) -> Result<StepView, ProgramError> {
    match spec_native_call(operation, token_program, token_account, mint, mint_config) {
        Ok(instruction) => Ok(StepView::Invoke { instruction, signer_seeds: config_signer_seeds(mint, bump) }),
        Err(error) => Err(error),
    }
}

/// Builds the step in which the host has the token program carry out
/// `operation`, signing for the record.
pub fn native_step(
    operation: Operation,
    token_program: &Pubkey,
    token_account: &Pubkey,
    mint: &Pubkey,
    mint_config: &Pubkey,
    bump: u8,
) -> (r: Result<Step, ProgramError>)
    ensures
        match r {
            Ok(step) => spec_native_step(operation, *token_program, *token_account, *mint, *mint_config, bump) == Ok::<
                StepView,
                ProgramError,
            >(step@),
            Err(error) => spec_native_step(operation, *token_program, *token_account, *mint, *mint_config, bump) == Err::<
                StepView,
                ProgramError,
            >(error),
        },
{
    let instruction = match operation {
        Operation::Freeze => freeze_account(token_program, token_account, mint, mint_config)?,
        Operation::Thaw => thaw_account(token_program, token_account, mint, mint_config)?,
    };
    Ok(
        Step::Invoke {
            instruction,
            signer_seeds: collect_signer_seeds(MINT_CONFIG_SEED_PREFIX.as_slice(), mint, bump),
        },
    )
}

/// Whether the accounts are those of a freeze or thaw by the authority: five
/// accounts, of which the first has signed and the last is the token
/// program.
pub open spec fn spec_check_privileged(accounts: Seq<AccountInfoView>) -> Result<(), ProgramError> {
    if accounts.len() != 5 {
        Err(ProgramError::InvalidInstructionData)
    } else if !accounts[0].is_signer {
        Err(acl_error(TokenAclError::InvalidAuthority))
    } else if accounts[4].key != spec_token_program_id() {
        Err(acl_error(TokenAclError::InvalidTokenProgram))
    } else {
        Ok(())
    }
}

fn check_privileged(accounts: &[AccountInfo]) -> (r: Result<(), ProgramError>)
    ensures
        r == spec_check_privileged(crate::account::account_views(accounts@)),
{
    if accounts.len() != 5 {
        return Err(ProgramError::InvalidInstructionData);
    }
    if !accounts[0].is_signer {
        return Err(program_error(TokenAclError::InvalidAuthority));
    }
    if !is_token_program(&accounts[4].key) {
        return Err(program_error(TokenAclError::InvalidTokenProgram));
    }
    Ok(())
}

/// What a freeze or thaw by the authority asks of the host: the one call of
/// the token program, signed for the record. The account of the record must
/// hold a record, the caller must be the record's authority, and the mint
/// the record's mint.
pub open spec fn spec_privileged(
    operation: Operation,
    authority: Pubkey,
    mint: Pubkey,
    token_account: Pubkey,
    mint_config: AccountInfoView,
    token_program: Pubkey,
) -> Result<Seq<StepView>, ProgramError> {
    match spec_load_mint_config(mint_config.data) {
        Err(error) => Err(error),
        Ok(record) => if record.freeze_authority != authority {
            Err(acl_error(TokenAclError::InvalidAuthority))
        } else if record.mint != mint {
            Err(acl_error(TokenAclError::InvalidTokenMint))
        } else {
            match spec_native_step(operation, token_program, token_account, mint, mint_config.key, record.bump) {
                Err(error) => Err(error),
                Ok(step) => Ok(seq![step]),
            }
        },
    }
}

fn privileged(
    operation: Operation,
    authority: &AccountInfo,
    mint: &AccountInfo,
    token_account: &AccountInfo,
    mint_config: &AccountInfo,
    token_program: &AccountInfo,
) -> (r: Result<Vec<Step>, ProgramError>)
    ensures
        plan_view(r) == spec_privileged(
            operation,
            authority.key,
            mint.key,
            token_account.key,
            mint_config@,
            token_program.key,
        ),
{
    let record = load_mint_config(mint_config.data.as_slice())?;
    if record.freeze_authority != authority.key {
        return Err(program_error(TokenAclError::InvalidAuthority));
    }
    if record.mint != mint.key {
        return Err(program_error(TokenAclError::InvalidTokenMint));
    }
    let step = native_step(
        operation,
        &token_program.key,
        &token_account.key,
        &mint.key,
        &mint_config.key,
        record.bump,
    )?;
    let mut steps: Vec<Step> = Vec::new();
    steps.push(step);
    assert(steps.deep_view() =~= seq![step@]);
    Ok(steps)
}

/// The accounts of the instruction by which the authority freezes a token
/// account.
pub struct Freeze {
    pub authority: AccountInfo,
    pub mint: AccountInfo,
    pub token_account: AccountInfo,
    pub mint_config: AccountInfo,
    pub token_program: AccountInfo,
}

impl Freeze {
    pub const DISCRIMINATOR: u8 = 5;

    /// Takes the accounts of the instruction in their order.
    pub fn try_from(accounts: &[AccountInfo]) -> (r: Result<Freeze, ProgramError>)
        ensures
            match r {
                Ok(context) => {
                    &&& spec_check_privileged(crate::account::account_views(accounts@)) is Ok
                    &&& context.authority@ == accounts@[0]@
                    &&& context.mint@ == accounts@[1]@
                    &&& context.token_account@ == accounts@[2]@
                    &&& context.mint_config@ == accounts@[3]@
                    &&& context.token_program@ == accounts@[4]@
                },
                Err(error) => spec_check_privileged(crate::account::account_views(accounts@)) == Err::<
                    (),
                    ProgramError,
                >(error),
            },
    {
        check_privileged(accounts)?;
        Ok(
            Freeze {
                authority: accounts[0].duplicate(),
                mint: accounts[1].duplicate(),
                token_account: accounts[2].duplicate(),
                mint_config: accounts[3].duplicate(),
                token_program: accounts[4].duplicate(),
            },
        )
    }

    /// Decides the instruction.
    pub fn process(&self) -> (r: Result<Vec<Step>, ProgramError>)
        ensures
            plan_view(r) == spec_privileged(
                Operation::Freeze,
                self.authority.key,
                self.mint.key,
                self.token_account.key,
                self.mint_config@,
                self.token_program.key,
            ),
    {
        privileged(
            Operation::Freeze,
            &self.authority,
            &self.mint,
            &self.token_account,
            &self.mint_config,
            &self.token_program,
        )
    }
}

/// The accounts of the instruction by which the authority thaws a token
/// account.
pub struct Thaw {
    pub authority: AccountInfo,
    pub mint: AccountInfo,
    pub token_account: AccountInfo,
    pub mint_config: AccountInfo,
    pub token_program: AccountInfo,
}

impl Thaw {
    pub const DISCRIMINATOR: u8 = 4;

    /// Takes the accounts of the instruction in their order.
    pub fn try_from(accounts: &[AccountInfo]) -> (r: Result<Thaw, ProgramError>)
        ensures
            match r {
                Ok(context) => {
                    &&& spec_check_privileged(crate::account::account_views(accounts@)) is Ok
                    &&& context.authority@ == accounts@[0]@
                    &&& context.mint@ == accounts@[1]@
                    &&& context.token_account@ == accounts@[2]@
                    &&& context.mint_config@ == accounts@[3]@
                    &&& context.token_program@ == accounts@[4]@
                },
                Err(error) => spec_check_privileged(crate::account::account_views(accounts@)) == Err::<
                    (),
                    ProgramError,
                >(error),
            },
    {
        check_privileged(accounts)?;
        Ok(
            Thaw {
                authority: accounts[0].duplicate(),
                mint: accounts[1].duplicate(),
                token_account: accounts[2].duplicate(),
                mint_config: accounts[3].duplicate(),
                token_program: accounts[4].duplicate(),
            },
        )
    }

    /// Decides the instruction.
    pub fn process(&self) -> (r: Result<Vec<Step>, ProgramError>)
        ensures
            plan_view(r) == spec_privileged(
                Operation::Thaw,
                self.authority.key,
                self.mint.key,
                self.token_account.key,
                self.mint_config@,
                self.token_program.key,
            ),
    {
        privileged(
            Operation::Thaw,
            &self.authority,
            &self.mint,
            &self.token_account,
            &self.mint_config,
            &self.token_program,
        )
    }
}

} // verus!

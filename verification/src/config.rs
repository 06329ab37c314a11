//! The life of a configuration record: its creation, the changes that its
//! authority makes to it, and its removal.

use crate::account::{AccountInfo, AccountInfoView};
use crate::error::{ProgramError, TokenAclError, ACCOUNT_ALREADY_IN_USE};
use crate::native::{
    create_account, is_system_program, is_token_program, set_freeze_authority, spec_create_account,
    spec_set_freeze_authority, spec_token_program_id, Mint,
};
use crate::plan::{Step, StepView};
use crate::program::{
    collect_signer_seeds, config_signer_seeds, find_mint_config_address, id, plan_view, spec_id,
    spec_mint_config_address,
};
use crate::pubkey::Pubkey;
use crate::state::{load_mint_config, spec_load_mint_config, MintConfig, PodBool, MINT_CONFIG_SEED_PREFIX};
use vstd::prelude::*;

verus! {

/// The error of the program, as the host sees it.
pub open spec fn acl_error(error: TokenAclError) -> ProgramError {
    error.spec_program_error()
}

/// The error of the program, as the host sees it.
pub fn program_error(error: TokenAclError) -> (r: ProgramError)
    ensures
        r == acl_error(error),
{
    ProgramError::Custom(error.code())
}

/// The accounts of the instruction that creates a record.
pub struct CreateConfig {
    pub payer: AccountInfo,
    pub authority: AccountInfo,
    pub mint: AccountInfo,
    pub mint_config: AccountInfo,
    pub system_program: AccountInfo,
    pub token_program: AccountInfo,
    /// The bump seed of the record's address.
    pub config_bump: u8,
}

impl CreateConfig {
    pub const DISCRIMINATOR: u8 = 0;

    /// The bump seed of the record's address, if the accounts are those of
    /// the instruction: six accounts, of which the second has signed, the
    /// fifth is the system program and the sixth the token program. A mint
    /// for whose record no address can be derived has invalid seeds.
    pub open spec fn spec_check(accounts: Seq<AccountInfoView>) -> Result<u8, ProgramError> {
        if accounts.len() != 6 {
            Err(ProgramError::InvalidInstructionData)
        } else if !accounts[1].is_signer {
            Err(acl_error(TokenAclError::InvalidAuthority))
        } else {
            match spec_mint_config_address(accounts[2].key) {
                None => Err(ProgramError::InvalidSeeds),
                Some(found) => if accounts[4].key != Pubkey::spec_default() {
                    Err(acl_error(TokenAclError::InvalidSystemProgram))
                } else if accounts[5].key != spec_token_program_id() {
                    Err(acl_error(TokenAclError::InvalidTokenProgram))
                } else {
                    Ok(found.1)
                },
            }
        }
    }

    /// Takes the accounts of the instruction in their order.
    pub fn try_from(accounts: &[AccountInfo]) -> (r: Result<CreateConfig, ProgramError>)
        ensures
            match r {
                Ok(context) => {
                    &&& CreateConfig::spec_check(crate::account::account_views(accounts@)) == Ok::<u8, ProgramError>(
                        context.config_bump,
                    )
                    &&& context.payer@ == accounts@[0]@
                    &&& context.authority@ == accounts@[1]@
                    &&& context.mint@ == accounts@[2]@
                    &&& context.mint_config@ == accounts@[3]@
                    &&& context.system_program@ == accounts@[4]@
                    &&& context.token_program@ == accounts@[5]@
                },
                Err(error) => CreateConfig::spec_check(crate::account::account_views(accounts@)) == Err::<
                    u8,
                    ProgramError,
                >(error),
            },
    {
        if accounts.len() != 6 {
            return Err(ProgramError::InvalidInstructionData);
        }
        if !accounts[1].is_signer {
            return Err(program_error(TokenAclError::InvalidAuthority));
        }
        let config_bump = match find_mint_config_address(&accounts[2].key) {
            Some((_, bump)) => bump,
            None => {
                return Err(ProgramError::InvalidSeeds);
            },
        };
        if !is_system_program(&accounts[4].key) {
            return Err(program_error(TokenAclError::InvalidSystemProgram));
        }
        if !is_token_program(&accounts[5].key) {
            return Err(program_error(TokenAclError::InvalidTokenProgram));
        }
        Ok(
            CreateConfig {
                payer: accounts[0].duplicate(),
                authority: accounts[1].duplicate(),
                mint: accounts[2].duplicate(),
                mint_config: accounts[3].duplicate(),
                system_program: accounts[4].duplicate(),
                token_program: accounts[5].duplicate(),
                config_bump,
            },
        )
    }

    /// What the creation of a record asks of the host.
    ///
    /// The payload is the address of the gating program. The record's
    /// account must not exist yet. The mint must state the state in which
    /// its token accounts begin, and must have a freeze authority. The host
    /// then creates the record's account, paid for by the authority and
    /// signed for with the record's seeds, and the record is written into it
    /// with both flags off. Where the authority is the mint's freeze
    /// authority, it hands that authority to the record in a last step.
    pub open spec fn spec_process(
        authority: Pubkey,
        mint: AccountInfoView,
        mint_config: AccountInfoView,
        token_program: Pubkey,
        config_bump: u8,
        remaining_data: Seq<u8>,
        lamports: u64,
    ) -> Result<Seq<StepView>, ProgramError> {
        if remaining_data.len() != 32 {
            Err(ProgramError::InvalidInstructionData)
        } else if !(mint_config.lamports == 0 && mint_config.data.len() == 0) {
            Err(ProgramError::Custom(ACCOUNT_ALREADY_IN_USE))
        } else {
            match Mint::spec_unpack(mint.data) {
                Err(error) => Err(error),
                Ok(state) => if !state.has_default_account_state {
                    Err(acl_error(TokenAclError::InvalidTokenMint))
                } else {
                    match state.freeze_authority {
                        None => Err(acl_error(TokenAclError::InvalidTokenMint)),
                        Some(freeze_authority) => {
                            let record = MintConfig::spec_new(
                                mint.key,
                                authority,
                                Pubkey::spec_from_bytes(remaining_data),
                                config_bump,
                            );
                            let create = StepView::Invoke {
                                instruction: spec_create_account(authority, mint_config.key, lamports, 100, spec_id()),
                                signer_seeds: config_signer_seeds(mint.key, config_bump),
                            };
                            let write = StepView::Write { account: mint_config.key, data: record.spec_pack() };
                            if freeze_authority != authority {
                                Ok(seq![create, write])
                            } else {
                                match spec_set_freeze_authority(token_program, mint.key, mint_config.key, authority) {
                                    Err(error) => Err(error),
                                    Ok(instruction) => Ok(
                                        seq![
                                            create,
                                            write,
                                            StepView::Invoke { instruction, signer_seeds: Seq::empty() },
                                        ],
                                    ),
                                }
                            }
                        },
                    }
                },
            }
        }
    }

    /// Decides the instruction. `lamports` is the balance that keeps an
    /// account of the size of a record exempt from rent, which the host
    /// knows.
    pub fn process(&self, remaining_data: &[u8], lamports: u64) -> (r: Result<Vec<Step>, ProgramError>)
        ensures
            plan_view(r) == CreateConfig::spec_process(
                self.authority.key,
                self.mint@,
                self.mint_config@,
                self.token_program.key,
                self.config_bump,
                remaining_data@,
                lamports,
            ),
    {
        let gating_program = match Pubkey::try_from_slice(remaining_data) {
            Some(key) => key,
            None => {
                return Err(ProgramError::InvalidInstructionData);
            },
        };
        if !self.mint_config.is_vacant() {
            return Err(ProgramError::Custom(ACCOUNT_ALREADY_IN_USE));
        }
        let state = Mint::unpack(self.mint.data.as_slice())?;
        if !state.has_default_account_state {
            return Err(program_error(TokenAclError::InvalidTokenMint));
        }
        let freeze_authority = match state.freeze_authority {
            Some(key) => key,
            None => {
                return Err(program_error(TokenAclError::InvalidTokenMint));
            },
        };
        let record = MintConfig::new(self.mint.key, self.authority.key, gating_program, self.config_bump);
        let mut steps: Vec<Step> = Vec::new();
        steps.push(
            Step::Invoke {
                instruction: create_account(
                    &self.authority.key,
                    &self.mint_config.key,
                    lamports,
                    100,
                    &id(),
                ),
                signer_seeds: collect_signer_seeds(
                    MINT_CONFIG_SEED_PREFIX.as_slice(),
                    &self.mint.key,
                    self.config_bump,
                ),
            },
        );
        steps.push(Step::Write { account: self.mint_config.key, data: record.pack() });
        if freeze_authority == self.authority.key {
            let instruction = set_freeze_authority(
                &self.token_program.key,
                &self.mint.key,
                &self.mint_config.key,
                &self.authority.key,
            )?;
            steps.push(Step::Invoke { instruction, signer_seeds: Vec::new() });
            assert(steps@[2]@ == (StepView::Invoke { instruction: instruction@, signer_seeds: Seq::empty() })) by {
                assert(steps@[2]->signer_seeds.deep_view() =~= Seq::<Seq<u8>>::empty());
            }
        }
        proof {
            let create = StepView::Invoke {
                instruction: spec_create_account(self.authority.key, self.mint_config.key, lamports, 100, spec_id()),
                signer_seeds: config_signer_seeds(self.mint.key, self.config_bump),
            };
            let write = StepView::Write { account: self.mint_config.key, data: record.spec_pack() };
            assert(steps.deep_view()[0] == create);
            assert(steps.deep_view()[1] == write);
            if freeze_authority == self.authority.key {
                assert(steps.deep_view() =~= seq![create, write, steps@[2]@]);
            } else {
                assert(steps.deep_view() =~= seq![create, write]);
            }
        }
        Ok(steps)
    }
}

/// What the authority changes in a record.
pub enum Change {
    Authority(Pubkey),
    GatingProgram(Pubkey),
    Flags { freeze_enabled: bool, thaw_enabled: bool },
}

/// The record after the change. Nothing else of it changes: not its mint,
/// and not its bump seed.
pub open spec fn changed(record: MintConfig, change: Change) -> MintConfig {
    match change {
        Change::Authority(new_authority) => MintConfig { freeze_authority: new_authority, ..record },
        Change::GatingProgram(new_gating_program) => MintConfig { gating_program: new_gating_program, ..record },
        Change::Flags { freeze_enabled, thaw_enabled } => MintConfig {
            enable_permissionless_freeze: PodBool(if freeze_enabled { 1u8 } else { 0u8 }),
            enable_permissionless_thaw: PodBool(if thaw_enabled { 1u8 } else { 0u8 }),
            ..record
        },
    }
}

/// What a change of the record asks of the host: that the changed record be
/// written. The account must hold a record, and `authority` must be the
/// record's authority.
pub open spec fn spec_change(authority: Pubkey, mint_config: AccountInfoView, change: Change) -> Result<
    Seq<StepView>,
    ProgramError,
> {
    match spec_load_mint_config(mint_config.data) {
        Err(error) => Err(error),
        Ok(record) => if record.freeze_authority != authority {
            Err(acl_error(TokenAclError::InvalidAuthority))
        } else {
            Ok(seq![StepView::Write { account: mint_config.key, data: changed(record, change).spec_pack() }])
        },
    }
}

/// The accounts of an instruction that the authority signs and that changes
/// the record: exactly these two, of which the first has signed.
pub open spec fn spec_check_change(accounts: Seq<AccountInfoView>) -> Result<(), ProgramError> {
    if accounts.len() != 2 {
        Err(ProgramError::InvalidInstructionData)
    } else if !accounts[0].is_signer {
        Err(acl_error(TokenAclError::InvalidAuthority))
    } else {
        Ok(())
    }
}

fn check_change(accounts: &[AccountInfo]) -> (r: Result<(), ProgramError>)
    ensures
        r == spec_check_change(crate::account::account_views(accounts@)),
{
    if accounts.len() != 2 {
        return Err(ProgramError::InvalidInstructionData);
    }
    if !accounts[0].is_signer {
        return Err(program_error(TokenAclError::InvalidAuthority));
    }
    Ok(())
}

fn change_record(authority: &AccountInfo, mint_config: &AccountInfo, change: Change) -> (r: Result<
    Vec<Step>,
    ProgramError,
>)
    ensures
        plan_view(r) == spec_change(authority.key, mint_config@, change),
{
    let mut record = load_mint_config(mint_config.data.as_slice())?;
    if record.freeze_authority != authority.key {
        return Err(program_error(TokenAclError::InvalidAuthority));
    }
    match change {
        Change::Authority(new_authority) => {
            record.freeze_authority = new_authority;
        },
        Change::GatingProgram(new_gating_program) => {
            record.gating_program = new_gating_program;
        },
        Change::Flags { freeze_enabled, thaw_enabled } => {
            record.enable_permissionless_freeze = PodBool::from_bool(freeze_enabled);
            record.enable_permissionless_thaw = PodBool::from_bool(thaw_enabled);
        },
    }
    let mut steps: Vec<Step> = Vec::new();
    steps.push(Step::Write { account: mint_config.key, data: record.pack() });
    assert(steps.deep_view() =~= seq![
        StepView::Write { account: mint_config.key, data: record.spec_pack() },
    ]);
    Ok(steps)
}

/// The accounts of the instruction that hands the record to a new authority.
pub struct SetAuthority {
    pub authority: AccountInfo,
    pub mint_config: AccountInfo,
}

impl SetAuthority {
    pub const DISCRIMINATOR: u8 = 1;

    /// Takes the accounts of the instruction in their order.
    pub fn try_from(accounts: &[AccountInfo]) -> (r: Result<SetAuthority, ProgramError>)
        ensures
            match r {
                Ok(context) => {
                    &&& spec_check_change(crate::account::account_views(accounts@)) is Ok
                    &&& context.authority@ == accounts@[0]@
                    &&& context.mint_config@ == accounts@[1]@
                },
                Err(error) => spec_check_change(crate::account::account_views(accounts@)) == Err::<
                    (),
                    ProgramError,
                >(error),
            },
    {
        check_change(accounts)?;
        Ok(SetAuthority { authority: accounts[0].duplicate(), mint_config: accounts[1].duplicate() })
    }

    /// What the instruction asks of the host. The payload is the new
    /// authority's address.
    pub open spec fn spec_process(authority: Pubkey, mint_config: AccountInfoView, remaining_data: Seq<u8>) -> Result<
        Seq<StepView>,
        ProgramError,
    > {
        if remaining_data.len() != 32 {
            Err(ProgramError::InvalidInstructionData)
        } else {
            spec_change(authority, mint_config, Change::Authority(Pubkey::spec_from_bytes(remaining_data)))
        }
    }

    /// Decides the instruction.
    pub fn process(&self, remaining_data: &[u8]) -> (r: Result<Vec<Step>, ProgramError>)
        ensures
            plan_view(r) == SetAuthority::spec_process(self.authority.key, self.mint_config@, remaining_data@),
    {
        match Pubkey::try_from_slice(remaining_data) {
            Some(new_authority) => change_record(&self.authority, &self.mint_config, Change::Authority(new_authority)),
            None => Err(ProgramError::InvalidInstructionData),
        }
    }
}

/// The accounts of the instruction that names a new gating program.
pub struct SetGatingProgram {
    pub authority: AccountInfo,
    pub mint_config: AccountInfo,
}

impl SetGatingProgram {
    pub const DISCRIMINATOR: u8 = 2;

    /// Takes the accounts of the instruction in their order.
    pub fn try_from(accounts: &[AccountInfo]) -> (r: Result<SetGatingProgram, ProgramError>)
        ensures
            match r {
                Ok(context) => {
                    &&& spec_check_change(crate::account::account_views(accounts@)) is Ok
                    &&& context.authority@ == accounts@[0]@
                    &&& context.mint_config@ == accounts@[1]@
                },
                Err(error) => spec_check_change(crate::account::account_views(accounts@)) == Err::<
                    (),
                    ProgramError,
                >(error),
            },
    {
        check_change(accounts)?;
        Ok(SetGatingProgram { authority: accounts[0].duplicate(), mint_config: accounts[1].duplicate() })
    }

    /// What the instruction asks of the host. The payload is the address of
    /// the new gating program, of which nothing is asked.
    pub open spec fn spec_process(authority: Pubkey, mint_config: AccountInfoView, remaining_data: Seq<u8>) -> Result<
        Seq<StepView>,
        ProgramError,
    > {
        if remaining_data.len() != 32 {
            Err(ProgramError::InvalidInstructionData)
        } else {
            spec_change(authority, mint_config, Change::GatingProgram(Pubkey::spec_from_bytes(remaining_data)))
        }
    }

    /// Decides the instruction.
    pub fn process(&self, remaining_data: &[u8]) -> (r: Result<Vec<Step>, ProgramError>)
        ensures
            plan_view(r) == SetGatingProgram::spec_process(self.authority.key, self.mint_config@, remaining_data@),
    {
        match Pubkey::try_from_slice(remaining_data) {
            Some(new_gating_program) => change_record(
                &self.authority,
                &self.mint_config,
                Change::GatingProgram(new_gating_program),
            ),
            None => Err(ProgramError::InvalidInstructionData),
        }
    }
}

/// The accounts of the instruction that states both permissionless flags.
pub struct TogglePermissionlessInstructions {
    pub authority: AccountInfo,
    pub mint_config: AccountInfo,
}

impl TogglePermissionlessInstructions {
    pub const DISCRIMINATOR: u8 = 8;

    /// Takes the accounts of the instruction in their order.
    pub fn try_from(accounts: &[AccountInfo]) -> (r: Result<TogglePermissionlessInstructions, ProgramError>)
        ensures
            match r {
                Ok(context) => {
                    &&& spec_check_change(crate::account::account_views(accounts@)) is Ok
                    &&& context.authority@ == accounts@[0]@
                    &&& context.mint_config@ == accounts@[1]@
                },
                Err(error) => spec_check_change(crate::account::account_views(accounts@)) == Err::<
                    (),
                    ProgramError,
                >(error),
            },
    {
        check_change(accounts)?;
        Ok(
            TogglePermissionlessInstructions {
                authority: accounts[0].duplicate(),
                mint_config: accounts[1].duplicate(),
            },
        )
    }

    /// What the instruction asks of the host. The payload is two bytes: the
    /// freeze flag, then the thaw flag. Every byte but 0 turns a flag on.
    pub open spec fn spec_process(authority: Pubkey, mint_config: AccountInfoView, remaining_data: Seq<u8>) -> Result<
        Seq<StepView>,
        ProgramError,
    > {
        if remaining_data.len() != 2 {
            Err(ProgramError::InvalidInstructionData)
        } else {
            spec_change(
                authority,
                mint_config,
                Change::Flags { freeze_enabled: remaining_data[0] != 0, thaw_enabled: remaining_data[1] != 0 },
            )
        }
    }

    /// Decides the instruction.
    pub fn process(&self, remaining_data: &[u8]) -> (r: Result<Vec<Step>, ProgramError>)
        ensures
            plan_view(r) == TogglePermissionlessInstructions::spec_process(
                self.authority.key,
                self.mint_config@,
                remaining_data@,
            ),
    {
        if remaining_data.len() != 2 {
            return Err(ProgramError::InvalidInstructionData);
        }
        change_record(
            &self.authority,
            &self.mint_config,
            Change::Flags { freeze_enabled: remaining_data[0] != 0, thaw_enabled: remaining_data[1] != 0 },
        )
    }
}

/// The accounts of the instruction that gives the mint's freeze authority
/// away from the record.
pub struct ForfeitFreezeAuthority {
    pub authority: AccountInfo,
    pub mint: AccountInfo,
    pub mint_config: AccountInfo,
    pub token_program: AccountInfo,
}

impl ForfeitFreezeAuthority {
    pub const DISCRIMINATOR: u8 = 3;

    /// Whether the accounts are those of the instruction: four accounts, of
    /// which the first has signed and the last is the token program.
    pub open spec fn spec_check(accounts: Seq<AccountInfoView>) -> Result<(), ProgramError> {
        if accounts.len() != 4 {
            Err(ProgramError::InvalidInstructionData)
        } else if !accounts[0].is_signer {
            Err(acl_error(TokenAclError::InvalidAuthority))
        } else if accounts[3].key != spec_token_program_id() {
            Err(acl_error(TokenAclError::InvalidTokenProgram))
        } else {
            Ok(())
        }
    }

    /// Takes the accounts of the instruction in their order.
    pub fn try_from(accounts: &[AccountInfo]) -> (r: Result<ForfeitFreezeAuthority, ProgramError>)
        ensures
            match r {
                Ok(context) => {
                    &&& ForfeitFreezeAuthority::spec_check(crate::account::account_views(accounts@)) is Ok
                    &&& context.authority@ == accounts@[0]@
                    &&& context.mint@ == accounts@[1]@
                    &&& context.mint_config@ == accounts@[2]@
                    &&& context.token_program@ == accounts@[3]@
                },
                Err(error) => ForfeitFreezeAuthority::spec_check(crate::account::account_views(accounts@)) == Err::<
                    (),
                    ProgramError,
                >(error),
            },
    {
        if accounts.len() != 4 {
            return Err(ProgramError::InvalidInstructionData);
        }
        if !accounts[0].is_signer {
            return Err(program_error(TokenAclError::InvalidAuthority));
        }
        if !is_token_program(&accounts[3].key) {
            return Err(program_error(TokenAclError::InvalidTokenProgram));
        }
        Ok(
            ForfeitFreezeAuthority {
                authority: accounts[0].duplicate(),
                mint: accounts[1].duplicate(),
                mint_config: accounts[2].duplicate(),
                token_program: accounts[3].duplicate(),
            },
        )
    }

    /// What the instruction asks of the host: one call of the token program,
    /// signed for the record, that makes the address of the payload the
    /// mint's freeze authority. The caller must be the record's authority
    /// and the mint the record's mint.
    pub open spec fn spec_process(
        authority: Pubkey,
        mint: Pubkey,
        mint_config: AccountInfoView,
        token_program: Pubkey,
        remaining_data: Seq<u8>,
    ) -> Result<Seq<StepView>, ProgramError> {
        if remaining_data.len() != 32 {
            Err(ProgramError::InvalidInstructionData)
        } else {
            match spec_load_mint_config(mint_config.data) {
                Err(error) => Err(error),
                Ok(record) => if record.freeze_authority != authority {
                    Err(acl_error(TokenAclError::InvalidAuthority))
                } else if record.mint != mint {
                    Err(acl_error(TokenAclError::InvalidTokenMint))
                } else {
                    match spec_set_freeze_authority(
                        token_program,
                        mint,
                        Pubkey::spec_from_bytes(remaining_data),
                        mint_config.key,
                    ) {
                        Err(error) => Err(error),
                        Ok(instruction) => Ok(
                            seq![
                                StepView::Invoke {
                                    instruction,
                                    signer_seeds: config_signer_seeds(mint, record.bump),
                                },
                            ],
                        ),
                    }
                },
            }
        }
    }

    /// Decides the instruction.
    pub fn process(&self, remaining_data: &[u8]) -> (r: Result<Vec<Step>, ProgramError>)
        ensures
            plan_view(r) == ForfeitFreezeAuthority::spec_process(
                self.authority.key,
                self.mint.key,
                self.mint_config@,
                self.token_program.key,
                remaining_data@,
            ),
    {
        let new_freeze_authority = match Pubkey::try_from_slice(remaining_data) {
            Some(key) => key,
            None => {
                return Err(ProgramError::InvalidInstructionData);
            },
        };
        let record = load_mint_config(self.mint_config.data.as_slice())?;
        if record.freeze_authority != self.authority.key {
            return Err(program_error(TokenAclError::InvalidAuthority));
        }
        if record.mint != self.mint.key {
            return Err(program_error(TokenAclError::InvalidTokenMint));
        }
        let instruction = set_freeze_authority(
            &self.token_program.key,
            &self.mint.key,
            &new_freeze_authority,
            &self.mint_config.key,
        )?;
        let mut steps: Vec<Step> = Vec::new();
        steps.push(
            Step::Invoke {
                instruction,
                signer_seeds: collect_signer_seeds(MINT_CONFIG_SEED_PREFIX.as_slice(), &self.mint.key, record.bump),
            },
        );
        assert(steps.deep_view() =~= seq![steps@[0]@]);
        Ok(steps)
    }
}

/// The accounts of the instruction that removes a record.
pub struct DeleteConfig {
    pub authority: AccountInfo,
    pub receiver: AccountInfo,
    pub mint: AccountInfo,
    pub mint_config: AccountInfo,
}

impl DeleteConfig {
    pub const DISCRIMINATOR: u8 = 11;

    /// Whether the accounts are those of the instruction: four accounts, of
    /// which the first has signed.
    pub open spec fn spec_check(accounts: Seq<AccountInfoView>) -> Result<(), ProgramError> {
        if accounts.len() != 4 {
            Err(ProgramError::InvalidInstructionData)
        } else if !accounts[0].is_signer {
            Err(acl_error(TokenAclError::InvalidAuthority))
        } else {
            Ok(())
        }
    }

    /// Takes the accounts of the instruction in their order.
    pub fn try_from(accounts: &[AccountInfo]) -> (r: Result<DeleteConfig, ProgramError>)
        ensures
            match r {
                Ok(context) => {
                    &&& DeleteConfig::spec_check(crate::account::account_views(accounts@)) is Ok
                    &&& context.authority@ == accounts@[0]@
                    &&& context.receiver@ == accounts@[1]@
                    &&& context.mint@ == accounts@[2]@
                    &&& context.mint_config@ == accounts@[3]@
                },
                Err(error) => DeleteConfig::spec_check(crate::account::account_views(accounts@)) == Err::<
                    (),
                    ProgramError,
                >(error),
            },
    {
        if accounts.len() != 4 {
            return Err(ProgramError::InvalidInstructionData);
        }
        if !accounts[0].is_signer {
            return Err(program_error(TokenAclError::InvalidAuthority));
        }
        Ok(
            DeleteConfig {
                authority: accounts[0].duplicate(),
                receiver: accounts[1].duplicate(),
                mint: accounts[2].duplicate(),
                mint_config: accounts[3].duplicate(),
            },
        )
    }

    /// What the instruction asks of the host: that the record's account be
    /// removed and its balance handed to the receiver. The instruction has
    /// no payload, the caller must be the record's authority and the mint
    /// the record's mint. A balance that the receiver cannot hold is an
    /// arithmetic overflow.
    pub open spec fn spec_process(
        authority: Pubkey,
        receiver: AccountInfoView,
        mint: Pubkey,
        mint_config: AccountInfoView,
        remaining_data: Seq<u8>,
    ) -> Result<Seq<StepView>, ProgramError> {
        if remaining_data.len() != 0 {
            Err(ProgramError::InvalidInstructionData)
        } else {
            match spec_load_mint_config(mint_config.data) {
                Err(error) => Err(error),
                Ok(record) => if record.freeze_authority != authority {
                    Err(acl_error(TokenAclError::InvalidAuthority))
                } else if record.mint != mint {
                    Err(acl_error(TokenAclError::InvalidTokenMint))
                } else if receiver.key != mint_config.key && receiver.lamports + mint_config.lamports > u64::MAX {
                    Err(ProgramError::ArithmeticOverflow)
                } else {
                    Ok(
                        seq![
                            StepView::Close {
                                account: mint_config.key,
                                receiver: receiver.key,
                                lamports: mint_config.lamports,
                            },
                        ],
                    )
                },
            }
        }
    }

    /// Decides the instruction.
    pub fn process(&self, remaining_data: &[u8]) -> (r: Result<Vec<Step>, ProgramError>)
        ensures
            plan_view(r) == DeleteConfig::spec_process(
                self.authority.key,
                self.receiver@,
                self.mint.key,
                self.mint_config@,
                remaining_data@,
            ),
    {
        if remaining_data.len() != 0 {
            return Err(ProgramError::InvalidInstructionData);
        }
        let record = load_mint_config(self.mint_config.data.as_slice())?;
        if record.freeze_authority != self.authority.key {
            return Err(program_error(TokenAclError::InvalidAuthority));
        }
        if record.mint != self.mint.key {
            return Err(program_error(TokenAclError::InvalidTokenMint));
        }
        if self.receiver.key != self.mint_config.key && self.receiver.lamports.checked_add(
            self.mint_config.lamports,
        ).is_none() {
            return Err(ProgramError::ArithmeticOverflow);
        }
        let mut steps: Vec<Step> = Vec::new();
        steps.push(
            Step::Close {
                account: self.mint_config.key,
                receiver: self.receiver.key,
                lamports: self.mint_config.lamports,
            },
        );
        assert(steps.deep_view() =~= seq![
            StepView::Close {
                account: self.mint_config.key,
                receiver: self.receiver.key,
                lamports: self.mint_config.lamports,
            },
        ]);
        Ok(steps)
    }
}

} // verus!

//! Freeze and thaw for any caller, once the gating program of the mint's
//! record has allowed it.
//!
//! An instruction goes through three stages. The first checks the record:
//! it must govern the mint, have the operation enabled, and name the gating
//! program that the caller presented. The second calls the gating program.
//! The third, reached only if the gating program returned without an error,
//! calls the token program with the record as the freeze authority. A freeze
//! brackets the call of the gating program with a flag account, so that
//! whatever runs inside the call can tell that it does.

use crate::account::{account_keys, AccountInfo, AccountInfoView, AccountMeta, Instruction, InstructionView};
use crate::config::{acl_error, program_error};
use crate::error::{ProgramError, TokenAclError};
use crate::gate::{
    find_freeze_extra_account_metas_address, find_thaw_extra_account_metas_address, gate_call, spec_gate_call,
    spec_freeze_extra_account_metas_address, spec_thaw_extra_account_metas_address, EfficientBlockAllowInstruction,
};
use crate::native::{
    create_account, is_system_program, is_token_program, spec_create_account, spec_token_program_id, AccountState,
    TokenAccount,
};
use crate::plan::{Step, StepView};
use crate::privileged::{native_step, spec_native_step, Operation};
use crate::program::{
    collect_signer_seeds, find_flag_account_address, flag_signer_seeds, id, plan_view, spec_flag_account_address,
    spec_id,
};
use crate::pubkey::Pubkey;
use crate::resolution::{find_account, gate_instruction, presented, resolved_view, spec_gate_instruction};
use crate::state::{load_mint_config, spec_load_mint_config, MintConfig, FLAG_ACCOUNT_SEED_PREFIX};
use vstd::prelude::*;

verus! {

/// The question that the gating program is asked before `operation`.
pub open spec fn spec_question(operation: Operation) -> EfficientBlockAllowInstruction {
    match operation {
        Operation::Freeze => EfficientBlockAllowInstruction::CanFreezePermissionless,
        Operation::Thaw => EfficientBlockAllowInstruction::CanThawPermissionless,
    }
}

/// The address at which `gating_program` lists the accounts it needs to
/// decide on `operation` for `mint`, if the seeds derive one.
pub open spec fn spec_resolver(operation: Operation, mint: Pubkey, gating_program: Pubkey) -> Option<Pubkey> {
    match operation {
        Operation::Freeze => match spec_freeze_extra_account_metas_address(mint, gating_program) {
            Some(found) => Some(found.0),
            None => None,
        },
        Operation::Thaw => match spec_thaw_extra_account_metas_address(mint, gating_program) {
            Some(found) => Some(found.0),
            None => None,
        },
    }
}

/// The address at which `gating_program` lists the accounts it needs to
/// decide on `operation` for `mint`; `None` where the seeds derive none.
pub fn resolver(operation: Operation, mint: &Pubkey, gating_program: &Pubkey) -> (r: Option<Pubkey>)
    ensures
        r == spec_resolver(operation, *mint, *gating_program),
{
    let found = match operation {
        Operation::Freeze => find_freeze_extra_account_metas_address(mint, gating_program),
        Operation::Thaw => find_thaw_extra_account_metas_address(mint, gating_program),
    };
    match found {
        Some((address, _)) => Some(address),
        None => None,
    }
}

/// The state in which `operation` leaves a token account.
pub open spec fn target_state(operation: Operation) -> AccountState {
    match operation {
        Operation::Freeze => AccountState::Frozen,
        Operation::Thaw => AccountState::Initialized,
    }
}

/// Whether `operation` is enabled in `record`.
pub open spec fn spec_enabled(operation: Operation, record: MintConfig) -> bool {
    match operation {
        Operation::Freeze => record.spec_is_permissionless_freeze_enabled(),
        Operation::Thaw => record.spec_is_permissionless_thaw_enabled(),
    }
}

/// The error for an operation that is not enabled.
pub open spec fn not_enabled(operation: Operation) -> ProgramError {
    match operation {
        Operation::Freeze => acl_error(TokenAclError::PermissionlessFreezeNotEnabled),
        Operation::Thaw => acl_error(TokenAclError::PermissionlessThawNotEnabled),
    }
}

/// The first stage: the record that allows the instruction to go on.
///
/// The account of the record must hold a record. The record must govern the
/// mint that was presented, have the operation enabled, and name the gating
/// program that was presented, and is checked for this in this order.
pub open spec fn spec_enabled_check(
    operation: Operation,
    mint_config: Seq<u8>,
    mint: Pubkey,
    gating_program: Pubkey,
) -> Result<MintConfig, ProgramError> {
    match spec_load_mint_config(mint_config) {
        Err(error) => Err(error),
        Ok(record) => if record.mint != mint {
            Err(acl_error(TokenAclError::InvalidTokenMint))
        } else if !spec_enabled(operation, record) {
            Err(not_enabled(operation))
        } else if record.gating_program != gating_program {
            Err(acl_error(TokenAclError::InvalidGatingProgram))
        } else {
            Ok(record)
        },
    }
}

/// The first stage of a permissionless instruction.
pub fn enabled_check(operation: Operation, mint_config: &[u8], mint: &Pubkey, gating_program: &Pubkey) -> (r: Result<
    MintConfig,
    ProgramError,
>)
    ensures
        r == spec_enabled_check(operation, mint_config@, *mint, *gating_program),
{
    let record = load_mint_config(mint_config)?;
    if record.mint != *mint {
        return Err(program_error(TokenAclError::InvalidTokenMint));
    }
    match operation {
        Operation::Freeze => {
            if !record.is_permissionless_freeze_enabled() {
                return Err(program_error(TokenAclError::PermissionlessFreezeNotEnabled));
            }
        },
        Operation::Thaw => {
            if !record.is_permissionless_thaw_enabled() {
                return Err(program_error(TokenAclError::PermissionlessThawNotEnabled));
            }
        },
    }
    if record.gating_program != *gating_program {
        return Err(program_error(TokenAclError::InvalidGatingProgram));
    }
    Ok(record)
}

/// Whether an idempotent instruction has nothing left to do.
///
/// An instruction that is not idempotent always has. An idempotent one reads
/// the token account, which must belong to the owner that was presented, and
/// has nothing to do where the account is in the state that the operation
/// leaves it in.
pub open spec fn spec_already_satisfied(
    operation: Operation,
    is_idempotent: bool,
    token_account: Seq<u8>,
    token_account_owner: Pubkey,
) -> Result<bool, ProgramError> {
    if !is_idempotent {
        Ok(false)
    } else {
        match TokenAccount::spec_unpack(token_account) {
            Err(error) => Err(error),
            Ok(account) => if account.owner != token_account_owner {
                Err(acl_error(TokenAclError::InvalidTokenAccountOwner))
            } else {
                Ok(account.state == target_state(operation))
            },
        }
    }
}

/// Whether an idempotent instruction has nothing left to do.
pub fn already_satisfied(
    operation: Operation,
    is_idempotent: bool,
    token_account: &[u8],
    token_account_owner: &Pubkey,
) -> (r: Result<bool, ProgramError>)
    ensures
        r == spec_already_satisfied(operation, is_idempotent, token_account@, *token_account_owner),
{
    if !is_idempotent {
        return Ok(false);
    }
    let account = TokenAccount::unpack(token_account)?;
    if account.owner != *token_account_owner {
        return Err(program_error(TokenAclError::InvalidTokenAccountOwner));
    }
    Ok(
        match operation {
            Operation::Freeze => account.state == AccountState::Frozen,
            Operation::Thaw => account.state == AccountState::Initialized,
        },
    )
}

/// The steps of a permissionless instruction that has passed its checks.
///
/// Without a flag account: the call of the gating program, then the call of
/// the token program. With one: the flag account is created, with no balance
/// and one byte, paid for by the caller and signed for with its own seeds;
/// it is armed; the gating program is called; it is disarmed; and only then
/// the token program is called.
pub open spec fn spec_guarded(
    flag: Option<(Pubkey, u8)>,
    authority: Pubkey,
    token_account: Pubkey,
    gate: InstructionView,
    native: StepView,
) -> Seq<StepView> {
    let ask = StepView::Invoke { instruction: gate, signer_seeds: Seq::empty() };
    match flag {
        None => seq![ask, native],
        Some(found) => seq![
            StepView::Invoke {
                instruction: spec_create_account(authority, found.0, 0, 1, spec_id()),
                signer_seeds: flag_signer_seeds(token_account, found.1),
            },
            StepView::Arm { flag_account: found.0 },
            ask,
            StepView::Disarm { flag_account: found.0 },
            native,
        ],
    }
}

/// What a permissionless instruction asks of the host.
///
/// It fails with the error of the first stage that refuses it. An idempotent
/// instruction on an account that is in its target state already asks for
/// nothing, and the gating program is not called.
pub open spec fn spec_permissionless(
    operation: Operation,
    is_idempotent: bool,
    authority: Pubkey,
    mint: Pubkey,
    token_account: AccountInfoView,
    token_account_owner: Pubkey,
    mint_config: AccountInfoView,
    token_program: Pubkey,
    gating_program: Pubkey,
    remaining: Seq<Pubkey>,
    flag: Option<(Pubkey, u8)>,
    resolved: Result<Seq<AccountMeta>, ProgramError>,
) -> Result<Seq<StepView>, ProgramError> {
    match spec_enabled_check(operation, mint_config.data, mint, gating_program) {
        Err(error) => Err(error),
        Ok(record) => match spec_already_satisfied(operation, is_idempotent, token_account.data, token_account_owner) {
            Err(error) => Err(error),
            Ok(satisfied) => if satisfied {
                Ok(Seq::empty())
            } else {
                match spec_gate_instruction(
                    spec_gate_call(
                        spec_question(operation),
                        gating_program,
                        authority,
                        token_account.key,
                        mint,
                        token_account_owner,
                    ),
                    spec_resolver(operation, mint, gating_program),
                    remaining,
                    resolved,
                ) {
                    Err(error) => Err(error),
                    Ok(gate) => match spec_native_step(
                        operation,
                        token_program,
                        token_account.key,
                        mint,
                        mint_config.key,
                        record.bump,
                    ) {
                        Err(error) => Err(error),
                        Ok(native) => Ok(spec_guarded(flag, authority, token_account.key, gate, native)),
                    },
                }
            },
        },
    }
}

/// What the host hands to the account-resolution library before it decides a
/// permissionless instruction: the call to the gating program as far as it
/// stands, and the list that the gating program published.
pub struct GateRequest {
    /// The call with its four accounts and the account of the list.
    pub instruction: Instruction,
    /// What the account of the list stores.
    pub validation_data: Vec<u8>,
}

/// The request for the accounts that the gating program asks for, in
/// contracts: `None` where the caller did not present the gating program's
/// list, so that there is nothing to resolve.
pub open spec fn spec_gate_request(
    operation: Operation,
    authority: Pubkey,
    mint: Pubkey,
    token_account: Pubkey,
    token_account_owner: Pubkey,
    gating_program: Pubkey,
    remaining: Seq<Pubkey>,
) -> Option<InstructionView> {
    let base = spec_gate_call(spec_question(operation), gating_program, authority, token_account, mint, token_account_owner);
    match spec_resolver(operation, mint, gating_program) {
        None => None,
        Some(address) => if presented(remaining, address) {
            Some(InstructionView { accounts: base.accounts + seq![AccountMeta::readonly(address, false)], ..base })
        } else {
            None
        },
    }
}

/// Whether `data` is what the account of the gating program's list stores,
/// as the caller presented it.
pub open spec fn lists(remaining: Seq<AccountInfo>, resolver: Option<Pubkey>, data: Seq<u8>) -> bool {
    exists|i: int|
        0 <= i < remaining.len() && resolver == Some(#[trigger] remaining[i].key) && data == remaining[i].data@
}

fn build_gate_request(
    operation: Operation,
    authority: &Pubkey,
    mint: &Pubkey,
    token_account: &Pubkey,
    token_account_owner: &Pubkey,
    gating_program: &Pubkey,
    remaining: &Vec<AccountInfo>,
) -> (r: Option<GateRequest>)
    ensures
        match r {
            Some(request) => {
                &&& spec_gate_request(
                    operation,
                    *authority,
                    *mint,
                    *token_account,
                    *token_account_owner,
                    *gating_program,
                    account_keys(remaining@),
                ) == Some(request.instruction@)
                &&& lists(remaining@, spec_resolver(operation, *mint, *gating_program), request.validation_data@)
            },
            None => spec_gate_request(
                operation,
                *authority,
                *mint,
                *token_account,
                *token_account_owner,
                *gating_program,
                account_keys(remaining@),
            ) is None,
        },
{
    let address = match resolver(operation, mint, gating_program) {
        Some(address) => address,
        None => {
            return None;
        },
    };
    let position = match find_account(remaining, &address) {
        Some(position) => position,
        None => {
            return None;
        },
    };
    let question = match operation {
        Operation::Freeze => EfficientBlockAllowInstruction::CanFreezePermissionless,
        Operation::Thaw => EfficientBlockAllowInstruction::CanThawPermissionless,
    };
    let mut instruction = gate_call(question, gating_program, authority, token_account, mint, token_account_owner);
    let ghost base = instruction@;
    instruction.accounts.push(AccountMeta::new_readonly(address, false));
    let validation_data = vstd::slice::slice_to_vec(remaining[position].data.as_slice());
    proof {
        assert(question == spec_question(operation));
        assert(instruction@.accounts =~= base.accounts + seq![AccountMeta::readonly(address, false)]);
        assert(remaining@[position as int].key == address);
    }
    Some(GateRequest { instruction, validation_data })
}

fn permissionless(
    operation: Operation,
    is_idempotent: bool,
    authority: &AccountInfo,
    mint: &AccountInfo,
    token_account: &AccountInfo,
    token_account_owner: &AccountInfo,
    mint_config: &AccountInfo,
    token_program: &AccountInfo,
    gating_program: &AccountInfo,
    remaining: &Vec<AccountInfo>,
    flag: Option<(Pubkey, u8)>,
    resolved: &Result<Vec<AccountMeta>, ProgramError>,
) -> (r: Result<Vec<Step>, ProgramError>)
    ensures
        plan_view(r) == spec_permissionless(
            operation,
            is_idempotent,
            authority.key,
            mint.key,
            token_account@,
            token_account_owner.key,
            mint_config@,
            token_program.key,
            gating_program.key,
            account_keys(remaining@),
            flag,
            resolved_view(*resolved),
        ),
{
    let record = enabled_check(operation, mint_config.data.as_slice(), &mint.key, &gating_program.key)?;
    if already_satisfied(operation, is_idempotent, token_account.data.as_slice(), &token_account_owner.key)? {
        let steps: Vec<Step> = Vec::new();
        assert(steps.deep_view() =~= Seq::<StepView>::empty());
        return Ok(steps);
    }
    let question = match operation {
        Operation::Freeze => EfficientBlockAllowInstruction::CanFreezePermissionless,
        Operation::Thaw => EfficientBlockAllowInstruction::CanThawPermissionless,
    };
    let base = gate_call(
        question,
        &gating_program.key,
        &authority.key,
        &token_account.key,
        &mint.key,
        &token_account_owner.key,
    );
    let gate = gate_instruction(base, resolver(operation, &mint.key, &gating_program.key), remaining, resolved)?;
    let native = native_step(
        operation,
        &token_program.key,
        &token_account.key,
        &mint.key,
        &mint_config.key,
        record.bump,
    )?;
    let ghost gate_view = gate@;
    let ghost native_view = native@;
    let mut steps: Vec<Step> = Vec::new();
    match flag {
        None => {
            steps.push(Step::Invoke { instruction: gate, signer_seeds: Vec::new() });
            assert(steps@[0]@ == (StepView::Invoke { instruction: gate_view, signer_seeds: Seq::empty() })) by {
                assert(steps@[0]->signer_seeds.deep_view() =~= Seq::<Seq<u8>>::empty());
            }
            steps.push(native);
            assert(steps.deep_view() =~= spec_guarded(flag, authority.key, token_account.key, gate_view, native_view));
        },
        Some((flag_account, bump)) => {
            steps.push(
                Step::Invoke {
                    instruction: create_account(&authority.key, &flag_account, 0, 1, &id()),
                    signer_seeds: collect_signer_seeds(FLAG_ACCOUNT_SEED_PREFIX.as_slice(), &token_account.key, bump),
                },
            );
            steps.push(Step::Arm { flag_account });
            steps.push(Step::Invoke { instruction: gate, signer_seeds: Vec::new() });
            assert(steps@[2]@ == (StepView::Invoke { instruction: gate_view, signer_seeds: Seq::empty() })) by {
                assert(steps@[2]->signer_seeds.deep_view() =~= Seq::<Seq<u8>>::empty());
            }
            steps.push(Step::Disarm { flag_account });
            steps.push(native);
            assert(steps.deep_view() =~= spec_guarded(flag, authority.key, token_account.key, gate_view, native_view));
        },
    }
    Ok(steps)
}

/// The accounts of a permissionless freeze.
pub struct FreezePermissionless {
    /// The caller, who pays for the flag account.
    pub authority: AccountInfo,
    pub mint: AccountInfo,
    pub token_account: AccountInfo,
    pub flag_account: AccountInfo,
    pub token_account_owner: AccountInfo,
    pub mint_config: AccountInfo,
    pub token_program: AccountInfo,
    pub system_program: AccountInfo,
    pub gating_program: AccountInfo,
    /// What the gating program asks for.
    pub remaining_accounts: Vec<AccountInfo>,
    /// The bump seed of the flag account's address.
    pub flag_account_bump: u8,
}

/// The accounts of a permissionless freeze that succeeds on a frozen
/// account.
pub struct FreezePermissionlessIdempotent {
    pub authority: AccountInfo,
    pub mint: AccountInfo,
    pub token_account: AccountInfo,
    pub flag_account: AccountInfo,
    pub token_account_owner: AccountInfo,
    pub mint_config: AccountInfo,
    pub token_program: AccountInfo,
    pub system_program: AccountInfo,
    pub gating_program: AccountInfo,
    pub remaining_accounts: Vec<AccountInfo>,
    pub flag_account_bump: u8,
}

/// A copy of the accounts from position `from` on.
pub fn copy_accounts(accounts: &[AccountInfo], from: usize) -> (r: Vec<AccountInfo>)
    requires
        from <= accounts@.len(),
    ensures
        r@.len() == accounts@.len() - from,
        forall|i: int| 0 <= i < r@.len() ==> #[trigger] r@[i]@ == accounts@[from + i]@,
{
    let mut out: Vec<AccountInfo> = Vec::new();
    let mut i: usize = from;
    while i < accounts.len()
        invariant
            from <= i <= accounts.len(),
            out@.len() == i - from,
            forall|j: int| 0 <= j < out@.len() ==> #[trigger] out@[j]@ == accounts@[from + j]@,
        decreases accounts.len() - i,
    {
        out.push(accounts[i].duplicate());
        i += 1;
    }
    out
}

/// The bump seed of the flag account's address, if the accounts are those of
/// a permissionless freeze: nine accounts or more, of which the first has
/// signed, the seventh is the token program and the eighth the system
/// program. A token account for whose flag account no address can be derived
/// has invalid seeds.
pub open spec fn spec_check_freeze(accounts: Seq<AccountInfoView>) -> Result<u8, ProgramError> {
    if accounts.len() < 9 {
        Err(ProgramError::NotEnoughAccountKeys)
    } else if !accounts[0].is_signer {
        Err(acl_error(TokenAclError::InvalidAuthority))
    } else if accounts[6].key != spec_token_program_id() {
        Err(acl_error(TokenAclError::InvalidTokenProgram))
    } else if accounts[7].key != Pubkey::spec_default() {
        Err(acl_error(TokenAclError::InvalidSystemProgram))
    } else {
        match spec_flag_account_address(accounts[2].key) {
            None => Err(ProgramError::InvalidSeeds),
            Some(found) => Ok(found.1),
        }
    }
}

fn check_freeze(accounts: &[AccountInfo]) -> (r: Result<u8, ProgramError>)
    ensures
        r == spec_check_freeze(crate::account::account_views(accounts@)),
{
    if accounts.len() < 9 {
        return Err(ProgramError::NotEnoughAccountKeys);
    }
    if !accounts[0].is_signer {
        return Err(program_error(TokenAclError::InvalidAuthority));
    }
    if !is_token_program(&accounts[6].key) {
        return Err(program_error(TokenAclError::InvalidTokenProgram));
    }
    if !is_system_program(&accounts[7].key) {
        return Err(program_error(TokenAclError::InvalidSystemProgram));
    }
    match find_flag_account_address(&accounts[2].key) {
        Some((_, bump)) => Ok(bump),
        None => Err(ProgramError::InvalidSeeds),
    }
}

impl FreezePermissionless {
    pub const DISCRIMINATOR: u8 = 7;

    /// Takes the accounts of the instruction in their order. What follows
    /// the ninth account is what the gating program asks for.
    pub fn try_from(accounts: &[AccountInfo]) -> (r: Result<FreezePermissionless, ProgramError>)
        ensures
            match r {
                Ok(context) => {
                    &&& spec_check_freeze(crate::account::account_views(accounts@)) == Ok::<u8, ProgramError>(
                        context.flag_account_bump,
                    )
                    &&& context.authority@ == accounts@[0]@
                    &&& context.mint@ == accounts@[1]@
                    &&& context.token_account@ == accounts@[2]@
                    &&& context.flag_account@ == accounts@[3]@
                    &&& context.token_account_owner@ == accounts@[4]@
                    &&& context.mint_config@ == accounts@[5]@
                    &&& context.token_program@ == accounts@[6]@
                    &&& context.system_program@ == accounts@[7]@
                    &&& context.gating_program@ == accounts@[8]@
                    &&& context.remaining_accounts@.len() == accounts@.len() - 9
                    &&& forall|i: int|
                        0 <= i < context.remaining_accounts@.len() ==> #[trigger] context.remaining_accounts@[i]@
                            == accounts@[9 + i]@
                },
                Err(error) => spec_check_freeze(crate::account::account_views(accounts@)) == Err::<u8, ProgramError>(
                    error,
                ),
            },
    {
        let flag_account_bump = check_freeze(accounts)?;
        Ok(
            FreezePermissionless {
                authority: accounts[0].duplicate(),
                mint: accounts[1].duplicate(),
                token_account: accounts[2].duplicate(),
                flag_account: accounts[3].duplicate(),
                token_account_owner: accounts[4].duplicate(),
                mint_config: accounts[5].duplicate(),
                token_program: accounts[6].duplicate(),
                system_program: accounts[7].duplicate(),
                gating_program: accounts[8].duplicate(),
                remaining_accounts: copy_accounts(accounts, 9),
                flag_account_bump,
            },
        )
    }

    /// What the account-resolution library is to resolve before `process`,
    /// or `None` where there is nothing to resolve.
    pub fn gate_request(&self) -> (r: Option<GateRequest>)
        ensures
            match r {
                Some(request) => {
                    &&& spec_gate_request(
                        Operation::Freeze,
                        self.authority.key,
                        self.mint.key,
                        self.token_account.key,
                        self.token_account_owner.key,
                        self.gating_program.key,
                        account_keys(self.remaining_accounts@),
                    ) == Some(request.instruction@)
                    &&& lists(
                        self.remaining_accounts@,
                        spec_resolver(Operation::Freeze, self.mint.key, self.gating_program.key),
                        request.validation_data@,
                    )
                },
                None => spec_gate_request(
                    Operation::Freeze,
                    self.authority.key,
                    self.mint.key,
                    self.token_account.key,
                    self.token_account_owner.key,
                    self.gating_program.key,
                    account_keys(self.remaining_accounts@),
                ) is None,
            },
    {
        build_gate_request(
            Operation::Freeze,
            &self.authority.key,
            &self.mint.key,
            &self.token_account.key,
            &self.token_account_owner.key,
            &self.gating_program.key,
            &self.remaining_accounts,
        )
    }

    /// Decides the instruction. `resolved` is what resolving the gating
    /// program's list gave; it is not looked at where `gate_request` is
    /// `None`.
    pub fn process(&self, is_idempotent: bool, resolved: &Result<Vec<AccountMeta>, ProgramError>) -> (r: Result<
        Vec<Step>,
        ProgramError,
    >)
        ensures
            plan_view(r) == spec_permissionless(
                Operation::Freeze,
                is_idempotent,
                self.authority.key,
                self.mint.key,
                self.token_account@,
                self.token_account_owner.key,
                self.mint_config@,
                self.token_program.key,
                self.gating_program.key,
                account_keys(self.remaining_accounts@),
                Some((self.flag_account.key, self.flag_account_bump)),
                resolved_view(*resolved),
            ),
    {
        permissionless(
            Operation::Freeze,
            is_idempotent,
            &self.authority,
            &self.mint,
            &self.token_account,
            &self.token_account_owner,
            &self.mint_config,
            &self.token_program,
            &self.gating_program,
            &self.remaining_accounts,
            Some((self.flag_account.key, self.flag_account_bump)),
            resolved,
        )
    }
}

impl FreezePermissionlessIdempotent {
    pub const DISCRIMINATOR: u8 = 10;

    /// Takes the accounts of the instruction, which are those of a
    /// permissionless freeze.
    pub fn try_from(accounts: &[AccountInfo]) -> (r: Result<FreezePermissionlessIdempotent, ProgramError>)
        ensures
            match r {
                Ok(context) => {
                    &&& spec_check_freeze(crate::account::account_views(accounts@)) == Ok::<u8, ProgramError>(
                        context.flag_account_bump,
                    )
                    &&& context.authority@ == accounts@[0]@
                    &&& context.mint@ == accounts@[1]@
                    &&& context.token_account@ == accounts@[2]@
                    &&& context.flag_account@ == accounts@[3]@
                    &&& context.token_account_owner@ == accounts@[4]@
                    &&& context.mint_config@ == accounts@[5]@
                    &&& context.token_program@ == accounts@[6]@
                    &&& context.system_program@ == accounts@[7]@
                    &&& context.gating_program@ == accounts@[8]@
                    &&& context.remaining_accounts@.len() == accounts@.len() - 9
                    &&& forall|i: int|
                        0 <= i < context.remaining_accounts@.len() ==> #[trigger] context.remaining_accounts@[i]@
                            == accounts@[9 + i]@
                },
                Err(error) => spec_check_freeze(crate::account::account_views(accounts@)) == Err::<u8, ProgramError>(
                    error,
                ),
            },
    {
        let flag_account_bump = check_freeze(accounts)?;
        Ok(
            FreezePermissionlessIdempotent {
                authority: accounts[0].duplicate(),
                mint: accounts[1].duplicate(),
                token_account: accounts[2].duplicate(),
                flag_account: accounts[3].duplicate(),
                token_account_owner: accounts[4].duplicate(),
                mint_config: accounts[5].duplicate(),
                token_program: accounts[6].duplicate(),
                system_program: accounts[7].duplicate(),
                gating_program: accounts[8].duplicate(),
                remaining_accounts: copy_accounts(accounts, 9),
                flag_account_bump,
            },
        )
    }

    /// What the account-resolution library is to resolve before `process`,
    /// or `None` where there is nothing to resolve.
    pub fn gate_request(&self) -> (r: Option<GateRequest>)
        ensures
            match r {
                Some(request) => {
                    &&& spec_gate_request(
                        Operation::Freeze,
                        self.authority.key,
                        self.mint.key,
                        self.token_account.key,
                        self.token_account_owner.key,
                        self.gating_program.key,
                        account_keys(self.remaining_accounts@),
                    ) == Some(request.instruction@)
                    &&& lists(
                        self.remaining_accounts@,
                        spec_resolver(Operation::Freeze, self.mint.key, self.gating_program.key),
                        request.validation_data@,
                    )
                },
                None => spec_gate_request(
                    Operation::Freeze,
                    self.authority.key,
                    self.mint.key,
                    self.token_account.key,
                    self.token_account_owner.key,
                    self.gating_program.key,
                    account_keys(self.remaining_accounts@),
                ) is None,
            },
    {
        build_gate_request(
            Operation::Freeze,
            &self.authority.key,
            &self.mint.key,
            &self.token_account.key,
            &self.token_account_owner.key,
            &self.gating_program.key,
            &self.remaining_accounts,
        )
    }

    /// Decides the instruction: a permissionless freeze that asks for
    /// nothing where the account is frozen already.
    pub fn process(&self, resolved: &Result<Vec<AccountMeta>, ProgramError>) -> (r: Result<Vec<Step>, ProgramError>)
        ensures
            plan_view(r) == spec_permissionless(
                Operation::Freeze,
                true,
                self.authority.key,
                self.mint.key,
                self.token_account@,
                self.token_account_owner.key,
                self.mint_config@,
                self.token_program.key,
                self.gating_program.key,
                account_keys(self.remaining_accounts@),
                Some((self.flag_account.key, self.flag_account_bump)),
                resolved_view(*resolved),
            ),
    {
        permissionless(
            Operation::Freeze,
            true,
            &self.authority,
            &self.mint,
            &self.token_account,
            &self.token_account_owner,
            &self.mint_config,
            &self.token_program,
            &self.gating_program,
            &self.remaining_accounts,
            Some((self.flag_account.key, self.flag_account_bump)),
            resolved,
        )
    }
}

/// The accounts of a permissionless thaw.
pub struct ThawPermissionless {
    /// The caller.
    pub authority: AccountInfo,
    pub mint: AccountInfo,
    pub token_account: AccountInfo,
    pub token_account_owner: AccountInfo,
    pub mint_config: AccountInfo,
    pub token_program: AccountInfo,
    pub gating_program: AccountInfo,
    /// What the gating program asks for.
    pub remaining_accounts: Vec<AccountInfo>,
}

/// Whether the accounts are those of a permissionless thaw: seven accounts
/// or more, of which the first has signed and the sixth is the token
/// program. Fewer accounts are invalid instruction data.
pub open spec fn spec_check_thaw(accounts: Seq<AccountInfoView>) -> Result<(), ProgramError> {
    if accounts.len() < 7 {
        Err(ProgramError::InvalidInstructionData)
    } else if !accounts[0].is_signer {
        Err(acl_error(TokenAclError::InvalidAuthority))
    } else if accounts[5].key != spec_token_program_id() {
        Err(acl_error(TokenAclError::InvalidTokenProgram))
    } else {
        Ok(())
    }
}

impl ThawPermissionless {
    pub const DISCRIMINATOR: u8 = 6;

    /// The selector of the thaw that succeeds on a thawed account.
    pub const IDEMPOTENT_DISCRIMINATOR: u8 = 9;

    /// Takes the accounts of the instruction in their order. What follows
    /// the seventh account is what the gating program asks for.
    pub fn try_from(accounts: &[AccountInfo]) -> (r: Result<ThawPermissionless, ProgramError>)
        ensures
            match r {
                Ok(context) => {
                    &&& spec_check_thaw(crate::account::account_views(accounts@)) is Ok
                    &&& context.authority@ == accounts@[0]@
                    &&& context.mint@ == accounts@[1]@
                    &&& context.token_account@ == accounts@[2]@
                    &&& context.token_account_owner@ == accounts@[3]@
                    &&& context.mint_config@ == accounts@[4]@
                    &&& context.token_program@ == accounts@[5]@
                    &&& context.gating_program@ == accounts@[6]@
                    &&& context.remaining_accounts@.len() == accounts@.len() - 7
                    &&& forall|i: int|
                        0 <= i < context.remaining_accounts@.len() ==> #[trigger] context.remaining_accounts@[i]@
                            == accounts@[7 + i]@
                },
                Err(error) => spec_check_thaw(crate::account::account_views(accounts@)) == Err::<(), ProgramError>(
                    error,
                ),
            },
    {
        if accounts.len() < 7 {
            return Err(ProgramError::InvalidInstructionData);
        }
        if !accounts[0].is_signer {
            return Err(program_error(TokenAclError::InvalidAuthority));
        }
        if !is_token_program(&accounts[5].key) {
            return Err(program_error(TokenAclError::InvalidTokenProgram));
        }
        Ok(
            ThawPermissionless {
                authority: accounts[0].duplicate(),
                mint: accounts[1].duplicate(),
                token_account: accounts[2].duplicate(),
                token_account_owner: accounts[3].duplicate(),
                mint_config: accounts[4].duplicate(),
                token_program: accounts[5].duplicate(),
                gating_program: accounts[6].duplicate(),
                remaining_accounts: copy_accounts(accounts, 7),
            },
        )
    }

    /// What the account-resolution library is to resolve before `process`,
    /// or `None` where there is nothing to resolve.
    pub fn gate_request(&self) -> (r: Option<GateRequest>)
        ensures
            match r {
                Some(request) => {
                    &&& spec_gate_request(
                        Operation::Thaw,
                        self.authority.key,
                        self.mint.key,
                        self.token_account.key,
                        self.token_account_owner.key,
                        self.gating_program.key,
                        account_keys(self.remaining_accounts@),
                    ) == Some(request.instruction@)
                    &&& lists(
                        self.remaining_accounts@,
                        spec_resolver(Operation::Thaw, self.mint.key, self.gating_program.key),
                        request.validation_data@,
                    )
                },
                None => spec_gate_request(
                    Operation::Thaw,
                    self.authority.key,
                    self.mint.key,
                    self.token_account.key,
                    self.token_account_owner.key,
                    self.gating_program.key,
                    account_keys(self.remaining_accounts@),
                ) is None,
            },
    {
        build_gate_request(
            Operation::Thaw,
            &self.authority.key,
            &self.mint.key,
            &self.token_account.key,
            &self.token_account_owner.key,
            &self.gating_program.key,
            &self.remaining_accounts,
        )
    }

    /// Decides the instruction. `resolved` is what resolving the gating
    /// program's list gave; it is not looked at where `gate_request` is
    /// `None`.
    pub fn process(&self, is_idempotent: bool, resolved: &Result<Vec<AccountMeta>, ProgramError>) -> (r: Result<
        Vec<Step>,
        ProgramError,
    >)
        ensures
            plan_view(r) == spec_permissionless(
                Operation::Thaw,
                is_idempotent,
                self.authority.key,
                self.mint.key,
                self.token_account@,
                self.token_account_owner.key,
                self.mint_config@,
                self.token_program.key,
                self.gating_program.key,
                account_keys(self.remaining_accounts@),
                None,
                resolved_view(*resolved),
            ),
    {
        permissionless(
            Operation::Thaw,
            is_idempotent,
            &self.authority,
            &self.mint,
            &self.token_account,
            &self.token_account_owner,
            &self.mint_config,
            &self.token_program,
            &self.gating_program,
            &self.remaining_accounts,
            None,
            resolved,
        )
    }
}

} // verus!

//! What holds of the program as a whole.

use crate::account::{AccountInfoView, AccountMeta, InstructionView};
use crate::config::{acl_error, changed, spec_change, Change, CreateConfig, SetAuthority, SetGatingProgram};
use crate::error::{ProgramError, ProgramResult, TokenAclError, ACCOUNT_ALREADY_IN_USE};
use crate::gate::spec_gate_call;
use crate::native::{accepts_token_program, token_account_of, AccountState, TokenAccount};
use crate::permissionless::{
    not_enabled, spec_already_satisfied, spec_enabled, spec_enabled_check, spec_guarded, spec_permissionless,
    spec_question, spec_resolver, target_state,
};
use crate::plan::{
    armed_after, initial_progress, progress_fits, releases_flag, spec_next, spec_outcome, spec_report, Outcome,
    Progress, StepView,
};
use crate::privileged::{spec_native_step, Operation};
use crate::pubkey::Pubkey;
use crate::resolution::{all_presented, presented, spec_gate_instruction, spec_is_resolution_error, INCORRECT_ACCOUNT};
use crate::state::{lemma_load_after_pack, spec_load_mint_config, MintConfig};
use vstd::prelude::*;

verus! {

/// A mint has one record: once a record has been created and written into
/// its account, every further creation at that account fails, whoever asks
/// and with whatever mint data, and with the system program's code for an
/// address in use wherever the payload is an address.
pub proof fn law_record_is_created_once(
    authority: Pubkey,
    mint: AccountInfoView,
    mint_config: AccountInfoView,
    token_program: Pubkey,
    config_bump: u8,
    remaining_data: Seq<u8>,
    lamports: u64,
    steps: Seq<StepView>,
    second_authority: Pubkey,
    second_mint: AccountInfoView,
    second_mint_config: AccountInfoView,
    second_token_program: Pubkey,
    second_bump: u8,
    second_data: Seq<u8>,
    second_lamports: u64,
)
    requires
        CreateConfig::spec_process(
            authority,
            mint,
            mint_config,
            token_program,
            config_bump,
            remaining_data,
            lamports,
        ) == Ok::<Seq<StepView>, ProgramError>(steps),
        second_mint_config.key == mint_config.key,
        steps[1] matches StepView::Write { data, .. } && second_mint_config.data == data,
    ensures
        steps.len() >= 2,
        steps[1] matches StepView::Write { account, data } && account == mint_config.key && data.len() == 100,
        CreateConfig::spec_process(
            second_authority,
            second_mint,
            second_mint_config,
            second_token_program,
            second_bump,
            second_data,
            second_lamports,
        ) is Err,
        second_data.len() == 32 ==> CreateConfig::spec_process(
            second_authority,
            second_mint,
            second_mint_config,
            second_token_program,
            second_bump,
            second_data,
            second_lamports,
        ) == Err::<Seq<StepView>, ProgramError>(ProgramError::Custom(ACCOUNT_ALREADY_IN_USE)),
{
    let record = MintConfig::spec_new(mint.key, authority, Pubkey::spec_from_bytes(remaining_data), config_bump);
    record.lemma_pack_len();
}

/// Only the record's authority changes the record. A change of the authority
/// or of the gating program by anybody else fails with `InvalidAuthority`.
/// By the authority it succeeds, and the record that is then written reads
/// back with the new address in its place and everything else as it was.
pub proof fn law_only_the_authority_changes_the_record(
    record: MintConfig,
    mint_config: AccountInfoView,
    caller: Pubkey,
    new_key: Pubkey,
)
    requires
        record.spec_is_initialized(),
        mint_config.data == record.spec_pack(),
    ensures
        caller != record.freeze_authority ==> {
            &&& SetAuthority::spec_process(caller, mint_config, new_key.bytes()) == Err::<
                Seq<StepView>,
                ProgramError,
            >(acl_error(TokenAclError::InvalidAuthority))
            &&& SetGatingProgram::spec_process(caller, mint_config, new_key.bytes()) == Err::<
                Seq<StepView>,
                ProgramError,
            >(acl_error(TokenAclError::InvalidAuthority))
        },
        caller == record.freeze_authority ==> {
            &&& SetAuthority::spec_process(caller, mint_config, new_key.bytes()) == Ok::<
                Seq<StepView>,
                ProgramError,
            >(
                seq![
                    StepView::Write {
                        account: mint_config.key,
                        data: (MintConfig { freeze_authority: new_key, ..record }).spec_pack(),
                    },
                ],
            )
            &&& SetGatingProgram::spec_process(caller, mint_config, new_key.bytes()) == Ok::<
                Seq<StepView>,
                ProgramError,
            >(
                seq![
                    StepView::Write {
                        account: mint_config.key,
                        data: (MintConfig { gating_program: new_key, ..record }).spec_pack(),
                    },
                ],
            )
        },
        spec_load_mint_config((MintConfig { freeze_authority: new_key, ..record }).spec_pack()) == Ok::<
            MintConfig,
            ProgramError,
        >(MintConfig { freeze_authority: new_key, ..record }),
        spec_load_mint_config((MintConfig { gating_program: new_key, ..record }).spec_pack()) == Ok::<
            MintConfig,
            ProgramError,
        >(MintConfig { gating_program: new_key, ..record }),
{
    lemma_load_after_pack(record);
    lemma_load_after_pack(MintConfig { freeze_authority: new_key, ..record });
    lemma_load_after_pack(MintConfig { gating_program: new_key, ..record });
    Pubkey::lemma_same_bytes(new_key, new_key);
    Pubkey::lemma_round_trip(new_key);
}

/// A permissionless operation that the record of the presented mint has not
/// enabled fails with the error for it, whatever else the call holds. It
/// asks nothing of the host, so that the token account stays as it is.
pub proof fn law_disabled_operation_fails(
    operation: Operation,
    record: MintConfig,
    is_idempotent: bool,
    authority: Pubkey,
    mint: Pubkey,
    token_account: AccountInfoView,
    token_account_owner: Pubkey,
    mint_config: AccountInfoView,
    token_program: Pubkey,
    gating_program: Pubkey,
    remaining: Seq<Pubkey>,
    flag: Option<(Pubkey, u8)>,
    resolved: Result<Seq<AccountMeta>, ProgramError>,
)
    requires
        record.spec_is_initialized(),
        mint_config.data == record.spec_pack(),
        record.mint == mint,
        !spec_enabled(operation, record),
    ensures
        spec_permissionless(
            operation,
            is_idempotent,
            authority,
            mint,
            token_account,
            token_account_owner,
            mint_config,
            token_program,
            gating_program,
            remaining,
            flag,
            resolved,
        ) == Err::<Seq<StepView>, ProgramError>(not_enabled(operation)),
        not_enabled(Operation::Freeze) == ProgramError::Custom(7),
        not_enabled(Operation::Thaw) == ProgramError::Custom(6),
{
    lemma_load_after_pack(record);
}

/// The record after its authority has stated the two flags: it has exactly
/// these flags, and is otherwise the record it was.
pub proof fn law_toggle_sets_both_flags(
    record: MintConfig,
    mint_config: AccountInfoView,
    freeze_enabled: bool,
    thaw_enabled: bool,
)
    requires
        record.spec_is_initialized(),
        mint_config.data == record.spec_pack(),
    ensures
        spec_change(record.freeze_authority, mint_config, Change::Flags { freeze_enabled, thaw_enabled }) == Ok::<
            Seq<StepView>,
            ProgramError,
        >(
            seq![
                StepView::Write {
                    account: mint_config.key,
                    data: changed(record, Change::Flags { freeze_enabled, thaw_enabled }).spec_pack(),
                },
            ],
        ),
        spec_load_mint_config(changed(record, Change::Flags { freeze_enabled, thaw_enabled }).spec_pack()) == Ok::<
            MintConfig,
            ProgramError,
        >(changed(record, Change::Flags { freeze_enabled, thaw_enabled })),
        spec_enabled(Operation::Freeze, changed(record, Change::Flags { freeze_enabled, thaw_enabled }))
            == freeze_enabled,
        spec_enabled(Operation::Thaw, changed(record, Change::Flags { freeze_enabled, thaw_enabled })) == thaw_enabled,
        changed(record, Change::Flags { freeze_enabled, thaw_enabled }).mint == record.mint,
        changed(record, Change::Flags { freeze_enabled, thaw_enabled }).gating_program == record.gating_program,
        changed(record, Change::Flags { freeze_enabled, thaw_enabled }).freeze_authority == record.freeze_authority,
{
    lemma_load_after_pack(record);
    lemma_load_after_pack(changed(record, Change::Flags { freeze_enabled, thaw_enabled }));
}

/// A permissionless operation that is enabled in the record, with the
/// record's gating program presented and its accounts resolved, asks the
/// host for the guarded call of the gating program and then for the call of
/// the token program. Where the gating program and everything else returns
/// without an error, the steps are carried out to the last, which is the
/// call of the token program, and the instruction succeeds with no flag
/// account left armed.
pub proof fn law_allowed_operation_reaches_the_token_program(
    operation: Operation,
    record: MintConfig,
    authority: Pubkey,
    token_account: AccountInfoView,
    token_account_owner: Pubkey,
    mint_config: AccountInfoView,
    token_program: Pubkey,
    remaining: Seq<Pubkey>,
    flag_account: Pubkey,
    flag_bump: u8,
    resolved: Result<Seq<AccountMeta>, ProgramError>,
    gate: InstructionView,
)
    requires
        record.spec_is_initialized(),
        mint_config.data == record.spec_pack(),
        spec_enabled(operation, record),
        accepts_token_program(token_program),
        spec_gate_instruction(
            spec_gate_call(
                spec_question(operation),
                record.gating_program,
                authority,
                token_account.key,
                record.mint,
                token_account_owner,
            ),
            spec_resolver(operation, record.mint, record.gating_program),
            remaining,
            resolved,
        ) == Ok::<InstructionView, ProgramError>(gate),
    ensures
        ({
            let flag = match operation {
                Operation::Freeze => Some((flag_account, flag_bump)),
                Operation::Thaw => None,
            };
            let native = spec_native_step(
                operation,
                token_program,
                token_account.key,
                record.mint,
                mint_config.key,
                record.bump,
            );
            let steps = spec_guarded(flag, authority, token_account.key, gate, native->Ok_0);
            let done = all_succeeded(steps);
            &&& native is Ok
            &&& spec_permissionless(
                operation,
                false,
                authority,
                record.mint,
                token_account,
                token_account_owner,
                mint_config,
                token_program,
                record.gating_program,
                remaining,
                flag,
                resolved,
            ) == Ok::<Seq<StepView>, ProgramError>(steps)
            &&& steps.last() == native->Ok_0
            &&& releases_flag(steps)
            &&& done.position == steps.len()
            &&& done.armed is None
            &&& spec_outcome(steps, done) == Outcome::Succeeded
        }),
{
    lemma_load_after_pack(record);
    reveal_with_fuel(armed_after, 6);
    reveal_with_fuel(succeeded_through, 6);
}

/// The state after the first `count` steps have succeeded.
pub open spec fn succeeded_through(steps: Seq<StepView>, count: nat) -> Progress
    decreases count,
{
    if count == 0 {
        initial_progress()
    } else {
        spec_report(steps, succeeded_through(steps, (count - 1) as nat), Ok(()))
    }
}

/// The state after every step has succeeded.
pub open spec fn all_succeeded(steps: Seq<StepView>) -> Progress {
    succeeded_through(steps, steps.len())
}

/// An idempotent operation on a token account of the presented owner that is
/// in its target state already succeeds without asking anything of the host:
/// the gating program is not called, and neither is the token program.
pub proof fn law_idempotent_operation_is_a_no_op(
    operation: Operation,
    record: MintConfig,
    account: TokenAccount,
    authority: Pubkey,
    token_account: AccountInfoView,
    mint_config: AccountInfoView,
    token_program: Pubkey,
    remaining: Seq<Pubkey>,
    flag: Option<(Pubkey, u8)>,
    resolved: Result<Seq<AccountMeta>, ProgramError>,
)
    requires
        record.spec_is_initialized(),
        mint_config.data == record.spec_pack(),
        spec_enabled(operation, record),
        token_account_of(token_account.data) == Ok::<TokenAccount, u64>(account),
        account.state == target_state(operation),
    ensures
        spec_permissionless(
            operation,
            true,
            authority,
            record.mint,
            token_account,
            account.owner,
            mint_config,
            token_program,
            record.gating_program,
            remaining,
            flag,
            resolved,
        ) == Ok::<Seq<StepView>, ProgramError>(Seq::empty()),
        spec_outcome(Seq::<StepView>::empty(), initial_progress()) == Outcome::Succeeded,
        target_state(Operation::Freeze) == AccountState::Frozen,
        target_state(Operation::Thaw) == AccountState::Initialized,
{
    lemma_load_after_pack(record);
}

/// Where the gating program's list resolves to an account that the caller
/// did not present, a permissionless operation that has passed its checks
/// fails with the resolution error for an incorrect account. It does not go
/// on with the accounts that were presented.
pub proof fn law_unresolved_account_fails(
    operation: Operation,
    record: MintConfig,
    is_idempotent: bool,
    authority: Pubkey,
    token_account: AccountInfoView,
    token_account_owner: Pubkey,
    mint_config: AccountInfoView,
    token_program: Pubkey,
    remaining: Seq<Pubkey>,
    flag: Option<(Pubkey, u8)>,
    metas: Seq<AccountMeta>,
    resolver: Pubkey,
)
    requires
        record.spec_is_initialized(),
        mint_config.data == record.spec_pack(),
        spec_enabled(operation, record),
        spec_already_satisfied(operation, is_idempotent, token_account.data, token_account_owner) == Ok::<
            bool,
            ProgramError,
        >(false),
        spec_resolver(operation, record.mint, record.gating_program) == Some(resolver),
        presented(remaining, resolver),
        !all_presented(remaining, metas),
    ensures
        spec_permissionless(
            operation,
            is_idempotent,
            authority,
            record.mint,
            token_account,
            token_account_owner,
            mint_config,
            token_program,
            record.gating_program,
            remaining,
            flag,
            Ok(metas),
        ) == Err::<Seq<StepView>, ProgramError>(ProgramError::Custom(INCORRECT_ACCOUNT)),
        spec_is_resolution_error(INCORRECT_ACCOUNT),
{
    lemma_load_after_pack(record);
}

/// Where the gating program returns an error, a guarded operation fails with
/// that very error. All that the host still does is to disarm the flag
/// account; the call of the token program is never asked for, so that the
/// token account stays as it is.
pub proof fn law_denied_operation_fails_with_the_gate_error(
    flag: Option<(Pubkey, u8)>,
    authority: Pubkey,
    token_account: Pubkey,
    gate: InstructionView,
    native: StepView,
    denial: ProgramError,
    later: ProgramResult,
)
    requires
        native is Invoke,
    ensures
        ({
            let steps = spec_guarded(flag, authority, token_account, gate, native);
            let asked = succeeded_through(
                steps,
                if flag is Some {
                    2
                } else {
                    0
                },
            );
            let denied = spec_report(steps, asked, Err(denial));
            let ended = if flag is Some {
                spec_report(steps, denied, later)
            } else {
                denied
            };
            &&& spec_next(steps, asked) == Some(StepView::Invoke { instruction: gate, signer_seeds: Seq::empty() })
            &&& denied.failure == Some(denial)
            &&& flag matches Some(found) ==> spec_next(steps, denied) == Some(
                StepView::Disarm { flag_account: found.0 },
            )
            &&& spec_next(steps, ended) is None
            &&& ended.armed is None
            &&& spec_outcome(steps, ended) == Outcome::Failed(denial)
        }),
{
    reveal_with_fuel(armed_after, 6);
    reveal_with_fuel(succeeded_through, 6);
}

/// No change touches what a record is about: its mint, its bump seed and its
/// discriminator stay. A change of the authority leaves the gating program
/// and the flags, a change of the gating program the authority and the
/// flags, and a change of the flags the authority and the gating program.
pub proof fn law_changes_keep_the_mint(record: MintConfig, change: Change)
    ensures
        changed(record, change).mint == record.mint,
        changed(record, change).bump == record.bump,
        changed(record, change).discriminator == record.discriminator,
        change is Authority ==> changed(record, change) == (MintConfig {
            freeze_authority: change->Authority_0,
            ..record
        }),
        change is GatingProgram ==> changed(record, change) == (MintConfig {
            gating_program: change->GatingProgram_0,
            ..record
        }),
        change is Flags ==> changed(record, change).freeze_authority == record.freeze_authority && changed(
            record,
            change,
        ).gating_program == record.gating_program,
{
}

/// A change of the record is only ever asked of the host where the account
/// holds an initialized record and the caller is the record's authority; and
/// what is asked is that the changed record be written.
pub proof fn law_changes_are_the_authoritys(
    caller: Pubkey,
    mint_config: AccountInfoView,
    change: Change,
    steps: Seq<StepView>,
)
    requires
        spec_change(caller, mint_config, change) == Ok::<Seq<StepView>, ProgramError>(steps),
    ensures
        spec_load_mint_config(mint_config.data) matches Ok(record) && record.freeze_authority == caller
            && record.spec_is_initialized() && record.spec_pack() == mint_config.data && steps == seq![
            StepView::Write { account: mint_config.key, data: changed(record, change).spec_pack() },
        ],
{
    crate::state::lemma_pack_after_unpack(mint_config.data);
}

/// A freeze or thaw on the authority's word is only ever asked of the host
/// where the caller is the authority of the record and the record governs
/// the mint that was presented.
pub proof fn law_direct_operation_is_the_authoritys(
    operation: Operation,
    authority: Pubkey,
    mint: Pubkey,
    token_account: Pubkey,
    mint_config: AccountInfoView,
    token_program: Pubkey,
)
    requires
        crate::privileged::spec_privileged(operation, authority, mint, token_account, mint_config, token_program)
            is Ok,
    ensures
        spec_load_mint_config(mint_config.data) matches Ok(record) && record.freeze_authority == authority
            && record.mint == mint,
{
}

/// A permissionless operation asks the host for a call of the token program
/// only where the record governs the mint that was presented, has the
/// operation enabled, and names the gating program that was presented; and
/// then the call of the gating program comes before it.
pub proof fn law_permissionless_operation_is_checked(
    operation: Operation,
    is_idempotent: bool,
    authority: Pubkey,
    mint: Pubkey,
    token_account: AccountInfoView,
    token_account_owner: Pubkey,
    mint_config: AccountInfoView,
    token_program: Pubkey,
    gating_program: Pubkey,
    remaining: Seq<Pubkey>,
    flag: Option<(Pubkey, u8)>,
    resolved: Result<Seq<AccountMeta>, ProgramError>,
    steps: Seq<StepView>,
)
    requires
        spec_permissionless(
            operation,
            is_idempotent,
            authority,
            mint,
            token_account,
            token_account_owner,
            mint_config,
            token_program,
            gating_program,
            remaining,
            flag,
            resolved,
        ) == Ok::<Seq<StepView>, ProgramError>(steps),
    ensures
        spec_load_mint_config(mint_config.data) matches Ok(record) && record.mint == mint && spec_enabled(
            operation,
            record,
        ) && record.gating_program == gating_program,
        steps.len() == 0 || steps.len() == 2 || steps.len() == 5,
        steps.len() == 0 ==> is_idempotent,
        steps.len() > 0 ==> {
            let ask = (steps.len() - 2) / 2 * 2;
            &&& steps[ask] matches StepView::Invoke { instruction, .. } && instruction.program_id == gating_program
            &&& steps.last() matches StepView::Invoke { instruction, .. } && instruction.program_id == token_program
            &&& accepts_token_program(token_program)
            &&& releases_flag(steps)
        },
{
    reveal_with_fuel(armed_after, 6);
}

/// The host is asked for the steps in their order: after the first `count`
/// steps have succeeded, the next is the step at position `count`.
pub proof fn law_steps_are_taken_in_order(steps: Seq<StepView>, count: nat)
    requires
        count <= steps.len(),
    ensures
        succeeded_through(steps, count).position == count,
        succeeded_through(steps, count).failure is None,
        progress_fits(steps, succeeded_through(steps, count)),
        count < steps.len() ==> spec_next(steps, succeeded_through(steps, count)) == Some(steps[count as int]),
        count == steps.len() ==> spec_outcome(steps, succeeded_through(steps, count)) == Outcome::Succeeded,
    decreases count,
{
    if count > 0 {
        law_steps_are_taken_in_order(steps, (count - 1) as nat);
    }
}

/// The record of a mint has one address. Whatever else two creations for
/// the same mint present, where both have their accounts in order they take
/// the same bump seed, which is that of the address derived for the mint's
/// record; and the account that each asks the host to create is signed for
/// with the seeds of that one address.
pub proof fn law_record_has_one_address(
    first: Seq<AccountInfoView>,
    second: Seq<AccountInfoView>,
    remaining_data: Seq<u8>,
    lamports: u64,
    steps: Seq<StepView>,
)
    requires
        CreateConfig::spec_check(first) is Ok,
        CreateConfig::spec_check(second) is Ok,
        first[2].key == second[2].key,
        CreateConfig::spec_process(
            second[1].key,
            second[2],
            second[3],
            second[5].key,
            CreateConfig::spec_check(second)->Ok_0,
            remaining_data,
            lamports,
        ) == Ok::<Seq<StepView>, ProgramError>(steps),
    ensures
        CreateConfig::spec_check(first) == CreateConfig::spec_check(second),
        crate::program::spec_mint_config_address(first[2].key) matches Some(found) && found.1
            == CreateConfig::spec_check(first)->Ok_0,
        steps[0] matches StepView::Invoke { signer_seeds, .. } && signer_seeds
            == crate::program::config_signer_seeds(first[2].key, CreateConfig::spec_check(first)->Ok_0),
{
}

} // verus!

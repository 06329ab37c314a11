//! The program's entry: from the accounts and the data of an instruction to
//! what the instruction asks of the host.

use crate::account::{account_keys, account_views, AccountInfo, AccountMeta};
use crate::config::{
    spec_check_change, CreateConfig, DeleteConfig, ForfeitFreezeAuthority, SetAuthority, SetGatingProgram,
    TogglePermissionlessInstructions,
};
use crate::error::ProgramError;
use crate::permissionless::{
    lists, spec_check_freeze, spec_check_thaw, spec_permissionless, spec_resolver, FreezePermissionless,
    FreezePermissionlessIdempotent, GateRequest, ThawPermissionless,
};
use crate::plan::{Step, StepView};
use crate::privileged::{spec_check_privileged, spec_privileged, Freeze, Operation, Thaw};
use crate::program::plan_view;
use crate::pubkey::Pubkey;
use crate::resolution::resolved_view;
use vstd::prelude::*;

verus! {

/// The addresses of the accounts from position `from` on.
pub open spec fn remaining_keys(accounts: Seq<AccountInfo>, from: int) -> Seq<Pubkey> {
    Seq::new((accounts.len() - from) as nat, |i: int| accounts[from + i].key)
}

/// Copies of the accounts from position `from` on have their addresses.
pub proof fn lemma_remaining_keys(copies: Seq<AccountInfo>, accounts: Seq<AccountInfo>, from: int)
    requires
        0 <= from <= accounts.len(),
        copies.len() == accounts.len() - from,
        forall|i: int| 0 <= i < copies.len() ==> #[trigger] copies[i]@ == accounts[from + i]@,
    ensures
        account_keys(copies) == remaining_keys(accounts, from),
{
    assert forall|i: int| 0 <= i < copies.len() implies account_keys(copies)[i] == remaining_keys(accounts, from)[i] by {
        assert(copies[i]@ == accounts[from + i]@);
    }
    assert(account_keys(copies) =~= remaining_keys(accounts, from));
}

/// What a copy of the accounts from position `from` on lists, the accounts
/// themselves hold.
pub proof fn lemma_listed(
    copies: Seq<AccountInfo>,
    accounts: Seq<AccountInfo>,
    from: int,
    resolver: Option<Pubkey>,
    last: Pubkey,
    data: Seq<u8>,
)
    requires
        0 <= from <= accounts.len(),
        copies.len() == accounts.len() - from,
        forall|i: int| 0 <= i < copies.len() ==> #[trigger] copies[i]@ == accounts[from + i]@,
        lists(copies, resolver, data),
        resolver == Some(last),
    ensures
        exists|i: int| 0 <= i < accounts.len() && last == (#[trigger] accounts[i]).key && data == accounts[i].data@,
{
    let j = choose|j: int| 0 <= j < copies.len() && resolver == Some(#[trigger] copies[j].key) && data == copies[j].data@;
    assert(copies[j]@ == accounts[from + j]@);
    assert(accounts[from + j].key == last);
}

/// What a permissionless freeze asks of the host, by its accounts.
pub open spec fn spec_freeze_permissionless(
    accounts: Seq<AccountInfo>,
    is_idempotent: bool,
    resolved: Result<Seq<AccountMeta>, ProgramError>,
) -> Result<Seq<StepView>, ProgramError> {
    match spec_check_freeze(account_views(accounts)) {
        Err(error) => Err(error),
        Ok(bump) => spec_permissionless(
            Operation::Freeze,
            is_idempotent,
            accounts[0].key,
            accounts[1].key,
            accounts[2]@,
            accounts[4].key,
            accounts[5]@,
            accounts[6].key,
            accounts[8].key,
            remaining_keys(accounts, 9),
            Some((accounts[3].key, bump)),
            resolved,
        ),
    }
}

/// What a permissionless thaw asks of the host, by its accounts.
pub open spec fn spec_thaw_permissionless(
    accounts: Seq<AccountInfo>,
    is_idempotent: bool,
    resolved: Result<Seq<AccountMeta>, ProgramError>,
) -> Result<Seq<StepView>, ProgramError> {
    match spec_check_thaw(account_views(accounts)) {
        Err(error) => Err(error),
        Ok(_) => spec_permissionless(
            Operation::Thaw,
            is_idempotent,
            accounts[0].key,
            accounts[1].key,
            accounts[2]@,
            accounts[3].key,
            accounts[4]@,
            accounts[5].key,
            accounts[6].key,
            remaining_keys(accounts, 7),
            None,
            resolved,
        ),
    }
}

/// What an instruction asks of the host.
///
/// The first byte of the data selects the instruction: 0 creates a record,
/// 1 sets its authority, 2 its gating program, 3 gives the mint's freeze
/// authority away, 4 thaws and 5 freezes on the authority's word, 6 thaws
/// and 7 freezes for any caller, 8 sets the permissionless flags, 9 and 10
/// are the idempotent thaw and freeze, 11 removes the record. The accounts
/// are checked first, then the rest of the data and the record. Data that is
/// empty or begins with another byte is invalid instruction data.
pub open spec fn spec_process_instruction(
    accounts: Seq<AccountInfo>,
    instruction_data: Seq<u8>,
    rent_exempt_lamports: u64,
    resolved: Result<Seq<AccountMeta>, ProgramError>,
) -> Result<Seq<StepView>, ProgramError> {
    if instruction_data.len() == 0 {
        Err(ProgramError::InvalidInstructionData)
    } else {
        let rest = instruction_data.subrange(1, instruction_data.len() as int);
        let selector = instruction_data[0];
        let views = account_views(accounts);
        if selector == 0 {
            match CreateConfig::spec_check(views) {
                Err(error) => Err(error),
                Ok(bump) => CreateConfig::spec_process(
                    accounts[1].key,
                    accounts[2]@,
                    accounts[3]@,
                    accounts[5].key,
                    bump,
                    rest,
                    rent_exempt_lamports,
                ),
            }
        } else if selector == 1 {
            match spec_check_change(views) {
                Err(error) => Err(error),
                Ok(_) => SetAuthority::spec_process(accounts[0].key, accounts[1]@, rest),
            }
        } else if selector == 2 {
            match spec_check_change(views) {
                Err(error) => Err(error),
                Ok(_) => SetGatingProgram::spec_process(accounts[0].key, accounts[1]@, rest),
            }
        } else if selector == 3 {
            match ForfeitFreezeAuthority::spec_check(views) {
                Err(error) => Err(error),
                Ok(_) => ForfeitFreezeAuthority::spec_process(
                    accounts[0].key,
                    accounts[1].key,
                    accounts[2]@,
                    accounts[3].key,
                    rest,
                ),
            }
        } else if selector == 4 || selector == 5 {
            match spec_check_privileged(views) {
                Err(error) => Err(error),
                Ok(_) => spec_privileged(
                    if selector == 4 {
                        Operation::Thaw
                    } else {
                        Operation::Freeze
                    },
                    accounts[0].key,
                    accounts[1].key,
                    accounts[2].key,
                    accounts[3]@,
                    accounts[4].key,
                ),
            }
        } else if selector == 6 {
            spec_thaw_permissionless(accounts, false, resolved)
        } else if selector == 7 {
            spec_freeze_permissionless(accounts, false, resolved)
        } else if selector == 8 {
            match spec_check_change(views) {
                Err(error) => Err(error),
                Ok(_) => TogglePermissionlessInstructions::spec_process(accounts[0].key, accounts[1]@, rest),
            }
        } else if selector == 9 {
            spec_thaw_permissionless(accounts, true, resolved)
        } else if selector == 10 {
            spec_freeze_permissionless(accounts, true, resolved)
        } else if selector == 11 {
            match DeleteConfig::spec_check(views) {
                Err(error) => Err(error),
                Ok(_) => DeleteConfig::spec_process(accounts[0].key, accounts[1]@, accounts[2].key, accounts[3]@, rest),
            }
        } else {
            Err(ProgramError::InvalidInstructionData)
        }
    }
}

/// Decides an instruction of the program.
///
/// `rent_exempt_lamports` is the balance that keeps an account of the size
/// of a record exempt from rent. `resolved` is what resolving the request of
/// `gate_request` gave. Both come from the host; an instruction that needs
/// neither does not look at them.
pub fn process_instruction(
    _program_id: &Pubkey,
    accounts: &[AccountInfo],
    instruction_data: &[u8],
    rent_exempt_lamports: u64,
    resolved: &Result<Vec<AccountMeta>, ProgramError>,
) -> (r: Result<Vec<Step>, ProgramError>)
    ensures
        plan_view(r) == spec_process_instruction(
            accounts@,
            instruction_data@,
            rent_exempt_lamports,
            resolved_view(*resolved),
        ),
{
    if instruction_data.len() == 0 {
        return Err(ProgramError::InvalidInstructionData);
    }
    let remaining_data = vstd::slice::slice_subrange(instruction_data, 1, instruction_data.len());
    let selector = instruction_data[0];
    if selector == CreateConfig::DISCRIMINATOR {
        CreateConfig::try_from(accounts)?.process(remaining_data, rent_exempt_lamports)
    } else if selector == SetAuthority::DISCRIMINATOR {
        SetAuthority::try_from(accounts)?.process(remaining_data)
    } else if selector == SetGatingProgram::DISCRIMINATOR {
        SetGatingProgram::try_from(accounts)?.process(remaining_data)
    } else if selector == ForfeitFreezeAuthority::DISCRIMINATOR {
        ForfeitFreezeAuthority::try_from(accounts)?.process(remaining_data)
    } else if selector == Thaw::DISCRIMINATOR {
        Thaw::try_from(accounts)?.process()
    } else if selector == Freeze::DISCRIMINATOR {
        Freeze::try_from(accounts)?.process()
    } else if selector == ThawPermissionless::DISCRIMINATOR || selector
        == ThawPermissionless::IDEMPOTENT_DISCRIMINATOR {
        let context = ThawPermissionless::try_from(accounts)?;
        proof {
            lemma_remaining_keys(context.remaining_accounts@, accounts@, 7);
        }
        context.process(selector == ThawPermissionless::IDEMPOTENT_DISCRIMINATOR, resolved)
    } else if selector == FreezePermissionless::DISCRIMINATOR {
        let context = FreezePermissionless::try_from(accounts)?;
        proof {
            lemma_remaining_keys(context.remaining_accounts@, accounts@, 9);
        }
        context.process(false, resolved)
    } else if selector == FreezePermissionlessIdempotent::DISCRIMINATOR {
        let context = FreezePermissionlessIdempotent::try_from(accounts)?;
        proof {
            lemma_remaining_keys(context.remaining_accounts@, accounts@, 9);
        }
        context.process(resolved)
    } else if selector == TogglePermissionlessInstructions::DISCRIMINATOR {
        TogglePermissionlessInstructions::try_from(accounts)?.process(remaining_data)
    } else if selector == DeleteConfig::DISCRIMINATOR {
        DeleteConfig::try_from(accounts)?.process(remaining_data)
    } else {
        Err(ProgramError::InvalidInstructionData)
    }
}

/// The call that the account-resolution library is to add to before an
/// instruction is decided: that of a permissionless instruction whose
/// accounts are in order and hold the gating program's list.
pub open spec fn spec_instruction_gate_request(accounts: Seq<AccountInfo>, instruction_data: Seq<u8>) -> Option<
    crate::account::InstructionView,
> {
    if instruction_data.len() == 0 {
        None
    } else if instruction_data[0] == 6 || instruction_data[0] == 9 {
        if spec_check_thaw(account_views(accounts)) is Ok {
            crate::permissionless::spec_gate_request(
                Operation::Thaw,
                accounts[0].key,
                accounts[1].key,
                accounts[2].key,
                accounts[3].key,
                accounts[6].key,
                remaining_keys(accounts, 7),
            )
        } else {
            None
        }
    } else if instruction_data[0] == 7 || instruction_data[0] == 10 {
        if spec_check_freeze(account_views(accounts)) is Ok {
            crate::permissionless::spec_gate_request(
                Operation::Freeze,
                accounts[0].key,
                accounts[1].key,
                accounts[2].key,
                accounts[4].key,
                accounts[8].key,
                remaining_keys(accounts, 9),
            )
        } else {
            None
        }
    } else {
        None
    }
}

/// What the account-resolution library is to resolve before
/// `process_instruction`: a request for a permissionless instruction whose
/// caller presented the gating program's list, and `None` for everything
/// else.
pub fn gate_request(accounts: &[AccountInfo], instruction_data: &[u8]) -> (r: Option<GateRequest>)
    ensures
        match r {
            Some(request) => {
                &&& spec_instruction_gate_request(accounts@, instruction_data@) == Some(request.instruction@)
                &&& exists|i: int|
                    0 <= i < accounts@.len() && request.instruction@.accounts.last().pubkey == (
                    #[trigger] accounts@[i]).key && request.validation_data@ == accounts@[i].data@
            },
            None => spec_instruction_gate_request(accounts@, instruction_data@) is None,
        },
{
    if instruction_data.len() == 0 {
        return None;
    }
    let selector = instruction_data[0];
    if selector == ThawPermissionless::DISCRIMINATOR || selector == ThawPermissionless::IDEMPOTENT_DISCRIMINATOR {
        match ThawPermissionless::try_from(accounts) {
            Ok(context) => {
                proof {
                    lemma_remaining_keys(context.remaining_accounts@, accounts@, 7);
                }
                let found = context.gate_request();
                proof {
                    if let Some(request) = &found {
                        let last = request.instruction@.accounts.last().pubkey;
                        lemma_listed(
                            context.remaining_accounts@,
                            accounts@,
                            7,
                            spec_resolver(Operation::Thaw, context.mint.key, context.gating_program.key),
                            last,
                            request.validation_data@,
                        );
                    }
                }
                found
            },
            Err(_) => None,
        }
    } else if selector == FreezePermissionless::DISCRIMINATOR || selector
        == FreezePermissionlessIdempotent::DISCRIMINATOR {
        match FreezePermissionless::try_from(accounts) {
            Ok(context) => {
                proof {
                    lemma_remaining_keys(context.remaining_accounts@, accounts@, 9);
                }
                let found = context.gate_request();
                proof {
                    if let Some(request) = &found {
                        let last = request.instruction@.accounts.last().pubkey;
                        lemma_listed(
                            context.remaining_accounts@,
                            accounts@,
                            9,
                            spec_resolver(Operation::Freeze, context.mint.key, context.gating_program.key),
                            last,
                            request.validation_data@,
                        );
                    }
                }
                found
            },
            Err(_) => None,
        }
    } else {
        None
    }
}

} // verus!

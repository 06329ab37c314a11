//! The instructions of the program as a client sends them: one selector
//! byte, a payload of fixed width, and the accounts in a fixed order.

use crate::account::{AccountMeta, Instruction, InstructionView};
use crate::pubkey::Pubkey;
use vstd::prelude::*;

verus! {

/// The address of the system program: 32 zero bytes.
pub open spec fn spec_system_program_id() -> Pubkey {
    Pubkey::spec_default()
}

/// An instruction of the program.
///
/// The accounts of each, in order (`s` has signed, `w` is writable):
///
/// - `CreateConfig`: payer (w), authority (s), mint (w), record (w), system
///   program, token program.
/// - `SetAuthority`, `SetGatingProgram`, `TogglePermissionlessInstructions`:
///   authority (s), record (w).
/// - `ForfeitFreezeAuthority`: authority (s), mint (w), record (w), token
///   program.
/// - `Thaw`, `Freeze`: authority (s), mint, token account (w), record, token
///   program.
/// - `ThawPermissionless`, `ThawPermissionlessIdempotent`: caller (s), mint,
///   token account (w), token account owner, record, token program, gating
///   program, then what the gating program asks for.
/// - `FreezePermissionless`, `FreezePermissionlessIdempotent`: caller (s, w),
///   mint, token account (w), flag account (w), token account owner, record,
///   token program, system program, gating program, then what the gating
///   program asks for.
/// - `DeleteConfig`: authority (s), receiver (w), mint, record (w).
#[derive(Clone, Copy, Debug, PartialEq, Eq)]
pub enum EbaltsInstruction {
    /// Creates the record of a mint. Where the authority is the mint's own
    /// freeze authority, the record becomes the mint's freeze authority in
    /// the same step.
    CreateConfig { gating_program: Pubkey },
    /// Hands the record to a new authority.
    SetAuthority { new_authority: Pubkey },
    /// Names the program that decides on permissionless calls.
    SetGatingProgram { new_gating_program: Pubkey },
    /// Gives the mint's freeze authority away from the record.
    ForfeitFreezeAuthority { new_freeze_authority: Pubkey },
    /// Thaws a token account on the authority's word.
    Thaw,
    /// Freezes a token account on the authority's word.
    Freeze,
    /// Thaws a token account for any caller whom the gating program allows.
    ThawPermissionless,
    /// Freezes a token account for any caller whom the gating program allows.
    FreezePermissionless,
    /// States both permissionless flags anew.
    TogglePermissionlessInstructions { freeze_enabled: bool, thaw_enabled: bool },
    /// As `ThawPermissionless`, and a success without effect on an account
    /// that is thawed already.
    ThawPermissionlessIdempotent,
    /// As `FreezePermissionless`, and a success without effect on an account
    /// that is frozen already.
    FreezePermissionlessIdempotent,
    /// Removes the record and hands its balance to a receiver.
    DeleteConfig,
}

/// The byte for a flag in an instruction's payload.
pub open spec fn flag_byte(flag: bool) -> u8 {
    if flag {
        1
    } else {
        0
    }
}

impl EbaltsInstruction {
    /// The selector byte of the instruction.
    pub open spec fn spec_discriminator(self) -> u8 {
        match self {
            EbaltsInstruction::CreateConfig { .. } => 0,
            EbaltsInstruction::SetAuthority { .. } => 1,
            EbaltsInstruction::SetGatingProgram { .. } => 2,
            EbaltsInstruction::ForfeitFreezeAuthority { .. } => 3,
            EbaltsInstruction::Thaw => 4,
            EbaltsInstruction::Freeze => 5,
            EbaltsInstruction::ThawPermissionless => 6,
            EbaltsInstruction::FreezePermissionless => 7,
            EbaltsInstruction::TogglePermissionlessInstructions { .. } => 8,
            EbaltsInstruction::ThawPermissionlessIdempotent => 9,
            EbaltsInstruction::FreezePermissionlessIdempotent => 10,
            EbaltsInstruction::DeleteConfig => 11,
        }
    }

    /// What follows the selector byte.
    pub open spec fn spec_payload(self) -> Seq<u8> {
        match self {
            EbaltsInstruction::CreateConfig { gating_program } => gating_program.bytes(),
            EbaltsInstruction::SetAuthority { new_authority } => new_authority.bytes(),
            EbaltsInstruction::SetGatingProgram { new_gating_program } => new_gating_program.bytes(),
            EbaltsInstruction::ForfeitFreezeAuthority { new_freeze_authority } => new_freeze_authority.bytes(),
            EbaltsInstruction::TogglePermissionlessInstructions { freeze_enabled, thaw_enabled } => seq![
                flag_byte(freeze_enabled),
                flag_byte(thaw_enabled),
            ],
            _ => Seq::<u8>::empty(),
        }
    }

    /// The instruction's data: the selector byte, then the payload.
    pub open spec fn spec_pack(self) -> Seq<u8> {
        seq![self.spec_discriminator()] + self.spec_payload()
    }

    /// The selector byte of the instruction.
    pub fn discriminator(&self) -> (r: u8)
        ensures
            r == self.spec_discriminator(),
    {
        match self {
            EbaltsInstruction::CreateConfig { .. } => 0,
            EbaltsInstruction::SetAuthority { .. } => 1,
            EbaltsInstruction::SetGatingProgram { .. } => 2,
            EbaltsInstruction::ForfeitFreezeAuthority { .. } => 3,
            EbaltsInstruction::Thaw => 4,
            EbaltsInstruction::Freeze => 5,
            EbaltsInstruction::ThawPermissionless => 6,
            EbaltsInstruction::FreezePermissionless => 7,
            EbaltsInstruction::TogglePermissionlessInstructions { .. } => 8,
            EbaltsInstruction::ThawPermissionlessIdempotent => 9,
            EbaltsInstruction::FreezePermissionlessIdempotent => 10,
            EbaltsInstruction::DeleteConfig => 11,
        }
    }

    /// The instruction's data.
    pub fn pack(&self) -> (data: Vec<u8>)
        ensures
            data@ == self.spec_pack(),
    {
        let mut data: Vec<u8> = Vec::new();
        data.push(self.discriminator());
        match self {
            EbaltsInstruction::CreateConfig { gating_program } => {
                data.extend_from_slice(gating_program.0.as_slice());
            },
            EbaltsInstruction::SetAuthority { new_authority } => {
                data.extend_from_slice(new_authority.0.as_slice());
            },
            EbaltsInstruction::SetGatingProgram { new_gating_program } => {
                data.extend_from_slice(new_gating_program.0.as_slice());
            },
            EbaltsInstruction::ForfeitFreezeAuthority { new_freeze_authority } => {
                data.extend_from_slice(new_freeze_authority.0.as_slice());
            },
            EbaltsInstruction::TogglePermissionlessInstructions { freeze_enabled, thaw_enabled } => {
                data.push(if *freeze_enabled { 1 } else { 0 });
                data.push(if *thaw_enabled { 1 } else { 0 });
            },
            _ => {},
        }
        assert(data@ =~= self.spec_pack());
        data
    }

    /// The instruction that `data` holds.
    ///
    /// `None` where `data` is empty, begins with no selector of the program,
    /// or does not have exactly the payload of its selector. In a toggle,
    /// every byte but 0 turns a flag on.
    pub fn unpack(data: &[u8]) -> (r: Option<EbaltsInstruction>)
        ensures
            r == EbaltsInstruction::spec_unpack(data@),
    {
        if data.len() == 0 {
            return None;
        }
        let rest = vstd::slice::slice_subrange(data, 1, data.len());
        match data[0] {
            0 => match Pubkey::try_from_slice(rest) {
                Some(gating_program) => Some(EbaltsInstruction::CreateConfig { gating_program }),
                None => None,
            },
            1 => match Pubkey::try_from_slice(rest) {
                Some(new_authority) => Some(EbaltsInstruction::SetAuthority { new_authority }),
                None => None,
            },
            2 => match Pubkey::try_from_slice(rest) {
                Some(new_gating_program) => Some(EbaltsInstruction::SetGatingProgram { new_gating_program }),
                None => None,
            },
            3 => match Pubkey::try_from_slice(rest) {
                Some(new_freeze_authority) => Some(
                    EbaltsInstruction::ForfeitFreezeAuthority { new_freeze_authority },
                ),
                None => None,
            },
            8 => if rest.len() == 2 {
                Some(
                    EbaltsInstruction::TogglePermissionlessInstructions {
                        freeze_enabled: rest[0] != 0,
                        thaw_enabled: rest[1] != 0,
                    },
                )
            } else {
                None
            },
            4 => if rest.len() == 0 { Some(EbaltsInstruction::Thaw) } else { None },
            5 => if rest.len() == 0 { Some(EbaltsInstruction::Freeze) } else { None },
            6 => if rest.len() == 0 { Some(EbaltsInstruction::ThawPermissionless) } else { None },
            7 => if rest.len() == 0 { Some(EbaltsInstruction::FreezePermissionless) } else { None },
            9 => if rest.len() == 0 { Some(EbaltsInstruction::ThawPermissionlessIdempotent) } else { None },
            10 => if rest.len() == 0 { Some(EbaltsInstruction::FreezePermissionlessIdempotent) } else { None },
            11 => if rest.len() == 0 { Some(EbaltsInstruction::DeleteConfig) } else { None },
            _ => None,
        }
    }

    /// The instruction that `data` holds.
    pub open spec fn spec_unpack(data: Seq<u8>) -> Option<EbaltsInstruction> {
        if data.len() == 0 {
            None
        } else {
            let rest = data.subrange(1, data.len() as int);
            let key = Pubkey::spec_from_bytes(rest);
            if data[0] <= 3 {
                if rest.len() != 32 {
                    None
                } else if data[0] == 0 {
                    Some(EbaltsInstruction::CreateConfig { gating_program: key })
                } else if data[0] == 1 {
                    Some(EbaltsInstruction::SetAuthority { new_authority: key })
                } else if data[0] == 2 {
                    Some(EbaltsInstruction::SetGatingProgram { new_gating_program: key })
                } else {
                    Some(EbaltsInstruction::ForfeitFreezeAuthority { new_freeze_authority: key })
                }
            } else if data[0] == 8 {
                if rest.len() == 2 {
                    Some(
                        EbaltsInstruction::TogglePermissionlessInstructions {
                            freeze_enabled: rest[0] != 0,
                            thaw_enabled: rest[1] != 0,
                        },
                    )
                } else {
                    None
                }
            } else if rest.len() != 0 {
                None
            } else if data[0] == 4 {
                Some(EbaltsInstruction::Thaw)
            } else if data[0] == 5 {
                Some(EbaltsInstruction::Freeze)
            } else if data[0] == 6 {
                Some(EbaltsInstruction::ThawPermissionless)
            } else if data[0] == 7 {
                Some(EbaltsInstruction::FreezePermissionless)
            } else if data[0] == 9 {
                Some(EbaltsInstruction::ThawPermissionlessIdempotent)
            } else if data[0] == 10 {
                Some(EbaltsInstruction::FreezePermissionlessIdempotent)
            } else if data[0] == 11 {
                Some(EbaltsInstruction::DeleteConfig)
            } else {
                None
            }
        }
    }

    /// An instruction is read back from its data as it was.
    pub proof fn lemma_unpack_pack(instruction: EbaltsInstruction)
        ensures
            EbaltsInstruction::spec_unpack(instruction.spec_pack()) == Some(instruction),
    {
        let data = instruction.spec_pack();
        let rest = data.subrange(1, data.len() as int);
        assert(rest =~= instruction.spec_payload());
        match instruction {
            EbaltsInstruction::CreateConfig { gating_program } => {
                Pubkey::lemma_same_bytes(gating_program, gating_program);
                Pubkey::lemma_round_trip(gating_program);
            },
            EbaltsInstruction::SetAuthority { new_authority } => {
                Pubkey::lemma_same_bytes(new_authority, new_authority);
                Pubkey::lemma_round_trip(new_authority);
            },
            EbaltsInstruction::SetGatingProgram { new_gating_program } => {
                Pubkey::lemma_same_bytes(new_gating_program, new_gating_program);
                Pubkey::lemma_round_trip(new_gating_program);
            },
            EbaltsInstruction::ForfeitFreezeAuthority { new_freeze_authority } => {
                Pubkey::lemma_same_bytes(new_freeze_authority, new_freeze_authority);
                Pubkey::lemma_round_trip(new_freeze_authority);
            },
            _ => {},
        }
    }
}

/// Builds the instruction that creates the record of `mint`.
pub fn create_config(
    program_id: &Pubkey,
    payer: &Pubkey,
    authority: &Pubkey,
    mint: &Pubkey,
    gating_program: &Pubkey,
    mint_config: &Pubkey,
    token_program: &Pubkey,
) -> (r: Instruction)
    ensures
        r@ == (InstructionView {
            program_id: *program_id,
            accounts: seq![
                AccountMeta::writable(*payer, false),
                AccountMeta::readonly(*authority, true),
                AccountMeta::writable(*mint, false),
                AccountMeta::writable(*mint_config, false),
                AccountMeta::readonly(spec_system_program_id(), false),
                AccountMeta::readonly(*token_program, false),
            ],
            data: (EbaltsInstruction::CreateConfig { gating_program: *gating_program }).spec_pack(),
        }),
{
    let data = (EbaltsInstruction::CreateConfig { gating_program: *gating_program }).pack();
    let mut accounts: Vec<AccountMeta> = Vec::new();
    accounts.push(AccountMeta::new(*payer, false));
    accounts.push(AccountMeta::new_readonly(*authority, true));
    accounts.push(AccountMeta::new(*mint, false));
    accounts.push(AccountMeta::new(*mint_config, false));
    accounts.push(AccountMeta::new_readonly(Pubkey::default(), false));
    accounts.push(AccountMeta::new_readonly(*token_program, false));
    let r = Instruction { program_id: *program_id, accounts, data };
    assert(r@.accounts =~= seq![
        AccountMeta::writable(*payer, false),
        AccountMeta::readonly(*authority, true),
        AccountMeta::writable(*mint, false),
        AccountMeta::writable(*mint_config, false),
        AccountMeta::readonly(spec_system_program_id(), false),
        AccountMeta::readonly(*token_program, false),
    ]);
    r
}

/// The accounts of an instruction that only the authority and the record
/// take part in.
pub open spec fn authority_and_record(authority: Pubkey, mint_config: Pubkey) -> Seq<AccountMeta> {
    seq![AccountMeta::readonly(authority, true), AccountMeta::writable(mint_config, false)]
}

fn authority_and_record_accounts(authority: &Pubkey, mint_config: &Pubkey) -> (accounts: Vec<AccountMeta>)
    ensures
        accounts@ == authority_and_record(*authority, *mint_config),
{
    let mut accounts: Vec<AccountMeta> = Vec::new();
    accounts.push(AccountMeta::new_readonly(*authority, true));
    accounts.push(AccountMeta::new(*mint_config, false));
    assert(accounts@ =~= authority_and_record(*authority, *mint_config));
    accounts
}

/// Builds the instruction that hands the record to `new_authority`.
pub fn set_authority(
    program_id: &Pubkey,
    authority: &Pubkey,
    new_authority: &Pubkey,
    mint_config: &Pubkey,
) -> (r: Instruction)
    ensures
        r@ == (InstructionView {
            program_id: *program_id,
            accounts: authority_and_record(*authority, *mint_config),
            data: (EbaltsInstruction::SetAuthority { new_authority: *new_authority }).spec_pack(),
        }),
{
    let data = (EbaltsInstruction::SetAuthority { new_authority: *new_authority }).pack();
    Instruction { program_id: *program_id, accounts: authority_and_record_accounts(authority, mint_config), data }
}

/// Builds the instruction that names a new gating program.
pub fn set_gating_program(
    program_id: &Pubkey,
    authority: &Pubkey,
    new_gating_program: &Pubkey,
    mint_config: &Pubkey,
) -> (r: Instruction)
    ensures
        r@ == (InstructionView {
            program_id: *program_id,
            accounts: authority_and_record(*authority, *mint_config),
            data: (EbaltsInstruction::SetGatingProgram { new_gating_program: *new_gating_program }).spec_pack(),
        }),
{
    let data = (EbaltsInstruction::SetGatingProgram { new_gating_program: *new_gating_program }).pack();
    Instruction { program_id: *program_id, accounts: authority_and_record_accounts(authority, mint_config), data }
}

/// Builds the instruction that states both permissionless flags anew.
pub fn toggle_permissionless_instructions(
    program_id: &Pubkey,
    authority: &Pubkey,
    mint_config: &Pubkey,
    freeze_enabled: bool,
    thaw_enabled: bool,
) -> (r: Instruction)
    ensures
        r@ == (InstructionView {
            program_id: *program_id,
            accounts: authority_and_record(*authority, *mint_config),
            data: (EbaltsInstruction::TogglePermissionlessInstructions { freeze_enabled, thaw_enabled }).spec_pack(),
        }),
{
    let data = (EbaltsInstruction::TogglePermissionlessInstructions { freeze_enabled, thaw_enabled }).pack();
    Instruction { program_id: *program_id, accounts: authority_and_record_accounts(authority, mint_config), data }
}

/// Builds the instruction that gives the mint's freeze authority away from
/// the record.
pub fn forfeit_freeze_authority(
    program_id: &Pubkey,
    authority: &Pubkey,
    new_freeze_authority: &Pubkey,
    mint: &Pubkey,
    mint_config: &Pubkey,
    token_program: &Pubkey,
) -> (r: Instruction)
    ensures
        r@ == (InstructionView {
            program_id: *program_id,
            accounts: seq![
                AccountMeta::readonly(*authority, true),
                AccountMeta::writable(*mint, false),
                AccountMeta::writable(*mint_config, false),
                AccountMeta::readonly(*token_program, false),
            ],
            data: (EbaltsInstruction::ForfeitFreezeAuthority {
                new_freeze_authority: *new_freeze_authority,
            }).spec_pack(),
        }),
{
    let data = (EbaltsInstruction::ForfeitFreezeAuthority { new_freeze_authority: *new_freeze_authority }).pack();
    let mut accounts: Vec<AccountMeta> = Vec::new();
    accounts.push(AccountMeta::new_readonly(*authority, true));
    accounts.push(AccountMeta::new(*mint, false));
    accounts.push(AccountMeta::new(*mint_config, false));
    accounts.push(AccountMeta::new_readonly(*token_program, false));
    let r = Instruction { program_id: *program_id, accounts, data };
    assert(r@.accounts =~= seq![
        AccountMeta::readonly(*authority, true),
        AccountMeta::writable(*mint, false),
        AccountMeta::writable(*mint_config, false),
        AccountMeta::readonly(*token_program, false),
    ]);
    r
}

/// The accounts of a freeze or thaw on the authority's word.
pub open spec fn privileged_accounts(
    authority: Pubkey,
    mint: Pubkey,
    token_account: Pubkey,
    mint_config: Pubkey,
    token_program: Pubkey,
) -> Seq<AccountMeta> {
    seq![
        AccountMeta::readonly(authority, true),
        AccountMeta::readonly(mint, false),
        AccountMeta::writable(token_account, false),
        AccountMeta::readonly(mint_config, false),
        AccountMeta::readonly(token_program, false),
    ]
}

fn privileged_account_metas(
    authority: &Pubkey,
    mint: &Pubkey,
    token_account: &Pubkey,
    mint_config: &Pubkey,
    token_program: &Pubkey,
) -> (accounts: Vec<AccountMeta>)
    ensures
        accounts@ == privileged_accounts(*authority, *mint, *token_account, *mint_config, *token_program),
{
    let mut accounts: Vec<AccountMeta> = Vec::new();
    accounts.push(AccountMeta::new_readonly(*authority, true));
    accounts.push(AccountMeta::new_readonly(*mint, false));
    accounts.push(AccountMeta::new(*token_account, false));
    accounts.push(AccountMeta::new_readonly(*mint_config, false));
    accounts.push(AccountMeta::new_readonly(*token_program, false));
    assert(accounts@ =~= privileged_accounts(*authority, *mint, *token_account, *mint_config, *token_program));
    accounts
}

/// Builds the instruction by which the authority thaws a token account.
pub fn thaw(
    program_id: &Pubkey,
    authority: &Pubkey,
    mint: &Pubkey,
    token_account: &Pubkey,
    mint_config: &Pubkey,
    token_program: &Pubkey,
) -> (r: Instruction)
    ensures
        r@ == (InstructionView {
            program_id: *program_id,
            accounts: privileged_accounts(*authority, *mint, *token_account, *mint_config, *token_program),
            data: EbaltsInstruction::Thaw.spec_pack(),
        }),
{
    let data = EbaltsInstruction::Thaw.pack();
    Instruction {
        program_id: *program_id,
        accounts: privileged_account_metas(authority, mint, token_account, mint_config, token_program),
        data,
    }
}

/// Builds the instruction by which the authority freezes a token account.
pub fn freeze(
    program_id: &Pubkey,
    authority: &Pubkey,
    mint: &Pubkey,
    token_account: &Pubkey,
    mint_config: &Pubkey,
    token_program: &Pubkey,
) -> (r: Instruction)
    ensures
        r@ == (InstructionView {
            program_id: *program_id,
            accounts: privileged_accounts(*authority, *mint, *token_account, *mint_config, *token_program),
            data: EbaltsInstruction::Freeze.spec_pack(),
        }),
{
    let data = EbaltsInstruction::Freeze.pack();
    Instruction {
        program_id: *program_id,
        accounts: privileged_account_metas(authority, mint, token_account, mint_config, token_program),
        data,
    }
}

/// The accounts of a permissionless thaw before those that the gating
/// program asks for.
pub open spec fn thaw_permissionless_accounts(
    signer: Pubkey,
    mint: Pubkey,
    mint_config: Pubkey,
    token_account: Pubkey,
    token_account_owner: Pubkey,
    token_program: Pubkey,
    gating_program: Pubkey,
) -> Seq<AccountMeta> {
    seq![
        AccountMeta::readonly(signer, true),
        AccountMeta::readonly(mint, false),
        AccountMeta::writable(token_account, false),
        AccountMeta::readonly(token_account_owner, false),
        AccountMeta::readonly(mint_config, false),
        AccountMeta::readonly(token_program, false),
        AccountMeta::readonly(gating_program, false),
    ]
}

/// The accounts of a permissionless freeze before those that the gating
/// program asks for.
pub open spec fn freeze_permissionless_accounts(
    signer: Pubkey,
    mint: Pubkey,
    mint_config: Pubkey,
    token_account: Pubkey,
    token_account_owner: Pubkey,
    token_program: Pubkey,
    flag_account: Pubkey,
    gating_program: Pubkey,
) -> Seq<AccountMeta> {
    seq![
        AccountMeta::writable(signer, true),
        AccountMeta::readonly(mint, false),
        AccountMeta::writable(token_account, false),
        AccountMeta::writable(flag_account, false),
        AccountMeta::readonly(token_account_owner, false),
        AccountMeta::readonly(mint_config, false),
        AccountMeta::readonly(token_program, false),
        AccountMeta::readonly(spec_system_program_id(), false),
        AccountMeta::readonly(gating_program, false),
    ]
}

/// The selector of a permissionless thaw.
pub open spec fn thaw_permissionless_kind(idempotent: bool) -> EbaltsInstruction {
    if idempotent {
        EbaltsInstruction::ThawPermissionlessIdempotent
    } else {
        EbaltsInstruction::ThawPermissionless
    }
}

/// The selector of a permissionless freeze.
pub open spec fn freeze_permissionless_kind(idempotent: bool) -> EbaltsInstruction {
    if idempotent {
        EbaltsInstruction::FreezePermissionlessIdempotent
    } else {
        EbaltsInstruction::FreezePermissionless
    }
}

/// Builds a permissionless thaw without the accounts that the gating program
/// asks for.
pub fn thaw_permissionless(
    program_id: &Pubkey,
    signer: &Pubkey,
    mint: &Pubkey,
    mint_config: &Pubkey,
    token_account: &Pubkey,
    token_account_owner: &Pubkey,
    token_program: &Pubkey,
    gating_program: &Pubkey,
    idempotent: bool,
) -> (r: Instruction)
    ensures
        r@ == (InstructionView {
            program_id: *program_id,
            accounts: thaw_permissionless_accounts(
                *signer,
                *mint,
                *mint_config,
                *token_account,
                *token_account_owner,
                *token_program,
                *gating_program,
            ),
            data: thaw_permissionless_kind(idempotent).spec_pack(),
        }),
{
    let data = if idempotent {
        EbaltsInstruction::ThawPermissionlessIdempotent.pack()
    } else {
        EbaltsInstruction::ThawPermissionless.pack()
    };
    let mut accounts: Vec<AccountMeta> = Vec::new();
    accounts.push(AccountMeta::new_readonly(*signer, true));
    accounts.push(AccountMeta::new_readonly(*mint, false));
    accounts.push(AccountMeta::new(*token_account, false));
    accounts.push(AccountMeta::new_readonly(*token_account_owner, false));
    accounts.push(AccountMeta::new_readonly(*mint_config, false));
    accounts.push(AccountMeta::new_readonly(*token_program, false));
    accounts.push(AccountMeta::new_readonly(*gating_program, false));
    let r = Instruction { program_id: *program_id, accounts, data };
    assert(r@.accounts =~= thaw_permissionless_accounts(
        *signer,
        *mint,
        *mint_config,
        *token_account,
        *token_account_owner,
        *token_program,
        *gating_program,
    ));
    r
}

/// Builds a permissionless freeze without the accounts that the gating
/// program asks for.
pub fn freeze_permissionless(
    program_id: &Pubkey,
    signer: &Pubkey,
    mint: &Pubkey,
    mint_config: &Pubkey,
    token_account: &Pubkey,
    token_account_owner: &Pubkey,
    token_program: &Pubkey,
    flag_account: &Pubkey,
    gating_program: &Pubkey,
    idempotent: bool,
) -> (r: Instruction)
    ensures
        r@ == (InstructionView {
            program_id: *program_id,
            accounts: freeze_permissionless_accounts(
                *signer,
                *mint,
                *mint_config,
                *token_account,
                *token_account_owner,
                *token_program,
                *flag_account,
                *gating_program,
            ),
            data: freeze_permissionless_kind(idempotent).spec_pack(),
        }),
{
    let data = if idempotent {
        EbaltsInstruction::FreezePermissionlessIdempotent.pack()
    } else {
        EbaltsInstruction::FreezePermissionless.pack()
    };
    let mut accounts: Vec<AccountMeta> = Vec::new();
    accounts.push(AccountMeta::new(*signer, true));
    accounts.push(AccountMeta::new_readonly(*mint, false));
    accounts.push(AccountMeta::new(*token_account, false));
    accounts.push(AccountMeta::new(*flag_account, false));
    accounts.push(AccountMeta::new_readonly(*token_account_owner, false));
    accounts.push(AccountMeta::new_readonly(*mint_config, false));
    accounts.push(AccountMeta::new_readonly(*token_program, false));
    accounts.push(AccountMeta::new_readonly(Pubkey::default(), false));
    accounts.push(AccountMeta::new_readonly(*gating_program, false));
    let r = Instruction { program_id: *program_id, accounts, data };
    assert(r@.accounts =~= freeze_permissionless_accounts(
        *signer,
        *mint,
        *mint_config,
        *token_account,
        *token_account_owner,
        *token_program,
        *flag_account,
        *gating_program,
    ));
    r
}

/// Builds the instruction that removes the record of `mint`.
pub fn delete_config(
    program_id: &Pubkey,
    authority: &Pubkey,
    receiver: &Pubkey,
    mint: &Pubkey,
    mint_config: &Pubkey,
) -> (r: Instruction)
    ensures
        r@ == (InstructionView {
            program_id: *program_id,
            accounts: seq![
                AccountMeta::readonly(*authority, true),
                AccountMeta::writable(*receiver, false),
                AccountMeta::readonly(*mint, false),
                AccountMeta::writable(*mint_config, false),
            ],
            data: EbaltsInstruction::DeleteConfig.spec_pack(),
        }),
{
    let data = EbaltsInstruction::DeleteConfig.pack();
    let mut accounts: Vec<AccountMeta> = Vec::new();
    accounts.push(AccountMeta::new_readonly(*authority, true));
    accounts.push(AccountMeta::new(*receiver, false));
    accounts.push(AccountMeta::new_readonly(*mint, false));
    accounts.push(AccountMeta::new(*mint_config, false));
    let r = Instruction { program_id: *program_id, accounts, data };
    assert(r@.accounts =~= seq![
        AccountMeta::readonly(*authority, true),
        AccountMeta::writable(*receiver, false),
        AccountMeta::readonly(*mint, false),
        AccountMeta::writable(*mint_config, false),
    ]);
    r
}

} // verus!

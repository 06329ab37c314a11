//! What this program and a gating program agree on: the two questions that a
//! gating program answers, the call that asks them, and the address at which
//! a gating program publishes the accounts it needs to answer.

use crate::account::{AccountMeta, Instruction, InstructionView};
use crate::error::ProgramError;
use crate::pubkey::{derived_address, Pubkey};
use vstd::prelude::*;

verus! {

/// First seed of the address at which a gating program lists the accounts it
/// needs to decide on a freeze: `freeze_extra_account_metas`.
pub const FREEZE_EXTRA_ACCOUNT_METAS_SEED: [u8; 26] = [
    102, 114, 101, 101, 122, 101, 95, 101, 120, 116, 114, 97, 95,
    97, 99, 99, 111, 117, 110, 116, 95, 109, 101, 116, 97, 115,
];

/// First seed of the address at which a gating program lists the accounts it
/// needs to decide on a thaw: `thaw_extra_account_metas`.
pub const THAW_EXTRA_ACCOUNT_METAS_SEED: [u8; 24] = [
    116, 104, 97, 119, 95, 101, 120, 116, 114, 97, 95, 97,
    99, 99, 111, 117, 110, 116, 95, 109, 101, 116, 97, 115,
];

/// Length of the discriminator that begins the data of a call to a gating
/// program.
pub const DISCRIMINATOR_LENGTH: usize = 8;

/// The discriminator that a hash input stands for.
pub uninterp spec fn discriminator_of(hash_input: Seq<char>) -> Seq<u8>;

/// Calls `ArrayDiscriminator::new_with_hash_input` of spl-discriminator. The
/// eight bytes it gives depend on the hash input alone and are named
/// `discriminator_of`.
#[verifier::external_body]
fn hash_discriminator(hash_input: &str) -> (r: [u8; 8])
    ensures
        r@ == discriminator_of(hash_input@),
{
    spl_discriminator::ArrayDiscriminator::new_with_hash_input(hash_input).into()
}

/// The question whether a caller may thaw a token account.
#[derive(Clone, Copy, Debug, PartialEq, Eq, Structural)]
pub struct CanThawPermissionlessInstruction;

/// The question whether a caller may freeze a token account.
#[derive(Clone, Copy, Debug, PartialEq, Eq, Structural)]
pub struct CanFreezePermissionlessInstruction;

impl CanThawPermissionlessInstruction {
    /// The discriminator of the question.
    pub open spec fn spec_discriminator() -> Seq<u8> {
        discriminator_of("efficient-allow-block-list-standard:can-thaw-permissionless"@)
    }

    /// The discriminator of the question.
    pub fn discriminator() -> (r: [u8; 8])
        ensures
            r@ == CanThawPermissionlessInstruction::spec_discriminator(),
    {
        hash_discriminator("efficient-allow-block-list-standard:can-thaw-permissionless")
    }
}

impl CanFreezePermissionlessInstruction {
    /// The discriminator of the question.
    pub open spec fn spec_discriminator() -> Seq<u8> {
        discriminator_of("efficient-allow-block-list-standard:can-freeze-permissionless"@)
    }

    /// The discriminator of the question.
    pub fn discriminator() -> (r: [u8; 8])
        ensures
            r@ == CanFreezePermissionlessInstruction::spec_discriminator(),
    {
        hash_discriminator("efficient-allow-block-list-standard:can-freeze-permissionless")
    }
}

/// What a gating program is asked.
#[derive(Clone, Copy, Debug, PartialEq, Eq, Structural)]
pub enum EfficientBlockAllowInstruction {
    CanThawPermissionless,
    CanFreezePermissionless,
}

impl EfficientBlockAllowInstruction {
    /// The data of the call: the discriminator of the question.
    pub open spec fn spec_pack(self) -> Seq<u8> {
        match self {
            EfficientBlockAllowInstruction::CanThawPermissionless => CanThawPermissionlessInstruction::spec_discriminator(),
            EfficientBlockAllowInstruction::CanFreezePermissionless => CanFreezePermissionlessInstruction::spec_discriminator(),
        }
    }

    /// The question that `data` asks: that whose discriminator `data` begins
    /// with. Data of fewer than eight bytes, or with another beginning, is
    /// invalid instruction data.
    pub open spec fn spec_unpack(data: Seq<u8>) -> Result<EfficientBlockAllowInstruction, ProgramError> {
        if data.len() < 8 {
            Err(ProgramError::InvalidInstructionData)
        } else if data.subrange(0, 8) == CanThawPermissionlessInstruction::spec_discriminator() {
            Ok(EfficientBlockAllowInstruction::CanThawPermissionless)
        } else if data.subrange(0, 8) == CanFreezePermissionlessInstruction::spec_discriminator() {
            Ok(EfficientBlockAllowInstruction::CanFreezePermissionless)
        } else {
            Err(ProgramError::InvalidInstructionData)
        }
    }

    /// The question that `data` asks.
    pub fn unpack(data: &[u8]) -> (r: Result<EfficientBlockAllowInstruction, ProgramError>)
        ensures
            r == EfficientBlockAllowInstruction::spec_unpack(data@),
    {
        if data.len() < DISCRIMINATOR_LENGTH {
            return Err(ProgramError::InvalidInstructionData);
        }
        let head = vstd::slice::slice_subrange(data, 0, DISCRIMINATOR_LENGTH);
        let thaw = CanThawPermissionlessInstruction::discriminator();
        let freeze = CanFreezePermissionlessInstruction::discriminator();
        if same_bytes(head, thaw.as_slice()) {
            Ok(EfficientBlockAllowInstruction::CanThawPermissionless)
        } else if same_bytes(head, freeze.as_slice()) {
            Ok(EfficientBlockAllowInstruction::CanFreezePermissionless)
        } else {
            Err(ProgramError::InvalidInstructionData)
        }
    }

    /// The data of the call.
    pub fn pack(&self) -> (r: Vec<u8>)
        ensures
            r@ == self.spec_pack(),
            r@.len() == 8,
    {
        let bytes = match self {
            EfficientBlockAllowInstruction::CanThawPermissionless => CanThawPermissionlessInstruction::discriminator(),
            EfficientBlockAllowInstruction::CanFreezePermissionless => CanFreezePermissionlessInstruction::discriminator(),
        };
        vstd::slice::slice_to_vec(bytes.as_slice())
    }

    /// A question is read back from its data, as long as the two questions
    /// have different discriminators of eight bytes.
    pub proof fn lemma_unpack_pack(question: EfficientBlockAllowInstruction)
        requires
            CanThawPermissionlessInstruction::spec_discriminator().len() == 8,
            CanFreezePermissionlessInstruction::spec_discriminator().len() == 8,
            CanThawPermissionlessInstruction::spec_discriminator()
                != CanFreezePermissionlessInstruction::spec_discriminator(),
        ensures
            EfficientBlockAllowInstruction::spec_unpack(question.spec_pack()) == Ok::<
                EfficientBlockAllowInstruction,
                ProgramError,
            >(question),
    {
        let data = question.spec_pack();
        assert(data.subrange(0, 8) =~= data);
    }
}

/// Whether two slices hold the same bytes.
pub fn same_bytes(a: &[u8], b: &[u8]) -> (r: bool)
    ensures
        r == (a@ == b@),
{
    if a.len() != b.len() {
        return false;
    }
    let mut i: usize = 0;
    while i < a.len()
        invariant
            i <= a.len(),
            a@.len() == b@.len(),
            forall|j: int| 0 <= j < i ==> a@[j] == b@[j],
        decreases a.len() - i,
    {
        if a[i] != b[i] {
            return false;
        }
        i += 1;
    }
    assert(a@ =~= b@);
    true
}

/// The accounts that every call to a gating program begins with: the caller,
/// the token account, the mint and the token account's owner. None signs and
/// none is writable.
pub open spec fn gate_accounts(
    signer: Pubkey,
    token_account: Pubkey,
    mint: Pubkey,
    token_account_owner: Pubkey,
) -> Seq<AccountMeta> {
    seq![
        AccountMeta::readonly(signer, false),
        AccountMeta::readonly(token_account, false),
        AccountMeta::readonly(mint, false),
        AccountMeta::readonly(token_account_owner, false),
    ]
}

/// The call that puts `question` to the gating program `program_id`.
pub open spec fn spec_gate_call(
    question: EfficientBlockAllowInstruction,
    program_id: Pubkey,
    signer: Pubkey,
    token_account: Pubkey,
    mint: Pubkey,
    token_account_owner: Pubkey,
) -> InstructionView {
    InstructionView {
        program_id,
        accounts: gate_accounts(signer, token_account, mint, token_account_owner),
        data: question.spec_pack(),
    }
}

/// Builds the call that puts `question` to the gating program `program_id`.
pub fn gate_call(
    question: EfficientBlockAllowInstruction,
    program_id: &Pubkey,
    signer: &Pubkey,
    token_account: &Pubkey,
    mint: &Pubkey,
    token_account_owner: &Pubkey,
) -> (r: Instruction)
    ensures
        r@ == spec_gate_call(question, *program_id, *signer, *token_account, *mint, *token_account_owner),
{
    let data = question.pack();
    let mut accounts: Vec<AccountMeta> = Vec::new();
    accounts.push(AccountMeta::new_readonly(*signer, false));
    accounts.push(AccountMeta::new_readonly(*token_account, false));
    accounts.push(AccountMeta::new_readonly(*mint, false));
    accounts.push(AccountMeta::new_readonly(*token_account_owner, false));
    assert(accounts@ =~= gate_accounts(*signer, *token_account, *mint, *token_account_owner));
    Instruction { program_id: *program_id, accounts, data }
}

/// Builds the call that asks a gating program whether `signer` may thaw
/// `token_account`.
pub fn can_thaw_permissionless(
    program_id: &Pubkey,
    signer: &Pubkey,
    token_account: &Pubkey,
    mint: &Pubkey,
    token_account_owner: &Pubkey,
) -> (r: Instruction)
    ensures
        r@ == spec_gate_call(
            EfficientBlockAllowInstruction::CanThawPermissionless,
            *program_id,
            *signer,
            *token_account,
            *mint,
            *token_account_owner,
        ),
{
    gate_call(
        EfficientBlockAllowInstruction::CanThawPermissionless,
        program_id,
        signer,
        token_account,
        mint,
        token_account_owner,
    )
}

/// Builds the call that asks a gating program whether `signer` may freeze
/// `token_account`.
pub fn can_freeze_permissionless(
    program_id: &Pubkey,
    signer: &Pubkey,
    token_account: &Pubkey,
    mint: &Pubkey,
    token_account_owner: &Pubkey,
) -> (r: Instruction)
    ensures
        r@ == spec_gate_call(
            EfficientBlockAllowInstruction::CanFreezePermissionless,
            *program_id,
            *signer,
            *token_account,
            *mint,
            *token_account_owner,
        ),
{
    gate_call(
        EfficientBlockAllowInstruction::CanFreezePermissionless,
        program_id,
        signer,
        token_account,
        mint,
        token_account_owner,
    )
}

/// The seeds of an address that belongs to `key`: a prefix, then the bytes
/// of `key`.
pub open spec fn prefixed_seeds(prefix: Seq<u8>, key: Pubkey) -> Seq<Seq<u8>> {
    seq![prefix, key.bytes()]
}

/// Builds the seeds of an address that belongs to `key`.
pub fn collect_seeds(prefix: &[u8], key: &Pubkey) -> (r: Vec<Vec<u8>>)
    ensures
        r.deep_view() == prefixed_seeds(prefix@, *key),
{
    let mut seeds: Vec<Vec<u8>> = Vec::new();
    seeds.push(vstd::slice::slice_to_vec(prefix));
    seeds.push(key.to_vec());
    assert(seeds.deep_view()[0] =~= prefix@);
    assert(seeds.deep_view()[1] =~= key.bytes());
    assert(seeds.deep_view() =~= prefixed_seeds(prefix@, *key));
    seeds
}

/// The seeds of the address at which a gating program lists what it needs to
/// decide on a thaw of `mint`.
pub fn collect_thaw_extra_account_metas(mint: &Pubkey) -> (r: Vec<Vec<u8>>)
    ensures
        r.deep_view() == prefixed_seeds(THAW_EXTRA_ACCOUNT_METAS_SEED@, *mint),
{
    collect_seeds(THAW_EXTRA_ACCOUNT_METAS_SEED.as_slice(), mint)
}

/// The seeds of the address at which a gating program lists what it needs to
/// decide on a freeze of `mint`.
pub fn collect_freeze_extra_account_metas(mint: &Pubkey) -> (r: Vec<Vec<u8>>)
    ensures
        r.deep_view() == prefixed_seeds(FREEZE_EXTRA_ACCOUNT_METAS_SEED@, *mint),
{
    collect_seeds(FREEZE_EXTRA_ACCOUNT_METAS_SEED.as_slice(), mint)
}

/// The address at which the gating program `program_id` lists what it needs
/// to decide on a thaw of `mint`, with its bump seed, if there is one.
pub open spec fn spec_thaw_extra_account_metas_address(mint: Pubkey, program_id: Pubkey) -> Option<(Pubkey, u8)> {
    derived_address(prefixed_seeds(THAW_EXTRA_ACCOUNT_METAS_SEED@, mint), program_id)
}

/// The address at which the gating program `program_id` lists what it needs
/// to decide on a freeze of `mint`, with its bump seed, if there is one.
pub open spec fn spec_freeze_extra_account_metas_address(mint: Pubkey, program_id: Pubkey) -> Option<(Pubkey, u8)> {
    derived_address(prefixed_seeds(FREEZE_EXTRA_ACCOUNT_METAS_SEED@, mint), program_id)
}

/// The address at which a gating program lists what it needs to decide on a
/// thaw of `mint`, with its bump seed; `None` where the seeds derive none.
pub fn find_thaw_extra_account_metas_address(mint: &Pubkey, program_id: &Pubkey) -> (r: Option<(Pubkey, u8)>)
    ensures
        r == spec_thaw_extra_account_metas_address(*mint, *program_id),
{
    let seeds = collect_thaw_extra_account_metas(mint);
    Pubkey::find_program_address(&seeds, program_id)
}

/// The address at which a gating program lists what it needs to decide on a
/// freeze of `mint`, with its bump seed; `None` where the seeds derive none.
pub fn find_freeze_extra_account_metas_address(mint: &Pubkey, program_id: &Pubkey) -> (r: Option<(Pubkey, u8)>)
    ensures
        r == spec_freeze_extra_account_metas_address(*mint, *program_id),
{
    let seeds = collect_freeze_extra_account_metas(mint);
    Pubkey::find_program_address(&seeds, program_id)
}

/// The address at which a gating program lists what it needs to decide on a
/// thaw of `mint`, with its bump seed, where the seeds derive one.
pub fn get_thaw_extra_account_metas_address_and_bump_seed(mint: &Pubkey, program_id: &Pubkey) -> (r: (Pubkey, u8))
    requires
        spec_thaw_extra_account_metas_address(*mint, *program_id) is Some,
    ensures
        Some(r) == spec_thaw_extra_account_metas_address(*mint, *program_id),
{
    let seeds = collect_thaw_extra_account_metas(mint);
    Pubkey::find_program_address(&seeds, program_id).unwrap()
}

/// The address at which a gating program lists what it needs to decide on a
/// freeze of `mint`, with its bump seed, where the seeds derive one.
pub fn get_freeze_extra_account_metas_address_and_bump_seed(mint: &Pubkey, program_id: &Pubkey) -> (r: (Pubkey, u8))
    requires
        spec_freeze_extra_account_metas_address(*mint, *program_id) is Some,
    ensures
        Some(r) == spec_freeze_extra_account_metas_address(*mint, *program_id),
{
    let seeds = collect_freeze_extra_account_metas(mint);
    Pubkey::find_program_address(&seeds, program_id).unwrap()
}

/// The address at which a gating program lists what it needs to decide on a
/// thaw of `mint`, where the seeds derive one.
pub fn get_thaw_extra_account_metas_address(mint: &Pubkey, program_id: &Pubkey) -> (r: Pubkey)
    requires
        spec_thaw_extra_account_metas_address(*mint, *program_id) is Some,
    ensures
        spec_thaw_extra_account_metas_address(*mint, *program_id) matches Some(found) && found.0 == r,
{
    get_thaw_extra_account_metas_address_and_bump_seed(mint, program_id).0
}

/// The address at which a gating program lists what it needs to decide on a
/// freeze of `mint`, where the seeds derive one.
pub fn get_freeze_extra_account_metas_address(mint: &Pubkey, program_id: &Pubkey) -> (r: Pubkey)
    requires
        spec_freeze_extra_account_metas_address(*mint, *program_id) is Some,
    ensures
        spec_freeze_extra_account_metas_address(*mint, *program_id) matches Some(found) && found.0 == r,
{
    get_freeze_extra_account_metas_address_and_bump_seed(mint, program_id).0
}

/// The address of `get_thaw_extra_account_metas_address`, or `None` where
/// the seeds derive none.
pub fn try_get_thaw_extra_account_metas_address(mint: &Pubkey, program_id: &Pubkey) -> (r: Option<Pubkey>)
    ensures
        match spec_thaw_extra_account_metas_address(*mint, *program_id) {
            Some(found) => r == Some(found.0),
            None => r is None,
        },
{
    match find_thaw_extra_account_metas_address(mint, program_id) {
        Some(_) => Some(get_thaw_extra_account_metas_address(mint, program_id)),
        None => None,
    }
}

/// The address of `get_freeze_extra_account_metas_address`, or `None` where
/// the seeds derive none.
pub fn try_get_freeze_extra_account_metas_address(mint: &Pubkey, program_id: &Pubkey) -> (r: Option<Pubkey>)
    ensures
        match spec_freeze_extra_account_metas_address(*mint, *program_id) {
            Some(found) => r == Some(found.0),
            None => r is None,
        },
{
    match find_freeze_extra_account_metas_address(mint, program_id) {
        Some(_) => Some(get_freeze_extra_account_metas_address(mint, program_id)),
        None => None,
    }
}

} // verus!

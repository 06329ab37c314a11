//! The token program and the system program as this program uses them: their
//! addresses, the calls that it makes into them, and what it reads of the
//! accounts they keep.

use crate::account::{AccountMeta, Instruction, InstructionView};
use crate::error::ProgramError;
use crate::pubkey::Pubkey;
use vstd::prelude::*;

verus! {

/// The address of the token program with extensions,
/// `TokenzQdBNbLqP5VEhdkAS6EPFLC1PHnBqCXEpPxuEb`.
pub const TOKEN_2022_PROGRAM_ID: [u8; 32] = [
    6, 221, 246, 225, 238, 117, 143, 222, 24, 66, 93, 188, 228, 108, 205, 218,
    182, 26, 252, 77, 131, 185, 13, 39, 254, 189, 249, 40, 216, 161, 139, 252,
];

/// The address of the first token program,
/// `TokenkegQfeZyiNwAJbNbGKPFXCWuBvf9Ss623VQ5DA`.
pub const SPL_TOKEN_PROGRAM_ID: [u8; 32] = [
    6, 221, 246, 225, 215, 101, 161, 147, 217, 203, 225, 70, 206, 235, 121, 172,
    28, 180, 133, 237, 95, 91, 55, 145, 58, 140, 245, 133, 126, 255, 0, 169,
];

/// The address of the token program with extensions.
pub open spec fn spec_token_program_id() -> Pubkey {
    Pubkey(TOKEN_2022_PROGRAM_ID)
}

/// The address of the token program with extensions.
pub fn token_program_id() -> (r: Pubkey)
    ensures
        r == spec_token_program_id(),
{
    Pubkey(TOKEN_2022_PROGRAM_ID)
}

/// The address of the system program.
pub fn system_program_id() -> (r: Pubkey)
    ensures
        r == Pubkey::spec_default(),
{
    Pubkey::default()
}

/// Whether the token program builds a call for `token_program`: it does for
/// its own address and for that of the first token program.
pub open spec fn accepts_token_program(token_program: Pubkey) -> bool {
    token_program == Pubkey(TOKEN_2022_PROGRAM_ID) || token_program == Pubkey(SPL_TOKEN_PROGRAM_ID)
}

/// Calls `check_id` of spl-token-2022: whether `key` is the address of the
/// token program with extensions.
#[verifier::external_body]
fn token_program_check_id(key: &Pubkey) -> (r: bool)
    ensures
        r == (*key == spec_token_program_id()),
{
    spl_token_2022::check_id(&solana_pubkey::Pubkey::new_from_array(key.0))
}

/// Calls `program::check_id` of solana-system-interface: whether `key` is
/// the address of the system program, which is 32 zero bytes.
#[verifier::external_body]
fn system_program_check_id(key: &Pubkey) -> (r: bool)
    ensures
        r == (*key == Pubkey::spec_default()),
{
    solana_system_interface::program::check_id(&solana_pubkey::Pubkey::new_from_array(key.0))
}

/// Whether `key` is the address of the token program with extensions.
pub fn is_token_program(key: &Pubkey) -> (r: bool)
    ensures
        r == (*key == spec_token_program_id()),
{
    token_program_check_id(key)
}

/// Whether `key` is the address of the system program.
pub fn is_system_program(key: &Pubkey) -> (r: bool)
    ensures
        r == (*key == Pubkey::spec_default()),
{
    system_program_check_id(key)
}

/// The state of a token account.
#[derive(Clone, Copy, Debug, PartialEq, Eq, Structural)]
pub enum AccountState {
    Uninitialized,
    /// The owner may use the account: it is thawed.
    Initialized,
    /// The mint's freeze authority has frozen the account.
    Frozen,
}

/// What this program reads of a token account.
#[derive(Clone, Copy, Debug, PartialEq, Eq)]
pub struct TokenAccount {
    pub mint: Pubkey,
    pub owner: Pubkey,
    pub state: AccountState,
}

/// What this program reads of a mint.
#[derive(Clone, Copy, Debug, PartialEq, Eq)]
pub struct Mint {
    /// Who may freeze the mint's token accounts, if anybody.
    pub freeze_authority: Option<Pubkey>,
    /// Whether the mint states in which state its token accounts begin.
    pub has_default_account_state: bool,
}

/// What the token program reads as a token account from `data`, or the code
/// of the error with which it refuses `data`.
pub uninterp spec fn token_account_of(data: Seq<u8>) -> Result<TokenAccount, u64>;

/// What the token program reads as a mint from `data`, or the code of the
/// error with which it refuses `data`.
pub uninterp spec fn mint_of(data: Seq<u8>) -> Result<Mint, u64>;


/// Calls `StateWithExtensions::<Account>::unpack` of spl-token-2022 and
/// hands out the mint, the owner and the state of the account it read. The
/// result depends on `data` alone and is named `token_account_of`.
#[verifier::external_body]
fn token_account_unpack(data: &[u8]) -> (r: Result<TokenAccount, u64>)
    ensures
        r == token_account_of(data@),
{
    let account = spl_token_2022::extension::StateWithExtensions::<spl_token_2022::state::Account>::unpack(data)
        .map_err(u64::from)?;
    let state = match account.base.state {
        spl_token_2022::state::AccountState::Uninitialized => AccountState::Uninitialized,
        spl_token_2022::state::AccountState::Initialized => AccountState::Initialized,
        spl_token_2022::state::AccountState::Frozen => AccountState::Frozen,
    };
    Ok(TokenAccount { mint: Pubkey(account.base.mint.to_bytes()), owner: Pubkey(account.base.owner.to_bytes()), state })
}

/// Calls `PodStateWithExtensions::<PodMint>::unpack` of spl-token-2022 and,
/// on the mint it read, `get_extension::<DefaultAccountState>`. It hands out
/// the mint's freeze authority and whether the extension was found. The
/// result depends on `data` alone and is named `mint_of`.
#[verifier::external_body]
fn mint_unpack(data: &[u8]) -> (r: Result<Mint, u64>)
    ensures
        r == mint_of(data@),
{
    let mint = spl_token_2022::extension::PodStateWithExtensions::<spl_token_2022::pod::PodMint>::unpack(data)
        .map_err(u64::from)?;
    let found = spl_token_2022::extension::BaseStateWithExtensions::get_extension::<
        spl_token_2022::extension::default_account_state::DefaultAccountState,
    >(&mint).is_ok();
    let authority = mint.base.freeze_authority.ok_or(()).ok();
    Ok(Mint { freeze_authority: authority.map(|key| Pubkey(key.to_bytes())), has_default_account_state: found })
}

impl TokenAccount {
    /// What the token program reads as a token account from `data`.
    pub open spec fn spec_unpack(data: Seq<u8>) -> Result<TokenAccount, ProgramError> {
        match token_account_of(data) {
            Ok(account) => Ok(account),
            Err(code) => Err(ProgramError::spec_from_code(code)),
        }
    }

    /// Reads a token account as the token program does.
    pub fn unpack(data: &[u8]) -> (r: Result<TokenAccount, ProgramError>)
        ensures
            r == TokenAccount::spec_unpack(data@),
    {
        match token_account_unpack(data) {
            Ok(account) => Ok(account),
            Err(code) => Err(ProgramError::from_code(code)),
        }
    }
}

impl Mint {
    /// What the token program reads as a mint from `data`.
    pub open spec fn spec_unpack(data: Seq<u8>) -> Result<Mint, ProgramError> {
        match mint_of(data) {
            Ok(mint) => Ok(mint),
            Err(code) => Err(ProgramError::spec_from_code(code)),
        }
    }

    /// Reads a mint as the token program does.
    pub fn unpack(data: &[u8]) -> (r: Result<Mint, ProgramError>)
        ensures
            r == Mint::spec_unpack(data@),
    {
        match mint_unpack(data) {
            Ok(mint) => Ok(mint),
            Err(code) => Err(ProgramError::from_code(code)),
        }
    }
}

/// The accounts of the token program's freeze and thaw: the token account,
/// the mint, and the freeze authority, which signs.
pub open spec fn freeze_thaw_accounts(account: Pubkey, mint: Pubkey, authority: Pubkey) -> Seq<AccountMeta> {
    seq![
        AccountMeta::writable(account, false),
        AccountMeta::readonly(mint, false),
        AccountMeta::readonly(authority, true),
    ]
}

/// The token program's call that freezes `account`.
pub open spec fn spec_freeze_account(
    token_program: Pubkey,
    account: Pubkey,
    mint: Pubkey,
    authority: Pubkey,
) -> Result<InstructionView, ProgramError> {
    if accepts_token_program(token_program) {
        Ok(
            InstructionView {
                program_id: token_program,
                accounts: freeze_thaw_accounts(account, mint, authority),
                data: seq![10u8],
            },
        )
    } else {
        Err(ProgramError::IncorrectProgramId)
    }
}

/// The token program's call that thaws `account`.
pub open spec fn spec_thaw_account(
    token_program: Pubkey,
    account: Pubkey,
    mint: Pubkey,
    authority: Pubkey,
) -> Result<InstructionView, ProgramError> {
    if accepts_token_program(token_program) {
        Ok(
            InstructionView {
                program_id: token_program,
                accounts: freeze_thaw_accounts(account, mint, authority),
                data: seq![11u8],
            },
        )
    } else {
        Err(ProgramError::IncorrectProgramId)
    }
}

/// The token program's call by which `current_authority` makes
/// `new_authority` the freeze authority of `mint`.
pub open spec fn spec_set_freeze_authority(
    token_program: Pubkey,
    mint: Pubkey,
    new_authority: Pubkey,
    current_authority: Pubkey,
) -> Result<InstructionView, ProgramError> {
    if accepts_token_program(token_program) {
        Ok(
            InstructionView {
                program_id: token_program,
                accounts: seq![
                    AccountMeta::writable(mint, false),
                    AccountMeta::readonly(current_authority, true),
                ],
                data: seq![6u8, 1u8, 1u8] + new_authority.bytes(),
            },
        )
    } else {
        Err(ProgramError::IncorrectProgramId)
    }
}

/// The data of the system program's instruction that creates an account:
/// four zero bytes for the instruction's number, the balance and the size as
/// eight bytes each with the lowest byte first, and the owner's address.
pub open spec fn spec_create_account_data(lamports: u64, space: u64, owner: Pubkey) -> Seq<u8> {
    seq![0u8, 0u8, 0u8, 0u8] + vstd::bytes::spec_u64_to_le_bytes(lamports) + vstd::bytes::spec_u64_to_le_bytes(space)
        + owner.bytes()
}

/// The system program's call by which `from` pays for the new account `to`
/// of `space` bytes, owned by `owner`.
pub open spec fn spec_create_account(
    from: Pubkey,
    to: Pubkey,
    lamports: u64,
    space: u64,
    owner: Pubkey,
) -> InstructionView {
    InstructionView {
        program_id: Pubkey::spec_default(),
        accounts: seq![AccountMeta::writable(from, true), AccountMeta::writable(to, true)],
        data: spec_create_account_data(lamports, space, owner),
    }
}

/// Calls `instruction::freeze_account` of spl-token-2022 with no further
/// signers. For a token program that it accepts it gives the call with the
/// token account writable, the mint, the signing authority and the one data
/// byte 10; for any other the code of `IncorrectProgramId`.
#[verifier::external_body]
fn token_freeze_account(token_program: &Pubkey, account: &Pubkey, mint: &Pubkey, authority: &Pubkey) -> (r: Result<Instruction, u64>)
    ensures
        match r {
            Ok(ix) => spec_freeze_account(*token_program, *account, *mint, *authority) == Ok::<InstructionView, ProgramError>(ix@),
            Err(code) => !accepts_token_program(*token_program) && code == 0x7_0000_0000,
        },
{
    let key = |k: &Pubkey| solana_pubkey::Pubkey::new_from_array(k.0);
    let ix = spl_token_2022::instruction::freeze_account(&key(token_program), &key(account), &key(mint), &key(authority), &[])
        .map_err(u64::from)?;
    let meta = |m: &solana_instruction::AccountMeta| AccountMeta {
        pubkey: Pubkey(m.pubkey.to_bytes()),
        is_signer: m.is_signer,
        is_writable: m.is_writable,
    };
    Ok(Instruction { program_id: Pubkey(ix.program_id.to_bytes()), accounts: ix.accounts.iter().map(meta).collect(), data: ix.data })
}

/// Calls `instruction::thaw_account` of spl-token-2022 with no further
/// signers. For a token program that it accepts it gives the call with the
/// token account writable, the mint, the signing authority and the one data
/// byte 11; for any other the code of `IncorrectProgramId`.
#[verifier::external_body]
fn token_thaw_account(token_program: &Pubkey, account: &Pubkey, mint: &Pubkey, authority: &Pubkey) -> (r: Result<Instruction, u64>)
    ensures
        match r {
            Ok(ix) => spec_thaw_account(*token_program, *account, *mint, *authority) == Ok::<InstructionView, ProgramError>(ix@),
            Err(code) => !accepts_token_program(*token_program) && code == 0x7_0000_0000,
        },
{
    let key = |k: &Pubkey| solana_pubkey::Pubkey::new_from_array(k.0);
    let ix = spl_token_2022::instruction::thaw_account(&key(token_program), &key(account), &key(mint), &key(authority), &[])
        .map_err(u64::from)?;
    let meta = |m: &solana_instruction::AccountMeta| AccountMeta {
        pubkey: Pubkey(m.pubkey.to_bytes()),
        is_signer: m.is_signer,
        is_writable: m.is_writable,
    };
    Ok(Instruction { program_id: Pubkey(ix.program_id.to_bytes()), accounts: ix.accounts.iter().map(meta).collect(), data: ix.data })
}

/// Calls `instruction::set_authority` of spl-token-2022 for the authority
/// type `FreezeAccount`, with a new authority and no further signers. For a
/// token program that it accepts it gives the call with the mint writable,
/// the signing current authority, and as data the bytes 6, 1, 1 and the new
/// authority's address; for any other the code of `IncorrectProgramId`.
#[verifier::external_body]
fn token_set_freeze_authority(token_program: &Pubkey, mint: &Pubkey, new_authority: &Pubkey, current_authority: &Pubkey) -> (r: Result<Instruction, u64>)
    ensures
        match r {
            Ok(ix) => spec_set_freeze_authority(*token_program, *mint, *new_authority, *current_authority)
                == Ok::<InstructionView, ProgramError>(ix@),
            Err(code) => !accepts_token_program(*token_program) && code == 0x7_0000_0000,
        },
{
    let key = |k: &Pubkey| solana_pubkey::Pubkey::new_from_array(k.0);
    let kind = spl_token_2022::instruction::AuthorityType::FreezeAccount;
    let ix = spl_token_2022::instruction::set_authority(&key(token_program), &key(mint), Some(&key(new_authority)), kind, &key(current_authority), &[])
        .map_err(u64::from)?;
    let meta = |m: &solana_instruction::AccountMeta| AccountMeta {
        pubkey: Pubkey(m.pubkey.to_bytes()),
        is_signer: m.is_signer,
        is_writable: m.is_writable,
    };
    Ok(Instruction { program_id: Pubkey(ix.program_id.to_bytes()), accounts: ix.accounts.iter().map(meta).collect(), data: ix.data })
}

/// Calls `instruction::create_account` of solana-system-interface. The call
/// goes to the system program and takes the paying account and the new
/// account, both writable and signing. Its data is the instruction's number
/// 0 in four bytes, the balance and the size in eight bytes each, lowest
/// byte first, and the 32 bytes of the owner's address.
#[verifier::external_body]
fn system_create_account(from: &Pubkey, to: &Pubkey, lamports: u64, space: u64, owner: &Pubkey) -> (r: Instruction)
    ensures
        r@.program_id == Pubkey::spec_default(),
        r@.accounts == seq![AccountMeta::writable(*from, true), AccountMeta::writable(*to, true)],
        r@.data == spec_create_account_data(lamports, space, *owner),
{
    let key = |k: &Pubkey| solana_pubkey::Pubkey::new_from_array(k.0);
    let ix = solana_system_interface::instruction::create_account(&key(from), &key(to), lamports, space, &key(owner));
    let meta = |m: &solana_instruction::AccountMeta| AccountMeta {
        pubkey: Pubkey(m.pubkey.to_bytes()),
        is_signer: m.is_signer,
        is_writable: m.is_writable,
    };
    Instruction { program_id: Pubkey(ix.program_id.to_bytes()), accounts: ix.accounts.iter().map(meta).collect(), data: ix.data }
}

/// Builds the token program's call that freezes `account`.
pub fn freeze_account(token_program: &Pubkey, account: &Pubkey, mint: &Pubkey, authority: &Pubkey) -> (r: Result<
    Instruction,
    ProgramError,
>)
    ensures
        match r {
            Ok(ix) => spec_freeze_account(*token_program, *account, *mint, *authority) == Ok::<InstructionView, ProgramError>(ix@),
            Err(error) => spec_freeze_account(*token_program, *account, *mint, *authority) == Err::<InstructionView, ProgramError>(error),
        },
{
    match token_freeze_account(token_program, account, mint, authority) {
        Ok(ix) => Ok(ix),
        Err(code) => Err(ProgramError::from_code(code)),
    }
}

/// Builds the token program's call that thaws `account`.
pub fn thaw_account(token_program: &Pubkey, account: &Pubkey, mint: &Pubkey, authority: &Pubkey) -> (r: Result<
    Instruction,
    ProgramError,
>)
    ensures
        match r {
            Ok(ix) => spec_thaw_account(*token_program, *account, *mint, *authority) == Ok::<InstructionView, ProgramError>(ix@),
            Err(error) => spec_thaw_account(*token_program, *account, *mint, *authority) == Err::<InstructionView, ProgramError>(error),
        },
{
    match token_thaw_account(token_program, account, mint, authority) {
        Ok(ix) => Ok(ix),
        Err(code) => Err(ProgramError::from_code(code)),
    }
}

/// Builds the token program's call that makes `new_authority` the freeze
/// authority of `mint`.
pub fn set_freeze_authority(
    token_program: &Pubkey,
    mint: &Pubkey,
    new_authority: &Pubkey,
    current_authority: &Pubkey,
) -> (r: Result<Instruction, ProgramError>)
    ensures
        match r {
            Ok(ix) => spec_set_freeze_authority(*token_program, *mint, *new_authority, *current_authority)
                == Ok::<InstructionView, ProgramError>(ix@),
            Err(error) => spec_set_freeze_authority(*token_program, *mint, *new_authority, *current_authority)
                == Err::<InstructionView, ProgramError>(error),
        },
{
    match token_set_freeze_authority(token_program, mint, new_authority, current_authority) {
        Ok(ix) => Ok(ix),
        Err(code) => Err(ProgramError::from_code(code)),
    }
}

/// Builds the system program's call that creates the account `to`.
pub fn create_account(from: &Pubkey, to: &Pubkey, lamports: u64, space: u64, owner: &Pubkey) -> (r: Instruction)
    ensures
        r@ == spec_create_account(*from, *to, lamports, space, *owner),
{
    system_create_account(from, to, lamports, space, owner)
}

} // verus!

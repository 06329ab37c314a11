use solana_program_pack::Pack;
use spl_token_2022::extension::{BaseStateWithExtensionsMut, ExtensionType, StateWithExtensionsMut};
use token_acl::account::AccountMeta;
use token_acl::error::ProgramError;
use token_acl::native::{
    create_account, freeze_account, is_system_program, is_token_program, set_freeze_authority, system_program_id,
    thaw_account, token_program_id, AccountState, Mint, TokenAccount, SPL_TOKEN_PROGRAM_ID, TOKEN_2022_PROGRAM_ID,
};
use token_acl::pubkey::Pubkey;
use token_acl::state::PodBool;

fn key(byte: u8) -> Pubkey {
    Pubkey([byte; 32])
}

fn outside(key: &Pubkey) -> solana_pubkey::Pubkey {
    solana_pubkey::Pubkey::new_from_array(key.0)
}

fn token_account(mint: &Pubkey, owner: &Pubkey, state: spl_token_2022::state::AccountState) -> Vec<u8> {
    let mut account = spl_token_2022::state::Account::default();
    account.mint = outside(mint);
    account.owner = outside(owner);
    account.state = state;
    let mut data = vec![0u8; spl_token_2022::state::Account::LEN];
    spl_token_2022::state::Account::pack(account, &mut data).unwrap();
    data
}

fn mint(freeze_authority: Option<Pubkey>, with_default_state: bool) -> Vec<u8> {
    let extensions: Vec<ExtensionType> =
        if with_default_state { vec![ExtensionType::DefaultAccountState] } else { vec![] };
    let size = ExtensionType::try_calculate_account_len::<spl_token_2022::state::Mint>(&extensions).unwrap();
    let mut data = vec![0u8; size];
    let mut state = StateWithExtensionsMut::<spl_token_2022::state::Mint>::unpack_uninitialized(&mut data).unwrap();
    if with_default_state {
        let extension = state
            .init_extension::<spl_token_2022::extension::default_account_state::DefaultAccountState>(true)
            .unwrap();
        extension.state = spl_token_2022::state::AccountState::Frozen.into();
    }
    let mut base = spl_token_2022::state::Mint::default();
    base.is_initialized = true;
    base.decimals = 6;
    base.freeze_authority = freeze_authority.map(|k| outside(&k)).into();
    state.base = base;
    state.pack_base();
    state.init_account_type().unwrap();
    data
}

#[test]
fn program_addresses_are_those_of_the_programs() {
    assert_eq!(TOKEN_2022_PROGRAM_ID, spl_token_2022::id().to_bytes());
    let first: solana_pubkey::Pubkey = "TokenkegQfeZyiNwAJbNbGKPFXCWuBvf9Ss623VQ5DA".parse().unwrap();
    assert_eq!(SPL_TOKEN_PROGRAM_ID, first.to_bytes());
    assert_eq!(token_program_id(), Pubkey(TOKEN_2022_PROGRAM_ID));
    assert_eq!(system_program_id(), Pubkey([0u8; 32]));
    assert_eq!(system_program_id().0, solana_system_interface::program::ID.to_bytes());
}

#[test]
fn only_the_token_program_is_the_token_program() {
    assert!(is_token_program(&token_program_id()));
    assert!(!is_token_program(&Pubkey(SPL_TOKEN_PROGRAM_ID)));
    assert!(!is_token_program(&key(0)));
    assert!(is_system_program(&key(0)));
    assert!(!is_system_program(&token_program_id()));
    assert!(!is_system_program(&key(1)));
}

#[test]
fn pod_bool_is_zero_or_not() {
    assert_eq!(PodBool::from_bool(true), PodBool(1));
    assert_eq!(PodBool::from_bool(false), PodBool(0));
    assert!(PodBool(1).value());
    assert!(PodBool(2).value());
    assert!(PodBool(255).value());
    assert!(!PodBool(0).value());
}

#[test]
fn token_account_is_read_as_the_token_program_reads_it() {
    let data = token_account(&key(1), &key(2), spl_token_2022::state::AccountState::Frozen);
    assert_eq!(
        TokenAccount::unpack(&data),
        Ok(TokenAccount { mint: key(1), owner: key(2), state: AccountState::Frozen })
    );
    let data = token_account(&key(3), &key(4), spl_token_2022::state::AccountState::Initialized);
    assert_eq!(
        TokenAccount::unpack(&data),
        Ok(TokenAccount { mint: key(3), owner: key(4), state: AccountState::Initialized })
    );
}

#[test]
fn what_is_no_token_account_is_refused() {
    assert_eq!(TokenAccount::unpack(&[]), Err(ProgramError::InvalidAccountData));
    assert_eq!(TokenAccount::unpack(&[0u8; 164]), Err(ProgramError::InvalidAccountData));
    assert_eq!(TokenAccount::unpack(&[0u8; 165]), Err(ProgramError::UninitializedAccount));
    let data = token_account(&key(1), &key(2), spl_token_2022::state::AccountState::Uninitialized);
    assert_eq!(TokenAccount::unpack(&data), Err(ProgramError::UninitializedAccount));
}

#[test]
fn mint_is_read_with_its_freeze_authority_and_extension() {
    assert_eq!(
        Mint::unpack(&mint(Some(key(5)), true)),
        Ok(Mint { freeze_authority: Some(key(5)), has_default_account_state: true })
    );
    assert_eq!(
        Mint::unpack(&mint(Some(key(5)), false)),
        Ok(Mint { freeze_authority: Some(key(5)), has_default_account_state: false })
    );
    assert_eq!(
        Mint::unpack(&mint(None, true)),
        Ok(Mint { freeze_authority: None, has_default_account_state: true })
    );
}

#[test]
fn what_is_no_mint_is_refused() {
    assert_eq!(Mint::unpack(&[]), Err(ProgramError::InvalidAccountData));
    assert_eq!(Mint::unpack(&[0u8; 82]), Err(ProgramError::UninitializedAccount));
    assert_eq!(Mint::unpack(&[0u8; 81]), Err(ProgramError::InvalidAccountData));
}

#[test]
fn native_freeze_and_thaw_are_one_byte_calls() {
    let program = token_program_id();
    let ix = freeze_account(&program, &key(1), &key(2), &key(3)).unwrap();
    assert_eq!(ix.program_id, program);
    assert_eq!(
        ix.accounts,
        vec![
            AccountMeta { pubkey: key(1), is_signer: false, is_writable: true },
            AccountMeta { pubkey: key(2), is_signer: false, is_writable: false },
            AccountMeta { pubkey: key(3), is_signer: true, is_writable: false },
        ]
    );
    assert_eq!(ix.data, vec![10]);
    let ix = thaw_account(&program, &key(1), &key(2), &key(3)).unwrap();
    assert_eq!(ix.program_id, program);
    assert_eq!(ix.accounts.len(), 3);
    assert_eq!(ix.accounts[0], AccountMeta { pubkey: key(1), is_signer: false, is_writable: true });
    assert_eq!(ix.accounts[2], AccountMeta { pubkey: key(3), is_signer: true, is_writable: false });
    assert_eq!(ix.data, vec![11]);
    let first = Pubkey(SPL_TOKEN_PROGRAM_ID);
    assert_eq!(freeze_account(&first, &key(1), &key(2), &key(3)).unwrap().program_id, first);
}

#[test]
fn native_calls_are_refused_for_other_programs() {
    assert_eq!(freeze_account(&key(9), &key(1), &key(2), &key(3)), Err(ProgramError::IncorrectProgramId));
    assert_eq!(thaw_account(&key(9), &key(1), &key(2), &key(3)), Err(ProgramError::IncorrectProgramId));
    assert_eq!(set_freeze_authority(&key(9), &key(1), &key(2), &key(3)), Err(ProgramError::IncorrectProgramId));
}

#[test]
fn set_freeze_authority_names_the_new_authority() {
    let program = token_program_id();
    let ix = set_freeze_authority(&program, &key(1), &key(2), &key(3)).unwrap();
    assert_eq!(ix.program_id, program);
    assert_eq!(
        ix.accounts,
        vec![
            AccountMeta { pubkey: key(1), is_signer: false, is_writable: true },
            AccountMeta { pubkey: key(3), is_signer: true, is_writable: false },
        ]
    );
    let mut data = vec![6u8, 1, 1];
    data.extend_from_slice(&[2u8; 32]);
    assert_eq!(ix.data, data);
}

#[test]
fn create_account_is_the_call_of_the_system_program() {
    let ix = create_account(&key(1), &key(2), 1_000, 100, &key(3));
    let expected = solana_system_interface::instruction::create_account(
        &outside(&key(1)),
        &outside(&key(2)),
        1_000,
        100,
        &outside(&key(3)),
    );
    assert_eq!(ix.program_id, Pubkey([0u8; 32]));
    assert_eq!(
        ix.accounts,
        vec![
            AccountMeta { pubkey: key(1), is_signer: true, is_writable: true },
            AccountMeta { pubkey: key(2), is_signer: true, is_writable: true },
        ]
    );
    assert_eq!(ix.data, expected.data);
    assert_eq!(ix.data.len(), 52);
    assert_eq!(&ix.data[..4], &[0u8; 4]);
    let mut stated = vec![0u8; 4];
    stated.extend_from_slice(&0x0102_0304_0506_0708u64.to_le_bytes());
    stated.extend_from_slice(&u64::MAX.to_le_bytes());
    stated.extend_from_slice(&[9u8; 32]);
    assert_eq!(create_account(&key(1), &key(2), 0x0102_0304_0506_0708, u64::MAX, &key(9)).data, stated);
    assert_eq!(&ix.data[4..12], &1_000u64.to_le_bytes());
    assert_eq!(&ix.data[12..20], &100u64.to_le_bytes());
    assert_eq!(&ix.data[20..52], &[3u8; 32]);
}

use solana_program_pack::Pack;
use spl_token_2022::extension::{BaseStateWithExtensionsMut, ExtensionType, StateWithExtensionsMut};
use token_acl::account::{AccountInfo, AccountMeta};
use token_acl::config::{
    CreateConfig, DeleteConfig, ForfeitFreezeAuthority, SetAuthority, SetGatingProgram,
    TogglePermissionlessInstructions,
};
use token_acl::error::ProgramError;
use token_acl::native::{create_account, set_freeze_authority, token_program_id};
use token_acl::plan::Step;
use token_acl::privileged::{Freeze, Thaw};
use token_acl::program::{find_mint_config_address, id};
use token_acl::pubkey::Pubkey;
use token_acl::state::{load_mint_config, MintConfig, PodBool};

fn key(byte: u8) -> Pubkey {
    Pubkey([byte; 32])
}

fn account(key: Pubkey, is_signer: bool, data: Vec<u8>) -> AccountInfo {
    let lamports = if data.is_empty() { 0 } else { 1_000_000 };
    AccountInfo { key, is_signer, is_writable: true, lamports, data, owner: Pubkey::default() }
}

fn mint_data(freeze_authority: Option<Pubkey>, with_default_state: bool) -> Vec<u8> {
    let extensions: Vec<ExtensionType> =
        if with_default_state { vec![ExtensionType::DefaultAccountState] } else { vec![] };
    let size = ExtensionType::try_calculate_account_len::<spl_token_2022::state::Mint>(&extensions).unwrap();
    let mut data = vec![0u8; size];
    let mut state = StateWithExtensionsMut::<spl_token_2022::state::Mint>::unpack_uninitialized(&mut data).unwrap();
    if with_default_state {
        let extension = state
            .init_extension::<spl_token_2022::extension::default_account_state::DefaultAccountState>(true)
            .unwrap();
        extension.state = spl_token_2022::state::AccountState::Frozen.into();
    }
    let mut base = spl_token_2022::state::Mint::default();
    base.is_initialized = true;
    base.freeze_authority = freeze_authority.map(|k| solana_pubkey::Pubkey::new_from_array(k.0)).into();
    state.base = base;
    state.pack_base();
    state.init_account_type().unwrap();
    data
}

fn create_accounts(authority_signs: bool, mint: Vec<u8>, record: Vec<u8>) -> Vec<AccountInfo> {
    let (record_key, _) = find_mint_config_address(&key(3)).unwrap();
    vec![
        account(key(1), true, vec![]),
        account(key(2), authority_signs, vec![]),
        account(key(3), false, mint),
        account(record_key, false, record),
        account(Pubkey::default(), false, vec![]),
        account(token_program_id(), false, vec![]),
    ]
}

fn record(authority: u8, gating_program: u8) -> MintConfig {
    MintConfig::new(key(3), key(authority), key(gating_program), 250)
}

fn change_accounts(authority: u8, signs: bool, record: &MintConfig) -> Vec<AccountInfo> {
    vec![account(key(authority), signs, vec![]), account(key(50), false, record.pack())]
}

fn written(steps: &[Step]) -> MintConfig {
    assert_eq!(steps.len(), 1);
    match &steps[0] {
        Step::Write { account, data } => {
            assert_eq!(*account, key(50));
            load_mint_config(data).unwrap()
        }
        other => panic!("unexpected step {:?}", other),
    }
}

#[test]
fn create_writes_a_record_with_both_flags_off() {
    let accounts = create_accounts(true, mint_data(Some(key(9)), true), vec![]);
    let context = CreateConfig::try_from(&accounts).unwrap();
    let (record_key, bump) = find_mint_config_address(&key(3)).unwrap();
    assert_eq!(context.config_bump, bump);
    let steps = context.process(&[7u8; 32], 1_586_880).unwrap();
    assert_eq!(steps.len(), 2);
    let mut seeds = vec![b"MINT_CONFIG".to_vec(), vec![3u8; 32], vec![bump]];
    assert_eq!(
        steps[0],
        Step::Invoke {
            instruction: create_account(&key(2), &record_key, 1_586_880, 100, &id()),
            signer_seeds: seeds.clone(),
        }
    );
    seeds.clear();
    match &steps[1] {
        Step::Write { account, data } => {
            assert_eq!(*account, record_key);
            let record = load_mint_config(data).unwrap();
            assert_eq!(record.discriminator, 0x01);
            assert_eq!(record.mint, key(3));
            assert_eq!(record.freeze_authority, key(2));
            assert_eq!(record.gating_program, key(7));
            assert_eq!(record.bump, bump);
            assert_eq!(record.enable_permissionless_freeze, PodBool(0));
            assert_eq!(record.enable_permissionless_thaw, PodBool(0));
            assert!(!record.is_permissionless_freeze_enabled());
            assert!(!record.is_permissionless_thaw_enabled());
        }
        other => panic!("unexpected step {:?}", other),
    }
}

#[test]
fn create_takes_the_freeze_authority_where_the_authority_holds_it() {
    let accounts = create_accounts(true, mint_data(Some(key(2)), true), vec![]);
    let (record_key, _) = find_mint_config_address(&key(3)).unwrap();
    let steps = CreateConfig::try_from(&accounts).unwrap().process(&[0u8; 32], 10).unwrap();
    assert_eq!(steps.len(), 3);
    assert_eq!(
        steps[2],
        Step::Invoke {
            instruction: set_freeze_authority(&token_program_id(), &key(3), &record_key, &key(2)).unwrap(),
            signer_seeds: vec![],
        }
    );
}

#[test]
fn create_fails_on_a_second_time() {
    let accounts = create_accounts(true, mint_data(Some(key(2)), true), vec![]);
    let steps = CreateConfig::try_from(&accounts).unwrap().process(&[7u8; 32], 10).unwrap();
    let data = match &steps[1] {
        Step::Write { data, .. } => data.clone(),
        other => panic!("unexpected step {:?}", other),
    };
    let again = create_accounts(true, mint_data(Some(key(2)), true), data);
    assert_eq!(
        CreateConfig::try_from(&again).unwrap().process(&[7u8; 32], 10),
        Err(ProgramError::Custom(0))
    );
    let mut funded = create_accounts(true, mint_data(Some(key(2)), true), vec![]);
    funded[3].lamports = 1;
    assert_eq!(
        CreateConfig::try_from(&funded).unwrap().process(&[7u8; 32], 10),
        Err(ProgramError::Custom(0))
    );
}

#[test]
fn create_checks_its_accounts() {
    let good = create_accounts(true, mint_data(Some(key(2)), true), vec![]);
    assert_eq!(CreateConfig::try_from(&good[..5]).err(), Some(ProgramError::InvalidInstructionData));
    let mut seven = good.clone();
    seven.push(account(key(60), false, vec![]));
    assert_eq!(CreateConfig::try_from(&seven).err(), Some(ProgramError::InvalidInstructionData));
    let unsigned = create_accounts(false, mint_data(Some(key(2)), true), vec![]);
    assert_eq!(CreateConfig::try_from(&unsigned).err(), Some(ProgramError::Custom(0)));
    let mut other_record = good.clone();
    other_record[3].key = key(50);
    let (_, bump) = find_mint_config_address(&key(3)).unwrap();
    assert_eq!(CreateConfig::try_from(&other_record).unwrap().config_bump, bump);
    other_record[4].key = key(1);
    assert_eq!(CreateConfig::try_from(&other_record).err(), Some(ProgramError::Custom(1)));
    other_record[5].key = key(1);
    assert_eq!(CreateConfig::try_from(&other_record).err(), Some(ProgramError::Custom(1)));
    other_record[1].is_signer = false;
    assert_eq!(CreateConfig::try_from(&other_record).err(), Some(ProgramError::Custom(0)));
    let mut wrong_system = good.clone();
    wrong_system[4].key = key(1);
    assert_eq!(CreateConfig::try_from(&wrong_system).err(), Some(ProgramError::Custom(1)));
    let mut wrong_token = good.clone();
    wrong_token[5].key = key(1);
    assert_eq!(CreateConfig::try_from(&wrong_token).err(), Some(ProgramError::Custom(2)));
}

#[test]
fn create_refuses_a_mint_that_does_not_fit() {
    let short_payload = create_accounts(true, mint_data(Some(key(2)), true), vec![]);
    assert_eq!(
        CreateConfig::try_from(&short_payload).unwrap().process(&[7u8; 31], 10),
        Err(ProgramError::InvalidInstructionData)
    );
    let no_extension = create_accounts(true, mint_data(Some(key(2)), false), vec![]);
    assert_eq!(
        CreateConfig::try_from(&no_extension).unwrap().process(&[7u8; 32], 10),
        Err(ProgramError::Custom(3))
    );
    let no_authority = create_accounts(true, mint_data(None, true), vec![]);
    assert_eq!(
        CreateConfig::try_from(&no_authority).unwrap().process(&[7u8; 32], 10),
        Err(ProgramError::Custom(3))
    );
    let no_mint = create_accounts(true, vec![0u8; spl_token_2022::state::Mint::LEN], vec![]);
    assert_eq!(
        CreateConfig::try_from(&no_mint).unwrap().process(&[7u8; 32], 10),
        Err(ProgramError::UninitializedAccount)
    );
}

#[test]
fn set_authority_changes_the_authority_only() {
    let before = record(2, 9);
    let context = SetAuthority::try_from(&change_accounts(2, true, &before)).unwrap();
    let after = written(&context.process(&[8u8; 32]).unwrap());
    assert_eq!(after, MintConfig { freeze_authority: key(8), ..before });
}

#[test]
fn set_authority_fails_for_anybody_else() {
    let before = record(2, 9);
    let context = SetAuthority::try_from(&change_accounts(4, true, &before)).unwrap();
    assert_eq!(context.process(&[8u8; 32]), Err(ProgramError::Custom(0)));
    assert_eq!(
        SetAuthority::try_from(&change_accounts(2, false, &before)).err(),
        Some(ProgramError::Custom(0))
    );
    let context = SetAuthority::try_from(&change_accounts(2, true, &before)).unwrap();
    assert_eq!(context.process(&[8u8; 33]), Err(ProgramError::InvalidInstructionData));
    assert_eq!(SetAuthority::try_from(&[]).err(), Some(ProgramError::InvalidInstructionData));
}

#[test]
fn the_new_authority_takes_over() {
    let before = record(2, 9);
    let after = written(&SetAuthority::try_from(&change_accounts(2, true, &before)).unwrap().process(&[8u8; 32]).unwrap());
    let old = SetAuthority::try_from(&change_accounts(2, true, &after)).unwrap();
    assert_eq!(old.process(&[2u8; 32]), Err(ProgramError::Custom(0)));
    let new = SetAuthority::try_from(&change_accounts(8, true, &after)).unwrap();
    assert_eq!(written(&new.process(&[2u8; 32]).unwrap()), before);
}

#[test]
fn set_gating_program_changes_the_gating_program_only() {
    let before = record(2, 9);
    let context = SetGatingProgram::try_from(&change_accounts(2, true, &before)).unwrap();
    let after = written(&context.process(&[0u8; 32]).unwrap());
    assert_eq!(after, MintConfig { gating_program: Pubkey::default(), ..before });
    let stranger = SetGatingProgram::try_from(&change_accounts(3, true, &before)).unwrap();
    assert_eq!(stranger.process(&[0u8; 32]), Err(ProgramError::Custom(0)));
    assert_eq!(context.process(&[]), Err(ProgramError::InvalidInstructionData));
}

#[test]
fn toggle_states_both_flags() {
    let before = record(2, 9);
    let context = TogglePermissionlessInstructions::try_from(&change_accounts(2, true, &before)).unwrap();
    let after = written(&context.process(&[1, 0]).unwrap());
    assert!(after.is_permissionless_freeze_enabled());
    assert!(!after.is_permissionless_thaw_enabled());
    assert_eq!(after.enable_permissionless_freeze, PodBool(1));
    assert_eq!(MintConfig { enable_permissionless_freeze: PodBool(0), ..after }, before);
    let after = written(&context.process(&[0, 200]).unwrap());
    assert!(!after.is_permissionless_freeze_enabled());
    assert!(after.is_permissionless_thaw_enabled());
    assert_eq!(after.enable_permissionless_thaw, PodBool(1));
    assert_eq!(context.process(&[1]), Err(ProgramError::InvalidInstructionData));
    assert_eq!(context.process(&[1, 0, 0]), Err(ProgramError::InvalidInstructionData));
    let stranger = TogglePermissionlessInstructions::try_from(&change_accounts(3, true, &before)).unwrap();
    assert_eq!(stranger.process(&[1, 1]), Err(ProgramError::Custom(0)));
}

#[test]
fn changes_need_an_initialized_record() {
    let accounts = vec![account(key(2), true, vec![]), account(key(50), false, vec![0u8; 100])];
    assert_eq!(SetAuthority::try_from(&accounts).unwrap().process(&[8u8; 32]), Err(ProgramError::Custom(4)));
    assert_eq!(SetGatingProgram::try_from(&accounts).unwrap().process(&[8u8; 32]), Err(ProgramError::Custom(4)));
    assert_eq!(
        TogglePermissionlessInstructions::try_from(&accounts).unwrap().process(&[1, 1]),
        Err(ProgramError::Custom(4))
    );
}

fn privileged_accounts(authority: u8, mint: u8, record: &MintConfig) -> Vec<AccountInfo> {
    vec![
        account(key(authority), true, vec![]),
        account(key(mint), false, vec![]),
        account(key(40), false, vec![]),
        account(key(50), false, record.pack()),
        account(token_program_id(), false, vec![]),
    ]
}

#[test]
fn forfeit_hands_the_freeze_authority_on() {
    let before = record(2, 9);
    let accounts = vec![
        account(key(2), true, vec![]),
        account(key(3), false, vec![]),
        account(key(50), false, before.pack()),
        account(token_program_id(), false, vec![]),
    ];
    let context = ForfeitFreezeAuthority::try_from(&accounts).unwrap();
    let steps = context.process(&[8u8; 32]).unwrap();
    assert_eq!(
        steps,
        vec![Step::Invoke {
            instruction: set_freeze_authority(&token_program_id(), &key(3), &key(8), &key(50)).unwrap(),
            signer_seeds: vec![b"MINT_CONFIG".to_vec(), vec![3u8; 32], vec![250]],
        }]
    );
    assert_eq!(context.process(&[8u8; 3]), Err(ProgramError::InvalidInstructionData));
    let mut stranger = accounts.clone();
    stranger[0].key = key(4);
    assert_eq!(
        ForfeitFreezeAuthority::try_from(&stranger).unwrap().process(&[8u8; 32]),
        Err(ProgramError::Custom(0))
    );
    let mut other_mint = accounts.clone();
    other_mint[1].key = key(4);
    assert_eq!(
        ForfeitFreezeAuthority::try_from(&other_mint).unwrap().process(&[8u8; 32]),
        Err(ProgramError::Custom(3))
    );
    let mut wrong_program = accounts.clone();
    wrong_program[3].key = key(4);
    assert_eq!(ForfeitFreezeAuthority::try_from(&wrong_program).err(), Some(ProgramError::Custom(2)));
    assert_eq!(ForfeitFreezeAuthority::try_from(&accounts[..3]).err(), Some(ProgramError::InvalidInstructionData));
}

#[test]
fn delete_closes_the_record_for_the_receiver() {
    let before = record(2, 9);
    let accounts = vec![
        account(key(2), true, vec![]),
        account(key(60), false, vec![]),
        account(key(3), false, vec![]),
        account(key(50), false, before.pack()),
    ];
    let context = DeleteConfig::try_from(&accounts).unwrap();
    assert_eq!(
        context.process(&[]),
        Ok(vec![Step::Close { account: key(50), receiver: key(60), lamports: 1_000_000 }])
    );
    let mut rich = accounts.clone();
    rich[1].lamports = u64::MAX - 999_999;
    assert_eq!(DeleteConfig::try_from(&rich).unwrap().process(&[]), Err(ProgramError::ArithmeticOverflow));
    rich[1].lamports = u64::MAX - 1_000_000;
    assert!(DeleteConfig::try_from(&rich).unwrap().process(&[]).is_ok());
    assert_eq!(context.process(&[0]), Err(ProgramError::InvalidInstructionData));
    let mut stranger = accounts.clone();
    stranger[0].key = key(4);
    assert_eq!(DeleteConfig::try_from(&stranger).unwrap().process(&[]), Err(ProgramError::Custom(0)));
    let mut other_mint = accounts.clone();
    other_mint[2].key = key(4);
    assert_eq!(DeleteConfig::try_from(&other_mint).unwrap().process(&[]), Err(ProgramError::Custom(3)));
    let mut unsigned = accounts.clone();
    unsigned[0].is_signer = false;
    assert_eq!(DeleteConfig::try_from(&unsigned).err(), Some(ProgramError::Custom(0)));
}

#[test]
fn authority_freezes_and_thaws_directly() {
    let before = record(2, 9);
    let accounts = privileged_accounts(2, 3, &before);
    let seeds = vec![b"MINT_CONFIG".to_vec(), vec![3u8; 32], vec![250]];
    let steps = Freeze::try_from(&accounts).unwrap().process().unwrap();
    assert_eq!(steps.len(), 1);
    match &steps[0] {
        Step::Invoke { instruction, signer_seeds } => {
            assert_eq!(instruction.program_id, token_program_id());
            assert_eq!(instruction.data, vec![10]);
            assert_eq!(
                instruction.accounts,
                vec![
                    AccountMeta { pubkey: key(40), is_signer: false, is_writable: true },
                    AccountMeta { pubkey: key(3), is_signer: false, is_writable: false },
                    AccountMeta { pubkey: key(50), is_signer: true, is_writable: false },
                ]
            );
            assert_eq!(*signer_seeds, seeds);
        }
        other => panic!("unexpected step {:?}", other),
    }
    let steps = Thaw::try_from(&accounts).unwrap().process().unwrap();
    match &steps[0] {
        Step::Invoke { instruction, signer_seeds } => {
            assert_eq!(instruction.data, vec![11]);
            assert_eq!(*signer_seeds, seeds);
        }
        other => panic!("unexpected step {:?}", other),
    }
}

#[test]
fn direct_freeze_needs_the_authority_and_the_mint() {
    let before = record(2, 9);
    let stranger = privileged_accounts(4, 3, &before);
    assert_eq!(Freeze::try_from(&stranger).unwrap().process(), Err(ProgramError::Custom(0)));
    assert_eq!(Thaw::try_from(&stranger).unwrap().process(), Err(ProgramError::Custom(0)));
    let other_mint = privileged_accounts(2, 4, &before);
    assert_eq!(Freeze::try_from(&other_mint).unwrap().process(), Err(ProgramError::Custom(3)));
    assert_eq!(Thaw::try_from(&other_mint).unwrap().process(), Err(ProgramError::Custom(3)));
    let mut unsigned = privileged_accounts(2, 3, &before);
    unsigned[0].is_signer = false;
    assert_eq!(Freeze::try_from(&unsigned).err(), Some(ProgramError::Custom(0)));
    let mut wrong_program = privileged_accounts(2, 3, &before);
    wrong_program[4].key = key(1);
    assert_eq!(Thaw::try_from(&wrong_program).err(), Some(ProgramError::Custom(2)));
    assert_eq!(Freeze::try_from(&unsigned[..4]).err(), Some(ProgramError::InvalidInstructionData));
    let mut no_record = privileged_accounts(2, 3, &before);
    no_record[3].data = vec![];
    assert_eq!(Freeze::try_from(&no_record).unwrap().process(), Err(ProgramError::Custom(4)));
}

#[test]
fn create_signs_for_the_derived_address_whatever_account_is_named() {
    let mut accounts = create_accounts(true, mint_data(Some(key(9)), true), vec![]);
    accounts[3].key = key(50);
    let (_, bump) = find_mint_config_address(&key(3)).unwrap();
    let steps = CreateConfig::try_from(&accounts).unwrap().process(&[7u8; 32], 10).unwrap();
    assert_eq!(
        steps[0],
        Step::Invoke {
            instruction: create_account(&key(2), &key(50), 10, 100, &id()),
            signer_seeds: vec![b"MINT_CONFIG".to_vec(), vec![3u8; 32], vec![bump]],
        }
    );
}

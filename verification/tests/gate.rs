use token_acl::account::AccountMeta;
use token_acl::error::ProgramError;
use token_acl::gate::{
    can_freeze_permissionless, can_thaw_permissionless, collect_freeze_extra_account_metas,
    collect_thaw_extra_account_metas, find_freeze_extra_account_metas_address,
    find_thaw_extra_account_metas_address, get_freeze_extra_account_metas_address,
    get_freeze_extra_account_metas_address_and_bump_seed, get_thaw_extra_account_metas_address,
    get_thaw_extra_account_metas_address_and_bump_seed, same_bytes, try_get_freeze_extra_account_metas_address,
    try_get_thaw_extra_account_metas_address, CanFreezePermissionlessInstruction, CanThawPermissionlessInstruction,
    EfficientBlockAllowInstruction, FREEZE_EXTRA_ACCOUNT_METAS_SEED, THAW_EXTRA_ACCOUNT_METAS_SEED,
};
use token_acl::pubkey::Pubkey;

const THAW: [u8; 8] = [8, 175, 169, 129, 137, 74, 61, 241];
const FREEZE: [u8; 8] = [214, 141, 109, 75, 248, 1, 45, 29];

fn key(byte: u8) -> Pubkey {
    Pubkey([byte; 32])
}

#[test]
fn discriminators_are_the_first_eight_bytes_of_the_hash() {
    assert_eq!(CanThawPermissionlessInstruction::discriminator(), THAW);
    assert_eq!(CanFreezePermissionlessInstruction::discriminator(), FREEZE);
    assert_eq!(EfficientBlockAllowInstruction::CanThawPermissionless.pack(), THAW.to_vec());
    assert_eq!(EfficientBlockAllowInstruction::CanFreezePermissionless.pack(), FREEZE.to_vec());
}

#[test]
fn question_is_read_from_the_first_eight_bytes() {
    assert_eq!(
        EfficientBlockAllowInstruction::unpack(&THAW),
        Ok(EfficientBlockAllowInstruction::CanThawPermissionless)
    );
    assert_eq!(
        EfficientBlockAllowInstruction::unpack(&FREEZE),
        Ok(EfficientBlockAllowInstruction::CanFreezePermissionless)
    );
    let mut longer = FREEZE.to_vec();
    longer.extend_from_slice(&[1, 2, 3]);
    assert_eq!(
        EfficientBlockAllowInstruction::unpack(&longer),
        Ok(EfficientBlockAllowInstruction::CanFreezePermissionless)
    );
}

#[test]
fn short_or_unknown_data_is_invalid_instruction_data() {
    assert_eq!(EfficientBlockAllowInstruction::unpack(&[]), Err(ProgramError::InvalidInstructionData));
    assert_eq!(EfficientBlockAllowInstruction::unpack(&THAW[..7]), Err(ProgramError::InvalidInstructionData));
    assert_eq!(EfficientBlockAllowInstruction::unpack(&[1u8; 8]), Err(ProgramError::InvalidInstructionData));
    assert_eq!(EfficientBlockAllowInstruction::unpack(&[0u8; 16]), Err(ProgramError::InvalidInstructionData));
}

#[test]
fn pack_then_unpack_gives_the_question_back() {
    for question in [
        EfficientBlockAllowInstruction::CanThawPermissionless,
        EfficientBlockAllowInstruction::CanFreezePermissionless,
    ] {
        assert_eq!(EfficientBlockAllowInstruction::unpack(&question.pack()), Ok(question));
    }
}

#[test]
fn gate_call_has_four_read_only_accounts() {
    let ix = can_thaw_permissionless(&key(1), &key(2), &key(3), &key(4), &key(5));
    assert_eq!(ix.program_id, key(1));
    assert_eq!(
        ix.accounts,
        vec![
            AccountMeta { pubkey: key(2), is_signer: false, is_writable: false },
            AccountMeta { pubkey: key(3), is_signer: false, is_writable: false },
            AccountMeta { pubkey: key(4), is_signer: false, is_writable: false },
            AccountMeta { pubkey: key(5), is_signer: false, is_writable: false },
        ]
    );
    assert_eq!(ix.data, THAW.to_vec());
    let ix = can_freeze_permissionless(&key(1), &key(2), &key(3), &key(4), &key(5));
    assert_eq!(ix.accounts.len(), 4);
    assert_eq!(ix.data, FREEZE.to_vec());
}

#[test]
fn seeds_are_the_prefix_and_the_mint() {
    assert_eq!(FREEZE_EXTRA_ACCOUNT_METAS_SEED, *b"freeze_extra_account_metas");
    assert_eq!(THAW_EXTRA_ACCOUNT_METAS_SEED, *b"thaw_extra_account_metas");
    assert_eq!(
        collect_thaw_extra_account_metas(&key(9)),
        vec![b"thaw_extra_account_metas".to_vec(), vec![9u8; 32]]
    );
    assert_eq!(
        collect_freeze_extra_account_metas(&key(9)),
        vec![b"freeze_extra_account_metas".to_vec(), vec![9u8; 32]]
    );
}

#[test]
fn list_addresses_are_derived_for_the_gating_program() {
    let mint = key(9);
    let program = key(77);
    let outside_program = solana_pubkey::Pubkey::new_from_array(program.0);
    let (thaw, thaw_bump) =
        solana_pubkey::Pubkey::find_program_address(&[b"thaw_extra_account_metas", &[9u8; 32]], &outside_program);
    let (freeze, freeze_bump) =
        solana_pubkey::Pubkey::find_program_address(&[b"freeze_extra_account_metas", &[9u8; 32]], &outside_program);
    assert_eq!(
        get_thaw_extra_account_metas_address_and_bump_seed(&mint, &program),
        (Pubkey(thaw.to_bytes()), thaw_bump)
    );
    assert_eq!(
        get_freeze_extra_account_metas_address_and_bump_seed(&mint, &program),
        (Pubkey(freeze.to_bytes()), freeze_bump)
    );
    assert_eq!(get_thaw_extra_account_metas_address(&mint, &program), Pubkey(thaw.to_bytes()));
    assert_eq!(get_freeze_extra_account_metas_address(&mint, &program), Pubkey(freeze.to_bytes()));
    assert_eq!(try_get_thaw_extra_account_metas_address(&mint, &program), Some(Pubkey(thaw.to_bytes())));
    assert_eq!(try_get_freeze_extra_account_metas_address(&mint, &program), Some(Pubkey(freeze.to_bytes())));
    assert_eq!(find_thaw_extra_account_metas_address(&mint, &program), Some((Pubkey(thaw.to_bytes()), thaw_bump)));
    assert_eq!(
        find_freeze_extra_account_metas_address(&mint, &program),
        Some((Pubkey(freeze.to_bytes()), freeze_bump))
    );
    assert_ne!(thaw, freeze);
}

#[test]
fn same_bytes_compares_length_and_content() {
    assert!(same_bytes(&[], &[]));
    assert!(same_bytes(&[1, 2], &[1, 2]));
    assert!(!same_bytes(&[1, 2], &[1, 3]));
    assert!(!same_bytes(&[1, 2], &[1, 2, 3]));
}

use token_acl::account::AccountMeta;
use token_acl::instruction::{
    create_config, delete_config, forfeit_freeze_authority, freeze, freeze_permissionless, set_authority,
    set_gating_program, thaw, thaw_permissionless, toggle_permissionless_instructions, EbaltsInstruction,
};
use token_acl::pubkey::Pubkey;

fn key(byte: u8) -> Pubkey {
    Pubkey([byte; 32])
}

fn writable(byte: u8, is_signer: bool) -> AccountMeta {
    AccountMeta { pubkey: key(byte), is_signer, is_writable: true }
}

fn readonly(byte: u8, is_signer: bool) -> AccountMeta {
    AccountMeta { pubkey: key(byte), is_signer, is_writable: false }
}

fn with_key(selector: u8, byte: u8) -> Vec<u8> {
    let mut data = vec![selector];
    data.extend_from_slice(&[byte; 32]);
    data
}

#[test]
fn each_instruction_packs_to_selector_and_payload() {
    assert_eq!(EbaltsInstruction::CreateConfig { gating_program: key(9) }.pack(), with_key(0, 9));
    assert_eq!(EbaltsInstruction::SetAuthority { new_authority: key(8) }.pack(), with_key(1, 8));
    assert_eq!(EbaltsInstruction::SetGatingProgram { new_gating_program: key(7) }.pack(), with_key(2, 7));
    assert_eq!(EbaltsInstruction::ForfeitFreezeAuthority { new_freeze_authority: key(6) }.pack(), with_key(3, 6));
    assert_eq!(EbaltsInstruction::Thaw.pack(), vec![4]);
    assert_eq!(EbaltsInstruction::Freeze.pack(), vec![5]);
    assert_eq!(EbaltsInstruction::ThawPermissionless.pack(), vec![6]);
    assert_eq!(EbaltsInstruction::FreezePermissionless.pack(), vec![7]);
    assert_eq!(
        EbaltsInstruction::TogglePermissionlessInstructions { freeze_enabled: true, thaw_enabled: false }.pack(),
        vec![8, 1, 0]
    );
    assert_eq!(
        EbaltsInstruction::TogglePermissionlessInstructions { freeze_enabled: false, thaw_enabled: true }.pack(),
        vec![8, 0, 1]
    );
    assert_eq!(EbaltsInstruction::ThawPermissionlessIdempotent.pack(), vec![9]);
    assert_eq!(EbaltsInstruction::FreezePermissionlessIdempotent.pack(), vec![10]);
    assert_eq!(EbaltsInstruction::DeleteConfig.pack(), vec![11]);
}

#[test]
fn unpack_is_the_inverse_of_pack() {
    let all = [
        EbaltsInstruction::CreateConfig { gating_program: key(9) },
        EbaltsInstruction::SetAuthority { new_authority: key(8) },
        EbaltsInstruction::SetGatingProgram { new_gating_program: key(7) },
        EbaltsInstruction::ForfeitFreezeAuthority { new_freeze_authority: key(6) },
        EbaltsInstruction::Thaw,
        EbaltsInstruction::Freeze,
        EbaltsInstruction::ThawPermissionless,
        EbaltsInstruction::FreezePermissionless,
        EbaltsInstruction::TogglePermissionlessInstructions { freeze_enabled: true, thaw_enabled: true },
        EbaltsInstruction::TogglePermissionlessInstructions { freeze_enabled: false, thaw_enabled: false },
        EbaltsInstruction::ThawPermissionlessIdempotent,
        EbaltsInstruction::FreezePermissionlessIdempotent,
        EbaltsInstruction::DeleteConfig,
    ];
    for instruction in all {
        assert_eq!(instruction.discriminator(), instruction.pack()[0]);
        assert_eq!(EbaltsInstruction::unpack(&instruction.pack()), Some(instruction));
    }
}

#[test]
fn unpack_refuses_wrong_selectors_and_payloads() {
    assert_eq!(EbaltsInstruction::unpack(&[]), None);
    assert_eq!(EbaltsInstruction::unpack(&[12]), None);
    assert_eq!(EbaltsInstruction::unpack(&[255]), None);
    assert_eq!(EbaltsInstruction::unpack(&[0]), None);
    assert_eq!(EbaltsInstruction::unpack(&[1, 2, 3]), None);
    assert_eq!(EbaltsInstruction::unpack(&[4, 0]), None);
    assert_eq!(EbaltsInstruction::unpack(&[8, 1]), None);
    assert_eq!(EbaltsInstruction::unpack(&[8, 1, 0, 0]), None);
    assert_eq!(
        EbaltsInstruction::unpack(&[8, 2, 0]),
        Some(EbaltsInstruction::TogglePermissionlessInstructions { freeze_enabled: true, thaw_enabled: false })
    );
}

#[test]
fn create_config_lists_six_accounts() {
    let ix = create_config(&key(1), &key(2), &key(3), &key(4), &key(5), &key(6), &key(7));
    assert_eq!(ix.program_id, key(1));
    assert_eq!(
        ix.accounts,
        vec![
            writable(2, false),
            readonly(3, true),
            writable(4, false),
            writable(6, false),
            readonly(0, false),
            readonly(7, false),
        ]
    );
    assert_eq!(ix.data, with_key(0, 5));
}

#[test]
fn changes_of_the_record_list_authority_and_record() {
    let ix = set_authority(&key(1), &key(2), &key(3), &key(4));
    assert_eq!(ix.accounts, vec![readonly(2, true), writable(4, false)]);
    assert_eq!(ix.data, with_key(1, 3));
    let ix = set_gating_program(&key(1), &key(2), &key(3), &key(4));
    assert_eq!(ix.accounts, vec![readonly(2, true), writable(4, false)]);
    assert_eq!(ix.data, with_key(2, 3));
    let ix = toggle_permissionless_instructions(&key(1), &key(2), &key(4), true, false);
    assert_eq!(ix.accounts, vec![readonly(2, true), writable(4, false)]);
    assert_eq!(ix.data, vec![8, 1, 0]);
}

#[test]
fn forfeit_and_delete_list_their_accounts() {
    let ix = forfeit_freeze_authority(&key(1), &key(2), &key(3), &key(4), &key(5), &key(6));
    assert_eq!(ix.accounts, vec![readonly(2, true), writable(4, false), writable(5, false), readonly(6, false)]);
    assert_eq!(ix.data, with_key(3, 3));
    let ix = delete_config(&key(1), &key(2), &key(3), &key(4), &key(5));
    assert_eq!(ix.accounts, vec![readonly(2, true), writable(3, false), readonly(4, false), writable(5, false)]);
    assert_eq!(ix.data, vec![11]);
}

#[test]
fn privileged_freeze_and_thaw_list_five_accounts() {
    let expected =
        vec![readonly(2, true), readonly(3, false), writable(4, false), readonly(5, false), readonly(6, false)];
    let ix = thaw(&key(1), &key(2), &key(3), &key(4), &key(5), &key(6));
    assert_eq!(ix.accounts, expected);
    assert_eq!(ix.data, vec![4]);
    let ix = freeze(&key(1), &key(2), &key(3), &key(4), &key(5), &key(6));
    assert_eq!(ix.accounts, expected);
    assert_eq!(ix.data, vec![5]);
}

#[test]
fn permissionless_thaw_lists_seven_accounts() {
    let ix = thaw_permissionless(&key(1), &key(2), &key(3), &key(4), &key(5), &key(6), &key(7), &key(8), false);
    assert_eq!(
        ix.accounts,
        vec![
            readonly(2, true),
            readonly(3, false),
            writable(5, false),
            readonly(6, false),
            readonly(4, false),
            readonly(7, false),
            readonly(8, false),
        ]
    );
    assert_eq!(ix.data, vec![6]);
    let ix = thaw_permissionless(&key(1), &key(2), &key(3), &key(4), &key(5), &key(6), &key(7), &key(8), true);
    assert_eq!(ix.data, vec![9]);
}

#[test]
fn permissionless_freeze_lists_nine_accounts() {
    let ix =
        freeze_permissionless(&key(1), &key(2), &key(3), &key(4), &key(5), &key(6), &key(7), &key(8), &key(9), false);
    assert_eq!(
        ix.accounts,
        vec![
            writable(2, true),
            readonly(3, false),
            writable(5, false),
            writable(8, false),
            readonly(6, false),
            readonly(4, false),
            readonly(7, false),
            readonly(0, false),
            readonly(9, false),
        ]
    );
    assert_eq!(ix.data, vec![7]);
    let ix =
        freeze_permissionless(&key(1), &key(2), &key(3), &key(4), &key(5), &key(6), &key(7), &key(8), &key(9), true);
    assert_eq!(ix.data, vec![10]);
}

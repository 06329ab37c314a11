use token_acl::error::{ProgramError, TokenAclError};
use token_acl::pubkey::Pubkey;
use token_acl::state::{load_mint_config, MintConfig, PodBool};

fn key(byte: u8) -> Pubkey {
    Pubkey([byte; 32])
}

#[test]
fn record_layout_is_one_hundred_bytes_at_fixed_offsets() {
    let record = MintConfig {
        discriminator: 1,
        mint: key(2),
        freeze_authority: key(3),
        gating_program: key(4),
        bump: 254,
        enable_permissionless_thaw: PodBool(1),
        enable_permissionless_freeze: PodBool(0),
    };
    let bytes = record.pack();
    assert_eq!(bytes.len(), 100);
    assert_eq!(bytes[0], 1);
    assert_eq!(&bytes[1..33], &[2u8; 32]);
    assert_eq!(&bytes[33..65], &[3u8; 32]);
    assert_eq!(&bytes[65..97], &[4u8; 32]);
    assert_eq!(bytes[97], 254);
    assert_eq!(bytes[98], 1);
    assert_eq!(bytes[99], 0);
    assert_eq!(load_mint_config(&bytes), Ok(record));
}

#[test]
fn record_without_discriminator_is_refused() {
    let mut bytes = MintConfig::new(key(1), key(2), key(3), 7).pack();
    bytes[0] = 0;
    assert_eq!(
        load_mint_config(&bytes),
        Err(ProgramError::Custom(TokenAclError::InvalidMintConfig.code()))
    );
    assert_eq!(load_mint_config(&[1u8; 99]), Err(ProgramError::Custom(4)));
    assert_eq!(load_mint_config(&[1u8; 101]), Err(ProgramError::Custom(4)));
    assert_eq!(load_mint_config(&[]), Err(ProgramError::Custom(4)));
}

#[test]
fn stored_record_is_loaded_for_a_change() {
    let record = MintConfig::new(key(1), key(2), key(3), 7);
    let mut data = vec![9u8; 3];
    record.store(&mut data);
    assert_eq!(data, record.pack());
    assert_eq!(token_acl::state::load_mint_config_mut(&data), Ok(record));
    let mut changed = record;
    changed.gating_program = key(4);
    changed.store(&mut data);
    assert_eq!(load_mint_config(&data), Ok(changed));
    data[0] = 2;
    assert_eq!(token_acl::state::load_mint_config_mut(&data), Err(ProgramError::Custom(4)));
}

#[test]
fn flags_are_on_for_every_byte_but_zero() {
    let mut data = MintConfig::new(key(1), key(2), key(3), 7).pack();
    data[98] = 255;
    data[99] = 2;
    let record = load_mint_config(&data).unwrap();
    assert!(record.is_permissionless_thaw_enabled());
    assert!(record.is_permissionless_freeze_enabled());
    assert_eq!(record.enable_permissionless_thaw, PodBool(255));
    assert_eq!(record.pack(), data);
    data[98] = 0;
    assert!(!load_mint_config(&data).unwrap().is_permissionless_thaw_enabled());
}

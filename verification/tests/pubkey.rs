use token_acl::program::{find_flag_account_address, find_mint_config_address, id, ID};
use token_acl::pubkey::Pubkey;

fn key(byte: u8) -> Pubkey {
    Pubkey([byte; 32])
}

fn outside(key: &Pubkey) -> solana_pubkey::Pubkey {
    solana_pubkey::Pubkey::new_from_array(key.0)
}

#[test]
fn equal_bytes_are_equal_addresses() {
    assert_eq!(key(7), Pubkey::new_from_array([7u8; 32]));
    assert_ne!(key(7), key(8));
    let mut other = [7u8; 32];
    other[31] = 6;
    assert_ne!(key(7), Pubkey(other));
    assert_eq!(key(9).to_bytes(), [9u8; 32]);
    assert_eq!(key(9).to_vec(), vec![9u8; 32]);
}

#[test]
fn default_address_is_all_zeros() {
    assert_eq!(Pubkey::default(), Pubkey([0u8; 32]));
    assert!(Pubkey::default().is_default());
    assert!(!key(1).is_default());
}

#[test]
fn address_from_slice_needs_exactly_32_bytes() {
    assert_eq!(Pubkey::try_from_slice(&[5u8; 32]), Some(key(5)));
    assert_eq!(Pubkey::try_from_slice(&[5u8; 31]), None);
    assert_eq!(Pubkey::try_from_slice(&[5u8; 33]), None);
    assert_eq!(Pubkey::try_from_slice(&[]), None);
}

#[test]
fn derived_address_is_that_of_the_address_library() {
    let program = key(42);
    let seeds = vec![b"vault".to_vec(), vec![1, 2, 3]];
    let (expected, bump) =
        solana_pubkey::Pubkey::find_program_address(&[b"vault", &[1, 2, 3]], &outside(&program));
    let found = Pubkey::find_program_address(&seeds, &program);
    assert_eq!(found, Some((Pubkey(expected.to_bytes()), bump)));
    assert_ne!(found.unwrap().0, program);
}

#[test]
fn no_address_for_sixteen_seeds_or_a_long_seed() {
    let program = key(42);
    let many: Vec<Vec<u8>> = (0..16u8).map(|i| vec![i]).collect();
    assert_eq!(Pubkey::find_program_address(&many, &program), None);
    let fifteen: Vec<Vec<u8>> = (0..15u8).map(|i| vec![i]).collect();
    assert!(Pubkey::find_program_address(&fifteen, &program).is_some());
    let long = vec![vec![0u8; 33]];
    assert_eq!(Pubkey::find_program_address(&long, &program), None);
    let longest = vec![vec![0u8; 32]];
    assert!(Pubkey::find_program_address(&longest, &program).is_some());
}

#[test]
fn program_address_is_its_base58_name() {
    let expected: solana_pubkey::Pubkey = "TACLkU6CiCdkQN2MjoyDkVg2yAH9zkxiHDsiztQ52TP".parse().unwrap();
    assert_eq!(ID, expected.to_bytes());
    assert_eq!(id(), Pubkey(expected.to_bytes()));
}

#[test]
fn record_address_is_derived_from_prefix_and_mint() {
    let mint = key(11);
    let (expected, bump) =
        solana_pubkey::Pubkey::find_program_address(&[b"MINT_CONFIG", &[11u8; 32]], &outside(&id()));
    assert_eq!(find_mint_config_address(&mint), Some((Pubkey(expected.to_bytes()), bump)));
}

#[test]
fn flag_address_is_derived_from_prefix_and_token_account() {
    let token_account = key(12);
    let (expected, bump) =
        solana_pubkey::Pubkey::find_program_address(&[b"FLAG_ACCOUNT", &[12u8; 32]], &outside(&id()));
    assert_eq!(find_flag_account_address(&token_account), Some((Pubkey(expected.to_bytes()), bump)));
}

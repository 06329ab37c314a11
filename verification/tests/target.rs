use token_acl::native::token_program_id;
use token_acl::pubkey::Pubkey;
use token_acl::target::{fetched, find_associated_token_address, select, Target, ASSOCIATED_TOKEN_PROGRAM_ID};

fn key(byte: u8) -> Pubkey {
    Pubkey([byte; 32])
}

#[test]
fn a_token_account_alone_or_a_mint_with_an_owner_name_a_target() {
    assert_eq!(select(None, Some(key(1)), None), Some(Target::TokenAccount { token_account: key(1) }));
    assert_eq!(select(Some(key(2)), None, Some(key(3))), Some(Target::Wallet { mint: key(2), owner: key(3) }));
    assert_eq!(select(None, None, None), None);
    assert_eq!(select(Some(key(2)), None, None), None);
    assert_eq!(select(None, None, Some(key(3))), None);
    assert_eq!(select(Some(key(2)), Some(key(1)), None), None);
    assert_eq!(select(None, Some(key(1)), Some(key(3))), None);
    assert_eq!(select(Some(key(2)), Some(key(1)), Some(key(3))), None);
}

#[test]
fn associated_token_address_is_that_of_the_client_library() {
    let program: solana_pubkey::Pubkey = "ATokenGPvbdGVxr1b2hvZbsiqW5xWH25efTNsLJA8knL".parse().unwrap();
    assert_eq!(ASSOCIATED_TOKEN_PROGRAM_ID, program.to_bytes());
    let expected = spl_associated_token_account_client::address::get_associated_token_address_with_program_id(
        &[7u8; 32].into(),
        &[8u8; 32].into(),
        &token_program_id().0.into(),
    );
    assert_eq!(find_associated_token_address(&key(7), &key(8)), Some(Pubkey(expected.to_bytes())));
}

#[test]
fn a_new_token_account_is_fetched_from_what_it_will_hold() {
    assert_eq!(fetched(&key(1), Some((key(1), vec![9])), Some(vec![1])), Some(vec![9]));
    assert_eq!(fetched(&key(1), Some((key(1), vec![9])), None), Some(vec![9]));
    assert_eq!(fetched(&key(2), Some((key(1), vec![9])), Some(vec![1])), Some(vec![1]));
    assert_eq!(fetched(&key(2), Some((key(1), vec![9])), None), None);
    assert_eq!(fetched(&key(1), None, Some(vec![1])), Some(vec![1]));
    assert_eq!(fetched(&key(1), None, None), None);
}

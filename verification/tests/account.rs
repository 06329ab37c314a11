use token_acl::account::{AccountInfo, AccountMeta, Instruction};
use token_acl::permissionless::copy_accounts;
use token_acl::plan::{copy_seeds, Step};
use token_acl::program::collect_signer_seeds;
use token_acl::pubkey::Pubkey;

fn key(byte: u8) -> Pubkey {
    Pubkey([byte; 32])
}

fn account(byte: u8, lamports: u64, data: Vec<u8>) -> AccountInfo {
    AccountInfo { key: key(byte), is_signer: false, is_writable: true, lamports, data, owner: key(0) }
}

#[test]
fn metas_are_writable_or_read_only() {
    assert_eq!(AccountMeta::new(key(1), true), AccountMeta { pubkey: key(1), is_signer: true, is_writable: true });
    assert_eq!(
        AccountMeta::new_readonly(key(1), false),
        AccountMeta { pubkey: key(1), is_signer: false, is_writable: false }
    );
}

#[test]
fn instruction_knows_its_accounts() {
    let instruction = Instruction {
        program_id: key(9),
        accounts: vec![AccountMeta::new(key(1), true), AccountMeta::new_readonly(key(2), false)],
        data: vec![1, 2, 3],
    };
    assert!(instruction.has_account(&key(1)));
    assert!(instruction.has_account(&key(2)));
    assert!(!instruction.has_account(&key(3)));
    assert!(!instruction.has_account(&key(9)));
    assert_eq!(instruction.duplicate(), instruction);
    let empty = Instruction { program_id: key(9), accounts: vec![], data: vec![] };
    assert!(!empty.has_account(&key(1)));
    assert_eq!(empty.duplicate(), empty);
}

#[test]
fn account_without_balance_and_data_is_vacant() {
    assert!(account(1, 0, vec![]).is_vacant());
    assert!(!account(1, 1, vec![]).is_vacant());
    assert!(!account(1, 0, vec![0]).is_vacant());
    let full = account(1, 5, vec![1, 2]);
    assert_eq!(full.duplicate(), full);
}

#[test]
fn accounts_are_copied_from_a_position_on() {
    let accounts = vec![account(1, 1, vec![1]), account(2, 2, vec![2]), account(3, 3, vec![3])];
    assert_eq!(copy_accounts(&accounts, 0), accounts);
    assert_eq!(copy_accounts(&accounts, 2), accounts[2..].to_vec());
    assert_eq!(copy_accounts(&accounts, 3), vec![]);
}

#[test]
fn signer_seeds_end_with_the_bump_seed() {
    assert_eq!(collect_signer_seeds(b"abc", &key(7), 250), vec![b"abc".to_vec(), vec![7u8; 32], vec![250]]);
    let seeds = vec![vec![1, 2], vec![], vec![3]];
    assert_eq!(copy_seeds(&seeds), seeds);
}

#[test]
fn steps_are_copied_whole() {
    let steps = vec![
        Step::Invoke {
            instruction: Instruction { program_id: key(9), accounts: vec![AccountMeta::new(key(1), true)], data: vec![4] },
            signer_seeds: vec![vec![1], vec![2, 3]],
        },
        Step::Write { account: key(1), data: vec![5, 6] },
        Step::Arm { flag_account: key(2) },
        Step::Disarm { flag_account: key(2) },
        Step::Close { account: key(3), receiver: key(4), lamports: 77 },
    ];
    for step in &steps {
        assert_eq!(step.duplicate(), *step);
    }
}

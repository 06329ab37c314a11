//! Accounts as an instruction sees them, and calls from one program into
//! another.

use crate::pubkey::Pubkey;
use vstd::prelude::*;

verus! {

/// One account of a call: its address and what the callee may do with it.
#[derive(Clone, Copy, Debug, PartialEq, Eq)]
pub struct AccountMeta {
    pub pubkey: Pubkey,
    pub is_signer: bool,
    pub is_writable: bool,
}

impl AccountMeta {
    /// A writable account.
    pub fn new(pubkey: Pubkey, is_signer: bool) -> (r: AccountMeta)
        ensures
            r == (AccountMeta { pubkey, is_signer, is_writable: true }),
    {
        AccountMeta { pubkey, is_signer, is_writable: true }
    }

    /// An account that is only read.
    pub fn new_readonly(pubkey: Pubkey, is_signer: bool) -> (r: AccountMeta)
        ensures
            r == (AccountMeta { pubkey, is_signer, is_writable: false }),
    {
        AccountMeta { pubkey, is_signer, is_writable: false }
    }

    /// A writable account, in contracts.
    pub open spec fn writable(pubkey: Pubkey, is_signer: bool) -> AccountMeta {
        AccountMeta { pubkey, is_signer, is_writable: true }
    }

    /// An account that is only read, in contracts.
    pub open spec fn readonly(pubkey: Pubkey, is_signer: bool) -> AccountMeta {
        AccountMeta { pubkey, is_signer, is_writable: false }
    }
}

/// A call of a program: the program, its accounts in order, and its data.
#[derive(Clone, Debug, PartialEq, Eq)]
pub struct Instruction {
    pub program_id: Pubkey,
    pub accounts: Vec<AccountMeta>,
    pub data: Vec<u8>,
}

/// What an `Instruction` holds.
pub struct InstructionView {
    pub program_id: Pubkey,
    pub accounts: Seq<AccountMeta>,
    pub data: Seq<u8>,
}

impl View for Instruction {
    type V = InstructionView;

    open spec fn view(&self) -> InstructionView {
        InstructionView { program_id: self.program_id, accounts: self.accounts@, data: self.data@ }
    }
}

impl Instruction {
    /// Whether one of the instruction's accounts has the address `key`.
    pub fn has_account(&self, key: &Pubkey) -> (r: bool)
        ensures
            r == has_key(self@.accounts, *key),
    {
        let mut i: usize = 0;
        while i < self.accounts.len()
            invariant
                i <= self.accounts.len(),
                forall|j: int| 0 <= j < i ==> self.accounts@[j].pubkey != *key,
            decreases self.accounts.len() - i,
        {
            if self.accounts[i].pubkey == *key {
                return true;
            }
            i += 1;
        }
        false
    }

    /// A copy of the instruction.
    pub fn duplicate(&self) -> (r: Instruction)
        ensures
            r@ == self@,
    {
        let mut accounts: Vec<AccountMeta> = Vec::new();
        let mut i: usize = 0;
        while i < self.accounts.len()
            invariant
                i <= self.accounts.len(),
                accounts@ == self.accounts@.subrange(0, i as int),
            decreases self.accounts.len() - i,
        {
            accounts.push(self.accounts[i]);
            assert(accounts@ =~= self.accounts@.subrange(0, i + 1));
            i += 1;
        }
        assert(accounts@ =~= self.accounts@);
        let data = vstd::slice::slice_to_vec(self.data.as_slice());
        Instruction { program_id: self.program_id, accounts, data }
    }
}

/// Whether one of `accounts` has the address `key`.
pub open spec fn has_key(accounts: Seq<AccountMeta>, key: Pubkey) -> bool {
    exists|i: int| 0 <= i < accounts.len() && #[trigger] accounts[i].pubkey == key
}

/// An account as the host hands it to an instruction.
#[derive(Clone, Debug, PartialEq, Eq)]
pub struct AccountInfo {
    /// The account's address.
    pub key: Pubkey,
    /// Whether the account's owner signed the transaction.
    pub is_signer: bool,
    /// Whether the instruction may change the account.
    pub is_writable: bool,
    /// The account's balance.
    pub lamports: u64,
    /// What the account stores.
    pub data: Vec<u8>,
    /// The program that owns the account.
    pub owner: Pubkey,
}

/// What an `AccountInfo` holds.
pub struct AccountInfoView {
    pub key: Pubkey,
    pub is_signer: bool,
    pub is_writable: bool,
    pub lamports: u64,
    pub data: Seq<u8>,
    pub owner: Pubkey,
}

impl View for AccountInfo {
    type V = AccountInfoView;

    open spec fn view(&self) -> AccountInfoView {
        AccountInfoView {
            key: self.key,
            is_signer: self.is_signer,
            is_writable: self.is_writable,
            lamports: self.lamports,
            data: self.data@,
            owner: self.owner,
        }
    }
}

impl AccountInfo {
    /// A copy of the account.
    pub fn duplicate(&self) -> (r: AccountInfo)
        ensures
            r@ == self@,
    {
        AccountInfo {
            key: self.key,
            is_signer: self.is_signer,
            is_writable: self.is_writable,
            lamports: self.lamports,
            data: vstd::slice::slice_to_vec(self.data.as_slice()),
            owner: self.owner,
        }
    }

    /// Whether the account does not exist on the ledger yet: it holds no
    /// balance and no data.
    pub open spec fn spec_is_vacant(self) -> bool {
        self.lamports == 0 && self.data@.len() == 0
    }

    /// Whether the account does not exist on the ledger yet.
    pub fn is_vacant(&self) -> (r: bool)
        ensures
            r == self.spec_is_vacant(),
    {
        self.lamports == 0 && self.data.len() == 0
    }
}

/// The addresses of a list of accounts.
pub open spec fn account_keys(accounts: Seq<AccountInfo>) -> Seq<Pubkey> {
    Seq::new(accounts.len(), |i: int| accounts[i].key)
}

/// The views of a list of accounts.
pub open spec fn account_views(accounts: Seq<AccountInfo>) -> Seq<AccountInfoView> {
    Seq::new(accounts.len(), |i: int| accounts[i]@)
}

} // verus!

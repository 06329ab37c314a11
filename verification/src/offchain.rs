//! Building a permissionless instruction off the ledger.
//!
//! A client that wants to send a permissionless freeze or thaw has to give
//! it the accounts that the mint's gating program asks for. Which they are
//! is written on the ledger. The client fetches; this module says what to
//! fetch next and what becomes of each answer. One account is asked for at a
//! time, and nothing that was fetched is kept for a later question.

use crate::account::{has_key, AccountMeta, Instruction, InstructionView};
use crate::error::{ProgramError, ThawFreezeGateError, TokenAclError};
use crate::gate::{gate_call, spec_gate_call, EfficientBlockAllowInstruction};
use crate::instruction::{
    freeze_permissionless, freeze_permissionless_accounts, freeze_permissionless_kind, thaw_permissionless,
    thaw_permissionless_accounts, thaw_permissionless_kind,
};
use crate::permissionless::{not_enabled, resolver, spec_enabled, spec_question, spec_resolver};
use crate::privileged::Operation;
use crate::program::{find_flag_account_address, spec_flag_account_address};
use crate::pubkey::Pubkey;
use crate::resolution::{read_only, spec_translate, translate, ACCOUNT_FETCH_FAILED};
use crate::state::{load_mint_config, spec_load_mint_config, MintConfig};
use vstd::prelude::*;

verus! {

/// Which answer is awaited.
#[derive(Clone, Copy, Debug, PartialEq, Eq, Structural)]
pub enum Stage {
    /// The data of the mint's record.
    AwaitingConfig,
    /// The data of the gating program's list.
    AwaitingList,
    /// The accounts that the list resolves to.
    AwaitingAccounts,
    /// Nothing: the instruction is built, or has failed.
    Finished,
}

/// What is known of the instruction that is being built.
#[derive(Clone, Copy, Debug, PartialEq, Eq)]
pub struct Query {
    pub operation: Operation,
    /// The program that the instruction is for.
    pub program_id: Pubkey,
    /// The gating program, once known.
    pub gating_program: Pubkey,
    pub signer: Pubkey,
    pub token_account: Pubkey,
    pub mint: Pubkey,
    pub token_account_owner: Pubkey,
    pub mint_config: Pubkey,
    pub token_program: Pubkey,
    /// The address of the gating program's list, once known.
    pub extra_metas: Pubkey,
    pub idempotent: bool,
    /// Whether the instruction is only built where the record has the
    /// operation enabled.
    pub check_enabled: bool,
    /// Whether the instruction is built from the record, or was handed in.
    pub build: bool,
}

/// What the client is asked to do next.
#[derive(Clone, Debug, PartialEq, Eq)]
pub enum Request {
    /// Fetch what this account stores.
    Fetch(Pubkey),
    /// Have the account-resolution library add to `instruction` the accounts
    /// that the list `validation_data` asks for.
    Resolve { instruction: Instruction, validation_data: Vec<u8> },
    /// Nothing: this is the instruction.
    Done(Instruction),
    /// Nothing: the instruction cannot be built.
    Failed(ThawFreezeGateError),
}

/// What a `Request` holds.
pub enum RequestView {
    Fetch(Pubkey),
    Resolve { instruction: InstructionView, validation_data: Seq<u8> },
    Done(InstructionView),
    Failed(ThawFreezeGateError),
}

impl View for Request {
    type V = RequestView;

    open spec fn view(&self) -> RequestView {
        match *self {
            Request::Fetch(key) => RequestView::Fetch(key),
            Request::Resolve { instruction, validation_data } => RequestView::Resolve {
                instruction: instruction@,
                validation_data: validation_data@,
            },
            Request::Done(instruction) => RequestView::Done(instruction@),
            Request::Failed(error) => RequestView::Failed(error),
        }
    }
}

/// What the client found.
#[derive(Debug, PartialEq, Eq)]
pub enum Answer {
    /// What the account stores, or `None` for an account that does not
    /// exist.
    Fetched(Option<Vec<u8>>),
    /// The account could not be fetched.
    FetchFailed,
    /// The accounts that the account-resolution library added, or its error.
    Resolved(Result<Vec<AccountMeta>, ProgramError>),
}

/// What an `Answer` holds.
pub enum AnswerView {
    Fetched(Option<Seq<u8>>),
    FetchFailed,
    Resolved(Result<Seq<AccountMeta>, ProgramError>),
}

impl View for Answer {
    type V = AnswerView;

    open spec fn view(&self) -> AnswerView {
        match *self {
            Answer::Fetched(data) => AnswerView::Fetched(
                match data {
                    Some(bytes) => Some(bytes@),
                    None => None,
                },
            ),
            Answer::FetchFailed => AnswerView::FetchFailed,
            Answer::Resolved(resolved) => AnswerView::Resolved(
                match resolved {
                    Ok(metas) => Ok(metas@),
                    Err(error) => Err(error),
                },
            ),
        }
    }
}

/// One turn: where the building stands after an answer, and what is asked
/// next.
pub struct Turn {
    pub stage: Stage,
    pub query: Query,
    pub instruction: InstructionView,
    pub request: RequestView,
}

/// The turn that ends the building without an instruction.
pub open spec fn failed(query: Query, instruction: InstructionView, error: ThawFreezeGateError) -> Turn {
    Turn { stage: Stage::Finished, query, instruction, request: RequestView::Failed(error) }
}

/// The permissionless instruction for `query`, without the accounts that the
/// gating program asks for. A freeze needs the address of the token
/// account's flag account; `None` where the seeds derive none.
pub open spec fn spec_build(query: Query, gating_program: Pubkey) -> Option<InstructionView> {
    match query.operation {
        Operation::Thaw => Some(
            InstructionView {
                program_id: query.program_id,
                accounts: thaw_permissionless_accounts(
                    query.signer,
                    query.mint,
                    query.mint_config,
                    query.token_account,
                    query.token_account_owner,
                    query.token_program,
                    gating_program,
                ),
                data: thaw_permissionless_kind(query.idempotent).spec_pack(),
            },
        ),
        Operation::Freeze => match spec_flag_account_address(query.token_account) {
            None => None,
            Some(found) => Some(
                InstructionView {
                    program_id: query.program_id,
                    accounts: freeze_permissionless_accounts(
                        query.signer,
                        query.mint,
                        query.mint_config,
                        query.token_account,
                        query.token_account_owner,
                        query.token_program,
                        found.0,
                        gating_program,
                    ),
                    data: freeze_permissionless_kind(query.idempotent).spec_pack(),
                },
            ),
        },
    }
}

/// The error for fetched data that is no record. A building that asks for
/// the operation to be enabled makes no difference between such data and a
/// record that does not exist: both are invalid account data. Every other
/// building refuses the data as the program refuses it.
pub open spec fn spec_unreadable(query: Query, error: ProgramError) -> ProgramError {
    if query.check_enabled {
        ProgramError::InvalidAccountData
    } else {
        error
    }
}

/// The turn after the mint's record was fetched.
///
/// A record that does not exist is invalid account data, and data that is no
/// record ends the building with `spec_unreadable`. Where the query says so,
/// the operation must be enabled in the record. Where the record names no
/// gating program, the instruction is done as it stands. Else the gating
/// program's list is fetched next.
pub open spec fn spec_after_config(query: Query, instruction: InstructionView, data: Option<Seq<u8>>) -> Turn {
    match data {
        None => failed(query, instruction, ThawFreezeGateError::ProgramError(ProgramError::InvalidAccountData)),
        Some(bytes) => match spec_load_mint_config(bytes) {
            Err(error) => failed(
                query,
                instruction,
                ThawFreezeGateError::ProgramError(spec_unreadable(query, error)),
            ),
            Ok(record) => if query.check_enabled && !spec_enabled(query.operation, record) {
                failed(query, instruction, ThawFreezeGateError::ProgramError(not_enabled(query.operation)))
            } else {
                let built = if query.build {
                    spec_build(query, record.gating_program)
                } else {
                    Some(instruction)
                };
                match built {
                    None => failed(query, instruction, ThawFreezeGateError::ProgramError(ProgramError::InvalidSeeds)),
                    Some(next) => if record.gating_program == Pubkey::spec_default() {
                        Turn { stage: Stage::Finished, query, instruction: next, request: RequestView::Done(next) }
                    } else {
                        match spec_resolver(query.operation, query.mint, record.gating_program) {
                            None => failed(
                                query,
                                next,
                                ThawFreezeGateError::ProgramError(ProgramError::InvalidSeeds),
                            ),
                            Some(address) => Turn {
                                stage: Stage::AwaitingList,
                                query: Query { gating_program: record.gating_program, extra_metas: address, ..query },
                                instruction: next,
                                request: RequestView::Fetch(address),
                            },
                        }
                    },
                }
            },
        },
    }
}

/// Whether the instruction holds the four accounts that every gating
/// program is called with.
pub open spec fn has_minimum_accounts(query: Query, instruction: InstructionView) -> bool {
    &&& has_key(instruction.accounts, query.signer)
    &&& has_key(instruction.accounts, query.token_account)
    &&& has_key(instruction.accounts, query.mint)
    &&& has_key(instruction.accounts, query.token_account_owner)
}

/// The call that is handed to the account-resolution library: the call to
/// the gating program with its four accounts and the account of the list.
pub open spec fn spec_resolution_call(query: Query) -> InstructionView {
    let base = spec_gate_call(
        spec_question(query.operation),
        query.gating_program,
        query.signer,
        query.token_account,
        query.mint,
        query.token_account_owner,
    );
    InstructionView { accounts: base.accounts + seq![AccountMeta::readonly(query.extra_metas, false)], ..base }
}

/// The turn after the gating program's list was fetched.
///
/// A list that does not exist is invalid account data. The instruction must
/// hold the four accounts that every gating program is called with; it is
/// added to, never completed. The list then goes to the account-resolution
/// library.
pub open spec fn spec_after_list(query: Query, instruction: InstructionView, data: Option<Seq<u8>>) -> Turn {
    match data {
        None => failed(query, instruction, ThawFreezeGateError::ProgramError(ProgramError::InvalidAccountData)),
        Some(bytes) => if !has_minimum_accounts(query, instruction) {
            failed(query, instruction, ThawFreezeGateError::IncorrectAccount)
        } else {
            Turn {
                stage: Stage::AwaitingAccounts,
                query,
                instruction,
                request: RequestView::Resolve { instruction: spec_resolution_call(query), validation_data: bytes },
            }
        },
    }
}

/// The turn after the list was resolved.
///
/// An error ends the building, translated. Else the instruction takes the
/// resolved accounts in their order, all read-only, and after them the
/// gating program and the account of the list.
pub open spec fn spec_after_resolution(
    query: Query,
    instruction: InstructionView,
    resolved: Result<Seq<AccountMeta>, ProgramError>,
) -> Turn {
    match resolved {
        Err(error) => failed(query, instruction, spec_translate(error)),
        Ok(metas) => {
            let next = InstructionView {
                accounts: instruction.accounts + read_only(metas) + seq![
                    AccountMeta::readonly(query.gating_program, false),
                    AccountMeta::readonly(query.extra_metas, false),
                ],
                ..instruction
            };
            Turn { stage: Stage::Finished, query, instruction: next, request: RequestView::Done(next) }
        },
    }
}

/// The turn that an answer leads to.
///
/// A fetch that failed ends the building with the account-resolution
/// library's code for it. An answer that was not asked for, and any answer
/// after the end, ends it with an invalid argument.
pub open spec fn spec_answer(stage: Stage, query: Query, instruction: InstructionView, answer: AnswerView) -> Turn {
    match (stage, answer) {
        (Stage::Finished, _) => failed(
            query,
            instruction,
            ThawFreezeGateError::ProgramError(ProgramError::InvalidArgument),
        ),
        (_, AnswerView::FetchFailed) => failed(
            query,
            instruction,
            ThawFreezeGateError::ResolutionError(ACCOUNT_FETCH_FAILED),
        ),
        (Stage::AwaitingConfig, AnswerView::Fetched(data)) => spec_after_config(query, instruction, data),
        (Stage::AwaitingList, AnswerView::Fetched(data)) => spec_after_list(query, instruction, data),
        (Stage::AwaitingAccounts, AnswerView::Resolved(resolved)) => spec_after_resolution(
            query,
            instruction,
            resolved,
        ),
        _ => failed(query, instruction, ThawFreezeGateError::ProgramError(ProgramError::InvalidArgument)),
    }
}

/// An instruction on its way to the accounts that its gating program asks
/// for.
pub struct ExtraMetas {
    pub stage: Stage,
    pub query: Query,
    pub instruction: Instruction,
}

impl ExtraMetas {
    /// The turn that the state and a request make.
    pub open spec fn turn(&self, request: Request) -> Turn {
        Turn { stage: self.stage, query: self.query, instruction: self.instruction@, request: request@ }
    }

    fn fail(&mut self, error: ThawFreezeGateError) -> (r: Request)
        ensures
            final(self).turn(r) == failed(old(self).query, old(self).instruction@, error),
    {
        self.stage = Stage::Finished;
        Request::Failed(error)
    }

    fn build(&self, gating_program: &Pubkey) -> (r: Option<Instruction>)
        ensures
            match r {
                Some(instruction) => spec_build(self.query, *gating_program) == Some(instruction@),
                None => spec_build(self.query, *gating_program) is None,
            },
    {
        let query = &self.query;
        match query.operation {
            Operation::Thaw => Some(
                thaw_permissionless(
                    &query.program_id,
                    &query.signer,
                    &query.mint,
                    &query.mint_config,
                    &query.token_account,
                    &query.token_account_owner,
                    &query.token_program,
                    gating_program,
                    query.idempotent,
                ),
            ),
            Operation::Freeze => match find_flag_account_address(&query.token_account) {
                None => None,
                Some((flag_account, _)) => Some(
                    freeze_permissionless(
                        &query.program_id,
                        &query.signer,
                        &query.mint,
                        &query.mint_config,
                        &query.token_account,
                        &query.token_account_owner,
                        &query.token_program,
                        &flag_account,
                        gating_program,
                        query.idempotent,
                    ),
                ),
            },
        }
    }

    fn after_config(&mut self, data: Option<Vec<u8>>) -> (r: Request)
        ensures
            final(self).turn(r) == spec_after_config(
                old(self).query,
                old(self).instruction@,
                match data {
                    Some(bytes) => Some(bytes@),
                    None => None,
                },
            ),
    {
        let bytes = match data {
            Some(bytes) => bytes,
            None => {
                return self.fail(ThawFreezeGateError::ProgramError(ProgramError::InvalidAccountData));
            },
        };
        let record = match load_mint_config(bytes.as_slice()) {
            Ok(record) => record,
            Err(error) => {
                let reported = if self.query.check_enabled {
                    ProgramError::InvalidAccountData
                } else {
                    error
                };
                return self.fail(ThawFreezeGateError::ProgramError(reported));
            },
        };
        if self.query.check_enabled {
            let enabled = match self.query.operation {
                Operation::Freeze => record.is_permissionless_freeze_enabled(),
                Operation::Thaw => record.is_permissionless_thaw_enabled(),
            };
            if !enabled {
                let code = match self.query.operation {
                    Operation::Freeze => TokenAclError::PermissionlessFreezeNotEnabled.code(),
                    Operation::Thaw => TokenAclError::PermissionlessThawNotEnabled.code(),
                };
                return self.fail(ThawFreezeGateError::ProgramError(ProgramError::Custom(code)));
            }
        }
        if self.query.build {
            match self.build(&record.gating_program) {
                Some(instruction) => {
                    self.instruction = instruction;
                },
                None => {
                    return self.fail(ThawFreezeGateError::ProgramError(ProgramError::InvalidSeeds));
                },
            }
        }
        if record.gating_program.is_default() {
            self.stage = Stage::Finished;
            return Request::Done(self.instruction.duplicate());
        }
        match resolver(self.query.operation, &self.query.mint, &record.gating_program) {
            None => self.fail(ThawFreezeGateError::ProgramError(ProgramError::InvalidSeeds)),
            Some(address) => {
                self.stage = Stage::AwaitingList;
                self.query.gating_program = record.gating_program;
                self.query.extra_metas = address;
                Request::Fetch(address)
            },
        }
    }

    fn after_list(&mut self, data: Option<Vec<u8>>) -> (r: Request)
        ensures
            final(self).turn(r) == spec_after_list(
                old(self).query,
                old(self).instruction@,
                match data {
                    Some(bytes) => Some(bytes@),
                    None => None,
                },
            ),
    {
        let validation_data = match data {
            Some(bytes) => bytes,
            None => {
                return self.fail(ThawFreezeGateError::ProgramError(ProgramError::InvalidAccountData));
            },
        };
        if !(self.instruction.has_account(&self.query.signer) && self.instruction.has_account(
            &self.query.token_account,
        ) && self.instruction.has_account(&self.query.mint) && self.instruction.has_account(
            &self.query.token_account_owner,
        )) {
            return self.fail(ThawFreezeGateError::IncorrectAccount);
        }
        let question = match self.query.operation {
            Operation::Freeze => EfficientBlockAllowInstruction::CanFreezePermissionless,
            Operation::Thaw => EfficientBlockAllowInstruction::CanThawPermissionless,
        };
        let mut call = gate_call(
            question,
            &self.query.gating_program,
            &self.query.signer,
            &self.query.token_account,
            &self.query.mint,
            &self.query.token_account_owner,
        );
        call.accounts.push(AccountMeta::new_readonly(self.query.extra_metas, false));
        assert(call@.accounts =~= spec_resolution_call(self.query).accounts);
        self.stage = Stage::AwaitingAccounts;
        Request::Resolve { instruction: call, validation_data }
    }

    fn after_resolution(&mut self, resolved: Result<Vec<AccountMeta>, ProgramError>) -> (r: Request)
        ensures
            final(self).turn(r) == spec_after_resolution(
                old(self).query,
                old(self).instruction@,
                match resolved {
                    Ok(metas) => Ok(metas@),
                    Err(error) => Err(error),
                },
            ),
    {
        let metas = match resolved {
            Ok(metas) => metas,
            Err(error) => {
                return self.fail(translate(error));
            },
        };
        let ghost start = self.instruction@.accounts;
        let mut i: usize = 0;
        while i < metas.len()
            invariant
                i <= metas.len(),
                self.stage == old(self).stage,
                self.query == old(self).query,
                self.instruction.program_id == old(self).instruction.program_id,
                self.instruction.data@ == old(self).instruction.data@,
                self.instruction.accounts@ == start + read_only(metas@.subrange(0, i as int)),
            decreases metas.len() - i,
        {
            self.instruction.accounts.push(AccountMeta::new_readonly(metas[i].pubkey, false));
            proof {
                let before = metas@.subrange(0, i as int);
                let after = metas@.subrange(0, i + 1);
                assert(read_only(after) =~= read_only(before).push(
                    AccountMeta::readonly(metas@[i as int].pubkey, false),
                ));
                assert(self.instruction.accounts@ =~= start + read_only(after));
            }
            i += 1;
        }
        assert(metas@.subrange(0, i as int) =~= metas@);
        self.instruction.accounts.push(AccountMeta::new_readonly(self.query.gating_program, false));
        self.instruction.accounts.push(AccountMeta::new_readonly(self.query.extra_metas, false));
        assert(self.instruction.accounts@ =~= start + read_only(metas@) + seq![
            AccountMeta::readonly(self.query.gating_program, false),
            AccountMeta::readonly(self.query.extra_metas, false),
        ]);
        self.stage = Stage::Finished;
        Request::Done(self.instruction.duplicate())
    }

    /// Takes the answer to the last request and says what is asked next.
    pub fn answer(&mut self, answer: Answer) -> (r: Request)
        ensures
            final(self).turn(r) == spec_answer(old(self).stage, old(self).query, old(self).instruction@, answer@),
    {
        match self.stage {
            Stage::Finished => self.fail(ThawFreezeGateError::ProgramError(ProgramError::InvalidArgument)),
            Stage::AwaitingConfig => match answer {
                Answer::Fetched(data) => self.after_config(data),
                Answer::FetchFailed => self.fail(ThawFreezeGateError::ResolutionError(ACCOUNT_FETCH_FAILED)),
                Answer::Resolved(_) => self.fail(ThawFreezeGateError::ProgramError(ProgramError::InvalidArgument)),
            },
            Stage::AwaitingList => match answer {
                Answer::Fetched(data) => self.after_list(data),
                Answer::FetchFailed => self.fail(ThawFreezeGateError::ResolutionError(ACCOUNT_FETCH_FAILED)),
                Answer::Resolved(_) => self.fail(ThawFreezeGateError::ProgramError(ProgramError::InvalidArgument)),
            },
            Stage::AwaitingAccounts => match answer {
                Answer::Resolved(resolved) => self.after_resolution(resolved),
                Answer::FetchFailed => self.fail(ThawFreezeGateError::ResolutionError(ACCOUNT_FETCH_FAILED)),
                Answer::Fetched(_) => self.fail(ThawFreezeGateError::ProgramError(ProgramError::InvalidArgument)),
            },
        }
    }
}

/// The query of an instruction that was handed in and is only added to.
pub open spec fn spec_addition(
    operation: Operation,
    gating_program: Pubkey,
    signer: Pubkey,
    token_account: Pubkey,
    mint: Pubkey,
    token_account_owner: Pubkey,
    mint_config: Pubkey,
    extra_metas: Pubkey,
) -> Query {
    Query {
        operation,
        program_id: Pubkey::spec_default(),
        gating_program,
        signer,
        token_account,
        mint,
        token_account_owner,
        mint_config,
        token_program: Pubkey::spec_default(),
        extra_metas,
        idempotent: false,
        check_enabled: false,
        build: false,
    }
}

/// The query of an instruction that is built from the mint's record.
pub open spec fn spec_creation(
    operation: Operation,
    program_id: Pubkey,
    signer: Pubkey,
    token_account: Pubkey,
    mint: Pubkey,
    mint_config: Pubkey,
    token_program: Pubkey,
    token_account_owner: Pubkey,
    idempotent: bool,
    check_enabled: bool,
) -> Query {
    Query {
        operation,
        program_id,
        gating_program: Pubkey::spec_default(),
        signer,
        token_account,
        mint,
        token_account_owner,
        mint_config,
        token_program,
        extra_metas: Pubkey::spec_default(),
        idempotent,
        check_enabled,
        build: true,
    }
}

/// An instruction without accounts and data, for the program `program_id`.
pub open spec fn spec_blank(program_id: Pubkey) -> InstructionView {
    InstructionView { program_id, accounts: Seq::empty(), data: Seq::empty() }
}

/// Starts on an instruction that is built from the record of its mint. The
/// first request is for the record.
pub fn create_permissionless_instruction(
    operation: Operation,
    program_id: &Pubkey,
    signer_pubkey: &Pubkey,
    token_account_pubkey: &Pubkey,
    mint_pubkey: &Pubkey,
    mint_config_pubkey: &Pubkey,
    token_program_pubkey: &Pubkey,
    token_account_owner_pubkey: &Pubkey,
    idempotent: bool,
    check_enabled: bool,
) -> (r: (ExtraMetas, Request))
    ensures
        r.0.stage == Stage::AwaitingConfig,
        r.0.query == spec_creation(
            operation,
            *program_id,
            *signer_pubkey,
            *token_account_pubkey,
            *mint_pubkey,
            *mint_config_pubkey,
            *token_program_pubkey,
            *token_account_owner_pubkey,
            idempotent,
            check_enabled,
        ),
        r.0.instruction@ == spec_blank(*program_id),
        r.1@ == RequestView::Fetch(*mint_config_pubkey),
{
    let query = Query {
        operation,
        program_id: *program_id,
        gating_program: Pubkey::default(),
        signer: *signer_pubkey,
        token_account: *token_account_pubkey,
        mint: *mint_pubkey,
        token_account_owner: *token_account_owner_pubkey,
        mint_config: *mint_config_pubkey,
        token_program: *token_program_pubkey,
        extra_metas: Pubkey::default(),
        idempotent,
        check_enabled,
        build: true,
    };
    let instruction = Instruction { program_id: *program_id, accounts: Vec::new(), data: Vec::new() };
    (ExtraMetas { stage: Stage::AwaitingConfig, query, instruction }, Request::Fetch(*mint_config_pubkey))
}

/// Starts on a thaw that is built from the record of its mint, whether or
/// not the record has the thaw enabled. It is not idempotent.
pub fn create_thaw_permissionless_instruction_with_extra_metas(
    program_id: &Pubkey,
    signer_pubkey: &Pubkey,
    token_account_pubkey: &Pubkey,
    mint_pubkey: &Pubkey,
    mint_config_pubkey: &Pubkey,
    token_program_pubkey: &Pubkey,
    token_account_owner_pubkey: &Pubkey,
) -> (r: (ExtraMetas, Request))
    ensures
        r.0.stage == Stage::AwaitingConfig,
        r.0.query == spec_creation(
            Operation::Thaw,
            *program_id,
            *signer_pubkey,
            *token_account_pubkey,
            *mint_pubkey,
            *mint_config_pubkey,
            *token_program_pubkey,
            *token_account_owner_pubkey,
            false,
            false,
        ),
        r.0.instruction@ == spec_blank(*program_id),
        r.1@ == RequestView::Fetch(*mint_config_pubkey),
{
    create_permissionless_instruction(
        Operation::Thaw,
        program_id,
        signer_pubkey,
        token_account_pubkey,
        mint_pubkey,
        mint_config_pubkey,
        token_program_pubkey,
        token_account_owner_pubkey,
        false,
        false,
    )
}

/// Starts on a freeze that is built from the record of its mint, whether or
/// not the record has the freeze enabled. It is not idempotent.
pub fn create_freeze_permissionless_instruction_with_extra_metas(
    program_id: &Pubkey,
    signer_pubkey: &Pubkey,
    token_account_pubkey: &Pubkey,
    mint_pubkey: &Pubkey,
    mint_config_pubkey: &Pubkey,
    token_program_pubkey: &Pubkey,
    token_account_owner_pubkey: &Pubkey,
) -> (r: (ExtraMetas, Request))
    ensures
        r.0.stage == Stage::AwaitingConfig,
        r.0.query == spec_creation(
            Operation::Freeze,
            *program_id,
            *signer_pubkey,
            *token_account_pubkey,
            *mint_pubkey,
            *mint_config_pubkey,
            *token_program_pubkey,
            *token_account_owner_pubkey,
            false,
            false,
        ),
        r.0.instruction@ == spec_blank(*program_id),
        r.1@ == RequestView::Fetch(*mint_config_pubkey),
{
    create_permissionless_instruction(
        Operation::Freeze,
        program_id,
        signer_pubkey,
        token_account_pubkey,
        mint_pubkey,
        mint_config_pubkey,
        token_program_pubkey,
        token_account_owner_pubkey,
        false,
        false,
    )
}

/// Starts on an instruction that was handed in and whose gating program the
/// record of its mint names. The first request is for the record.
pub fn add_extra_account_metas(
    operation: Operation,
    instruction: Instruction,
    signer_pubkey: &Pubkey,
    token_account_pubkey: &Pubkey,
    mint_pubkey: &Pubkey,
    token_account_owner_pubkey: &Pubkey,
    mint_config_pubkey: &Pubkey,
) -> (r: (ExtraMetas, Request))
    ensures
        r.0.stage == Stage::AwaitingConfig,
        r.0.query == spec_addition(
            operation,
            Pubkey::spec_default(),
            *signer_pubkey,
            *token_account_pubkey,
            *mint_pubkey,
            *token_account_owner_pubkey,
            *mint_config_pubkey,
            Pubkey::spec_default(),
        ),
        r.0.instruction@ == instruction@,
        r.1@ == RequestView::Fetch(*mint_config_pubkey),
{
    let query = Query {
        operation,
        program_id: Pubkey::default(),
        gating_program: Pubkey::default(),
        signer: *signer_pubkey,
        token_account: *token_account_pubkey,
        mint: *mint_pubkey,
        token_account_owner: *token_account_owner_pubkey,
        mint_config: *mint_config_pubkey,
        token_program: Pubkey::default(),
        extra_metas: Pubkey::default(),
        idempotent: false,
        check_enabled: false,
        build: false,
    };
    (ExtraMetas { stage: Stage::AwaitingConfig, query, instruction }, Request::Fetch(*mint_config_pubkey))
}

/// Starts on a thaw that was handed in: it gets the accounts that the gating
/// program of the mint's record asks for.
pub fn add_extra_account_metas_for_thaw(
    instruction: Instruction,
    signer_pubkey: &Pubkey,
    token_account_pubkey: &Pubkey,
    mint_pubkey: &Pubkey,
    token_account_owner_pubkey: &Pubkey,
    mint_config_pubkey: &Pubkey,
) -> (r: (ExtraMetas, Request))
    ensures
        r.0.stage == Stage::AwaitingConfig,
        r.0.query == spec_addition(
            Operation::Thaw,
            Pubkey::spec_default(),
            *signer_pubkey,
            *token_account_pubkey,
            *mint_pubkey,
            *token_account_owner_pubkey,
            *mint_config_pubkey,
            Pubkey::spec_default(),
        ),
        r.0.instruction@ == instruction@,
        r.1@ == RequestView::Fetch(*mint_config_pubkey),
{
    add_extra_account_metas(
        Operation::Thaw,
        instruction,
        signer_pubkey,
        token_account_pubkey,
        mint_pubkey,
        token_account_owner_pubkey,
        mint_config_pubkey,
    )
}

/// Starts on a freeze that was handed in: it gets the accounts that the
/// gating program of the mint's record asks for.
pub fn add_extra_account_metas_for_freeze(
    instruction: Instruction,
    signer_pubkey: &Pubkey,
    token_account_pubkey: &Pubkey,
    mint_pubkey: &Pubkey,
    token_account_owner_pubkey: &Pubkey,
    mint_config_pubkey: &Pubkey,
) -> (r: (ExtraMetas, Request))
    ensures
        r.0.stage == Stage::AwaitingConfig,
        r.0.query == spec_addition(
            Operation::Freeze,
            Pubkey::spec_default(),
            *signer_pubkey,
            *token_account_pubkey,
            *mint_pubkey,
            *token_account_owner_pubkey,
            *mint_config_pubkey,
            Pubkey::spec_default(),
        ),
        r.0.instruction@ == instruction@,
        r.1@ == RequestView::Fetch(*mint_config_pubkey),
{
    add_extra_account_metas(
        Operation::Freeze,
        instruction,
        signer_pubkey,
        token_account_pubkey,
        mint_pubkey,
        token_account_owner_pubkey,
        mint_config_pubkey,
    )
}

} // verus!

//! Error codes of the program and of the host.

use vstd::prelude::*;

verus! {

/// Number of bits by which the host shifts the number of one of its own
/// errors to make the error's code.
pub const BUILTIN_BIT_SHIFT: u64 = 32;

/// The code of the custom error 0, which cannot be 0 itself: 0 is success.
pub const CUSTOM_ZERO: u64 = 0x1_0000_0000;

/// The code with which the system program refuses to create an account at
/// an address that is in use.
pub const ACCOUNT_ALREADY_IN_USE: u32 = 0;

/// Why an instruction failed: one of the host's own errors, or a code of the
/// program that failed.
#[derive(Clone, Copy, Debug, PartialEq, Eq, Structural)]
pub enum ProgramError {
    Custom(u32),
    InvalidArgument,
    InvalidInstructionData,
    InvalidAccountData,
    AccountDataTooSmall,
    InsufficientFunds,
    IncorrectProgramId,
    MissingRequiredSignature,
    AccountAlreadyInitialized,
    UninitializedAccount,
    NotEnoughAccountKeys,
    AccountBorrowFailed,
    MaxSeedLengthExceeded,
    InvalidSeeds,
    BorshIoError,
    AccountNotRentExempt,
    UnsupportedSysvar,
    IllegalOwner,
    MaxAccountsDataAllocationsExceeded,
    InvalidRealloc,
    MaxInstructionTraceLengthExceeded,
    BuiltinProgramsMustConsumeComputeUnits,
    InvalidAccountOwner,
    ArithmeticOverflow,
    Immutable,
    IncorrectAuthority,
}

/// What an instruction of the program returns.
pub type ProgramResult = Result<(), ProgramError>;

impl ProgramError {
    /// The number of one of the host's own errors; 1 for every custom error.
    pub open spec fn spec_builtin_index(self) -> u64 {
        match self {
            ProgramError::Custom(_) => 1,
            ProgramError::InvalidArgument => 2,
            ProgramError::InvalidInstructionData => 3,
            ProgramError::InvalidAccountData => 4,
            ProgramError::AccountDataTooSmall => 5,
            ProgramError::InsufficientFunds => 6,
            ProgramError::IncorrectProgramId => 7,
            ProgramError::MissingRequiredSignature => 8,
            ProgramError::AccountAlreadyInitialized => 9,
            ProgramError::UninitializedAccount => 10,
            ProgramError::NotEnoughAccountKeys => 11,
            ProgramError::AccountBorrowFailed => 12,
            ProgramError::MaxSeedLengthExceeded => 13,
            ProgramError::InvalidSeeds => 14,
            ProgramError::BorshIoError => 15,
            ProgramError::AccountNotRentExempt => 16,
            ProgramError::UnsupportedSysvar => 17,
            ProgramError::IllegalOwner => 18,
            ProgramError::MaxAccountsDataAllocationsExceeded => 19,
            ProgramError::InvalidRealloc => 20,
            ProgramError::MaxInstructionTraceLengthExceeded => 21,
            ProgramError::BuiltinProgramsMustConsumeComputeUnits => 22,
            ProgramError::InvalidAccountOwner => 23,
            ProgramError::ArithmeticOverflow => 24,
            ProgramError::Immutable => 25,
            ProgramError::IncorrectAuthority => 26,
        }
    }

    /// The code under which the host reports the error: a custom error's own
    /// number, with `CUSTOM_ZERO` for the number 0, and for each of the
    /// host's errors its number times 2^32.
    pub open spec fn spec_code(self) -> u64 {
        match self {
            ProgramError::Custom(code) => if code == 0 {
                CUSTOM_ZERO
            } else {
                code as u64
            },
            _ => (self.spec_builtin_index() * 0x1_0000_0000) as u64,
        }
    }

    /// The error that the host reports under `code`: the inverse of
    /// `spec_code`, and the custom error of the low 32 bits for every other
    /// code.
    pub open spec fn spec_from_code(code: u64) -> ProgramError {
        if code == 1 * 0x1_0000_0000 {
            ProgramError::Custom(0)
        } else if code == 2 * 0x1_0000_0000 {
            ProgramError::InvalidArgument
        } else if code == 3 * 0x1_0000_0000 {
            ProgramError::InvalidInstructionData
        } else if code == 4 * 0x1_0000_0000 {
            ProgramError::InvalidAccountData
        } else if code == 5 * 0x1_0000_0000 {
            ProgramError::AccountDataTooSmall
        } else if code == 6 * 0x1_0000_0000 {
            ProgramError::InsufficientFunds
        } else if code == 7 * 0x1_0000_0000 {
            ProgramError::IncorrectProgramId
        } else if code == 8 * 0x1_0000_0000 {
            ProgramError::MissingRequiredSignature
        } else if code == 9 * 0x1_0000_0000 {
            ProgramError::AccountAlreadyInitialized
        } else if code == 10 * 0x1_0000_0000 {
            ProgramError::UninitializedAccount
        } else if code == 11 * 0x1_0000_0000 {
            ProgramError::NotEnoughAccountKeys
        } else if code == 12 * 0x1_0000_0000 {
            ProgramError::AccountBorrowFailed
        } else if code == 13 * 0x1_0000_0000 {
            ProgramError::MaxSeedLengthExceeded
        } else if code == 14 * 0x1_0000_0000 {
            ProgramError::InvalidSeeds
        } else if code == 15 * 0x1_0000_0000 {
            ProgramError::BorshIoError
        } else if code == 16 * 0x1_0000_0000 {
            ProgramError::AccountNotRentExempt
        } else if code == 17 * 0x1_0000_0000 {
            ProgramError::UnsupportedSysvar
        } else if code == 18 * 0x1_0000_0000 {
            ProgramError::IllegalOwner
        } else if code == 19 * 0x1_0000_0000 {
            ProgramError::MaxAccountsDataAllocationsExceeded
        } else if code == 20 * 0x1_0000_0000 {
            ProgramError::InvalidRealloc
        } else if code == 21 * 0x1_0000_0000 {
            ProgramError::MaxInstructionTraceLengthExceeded
        } else if code == 22 * 0x1_0000_0000 {
            ProgramError::BuiltinProgramsMustConsumeComputeUnits
        } else if code == 23 * 0x1_0000_0000 {
            ProgramError::InvalidAccountOwner
        } else if code == 24 * 0x1_0000_0000 {
            ProgramError::ArithmeticOverflow
        } else if code == 25 * 0x1_0000_0000 {
            ProgramError::Immutable
        } else if code == 26 * 0x1_0000_0000 {
            ProgramError::IncorrectAuthority
        } else {
            ProgramError::Custom((code % 0x1_0000_0000) as u32)
        }
    }

    /// The code under which the host reports the error.
    pub fn code(&self) -> (r: u64)
        ensures
            r == self.spec_code(),
            r != 0,
    {
        match self {
            ProgramError::Custom(code) => if *code == 0 {
                CUSTOM_ZERO
            } else {
                *code as u64
            },
            ProgramError::InvalidArgument => 2 * 0x1_0000_0000,
            ProgramError::InvalidInstructionData => 3 * 0x1_0000_0000,
            ProgramError::InvalidAccountData => 4 * 0x1_0000_0000,
            ProgramError::AccountDataTooSmall => 5 * 0x1_0000_0000,
            ProgramError::InsufficientFunds => 6 * 0x1_0000_0000,
            ProgramError::IncorrectProgramId => 7 * 0x1_0000_0000,
            ProgramError::MissingRequiredSignature => 8 * 0x1_0000_0000,
            ProgramError::AccountAlreadyInitialized => 9 * 0x1_0000_0000,
            ProgramError::UninitializedAccount => 10 * 0x1_0000_0000,
            ProgramError::NotEnoughAccountKeys => 11 * 0x1_0000_0000,
            ProgramError::AccountBorrowFailed => 12 * 0x1_0000_0000,
            ProgramError::MaxSeedLengthExceeded => 13 * 0x1_0000_0000,
            ProgramError::InvalidSeeds => 14 * 0x1_0000_0000,
            ProgramError::BorshIoError => 15 * 0x1_0000_0000,
            ProgramError::AccountNotRentExempt => 16 * 0x1_0000_0000,
            ProgramError::UnsupportedSysvar => 17 * 0x1_0000_0000,
            ProgramError::IllegalOwner => 18 * 0x1_0000_0000,
            ProgramError::MaxAccountsDataAllocationsExceeded => 19 * 0x1_0000_0000,
            ProgramError::InvalidRealloc => 20 * 0x1_0000_0000,
            ProgramError::MaxInstructionTraceLengthExceeded => 21 * 0x1_0000_0000,
            ProgramError::BuiltinProgramsMustConsumeComputeUnits => 22 * 0x1_0000_0000,
            ProgramError::InvalidAccountOwner => 23 * 0x1_0000_0000,
            ProgramError::ArithmeticOverflow => 24 * 0x1_0000_0000,
            ProgramError::Immutable => 25 * 0x1_0000_0000,
            ProgramError::IncorrectAuthority => 26 * 0x1_0000_0000,
        }
    }

    /// The error that the host reports under `code`.
    pub fn from_code(code: u64) -> (r: ProgramError)
        ensures
            r == ProgramError::spec_from_code(code),
    {
        if code % 0x1_0000_0000 != 0 || code / 0x1_0000_0000 == 0 || code / 0x1_0000_0000 > 26 {
            return ProgramError::Custom((code % 0x1_0000_0000) as u32);
        }
        let index: u64 = code / 0x1_0000_0000;
        if index == 1 {
            ProgramError::Custom(0)
        } else if index == 2 {
            ProgramError::InvalidArgument
        } else if index == 3 {
            ProgramError::InvalidInstructionData
        } else if index == 4 {
            ProgramError::InvalidAccountData
        } else if index == 5 {
            ProgramError::AccountDataTooSmall
        } else if index == 6 {
            ProgramError::InsufficientFunds
        } else if index == 7 {
            ProgramError::IncorrectProgramId
        } else if index == 8 {
            ProgramError::MissingRequiredSignature
        } else if index == 9 {
            ProgramError::AccountAlreadyInitialized
        } else if index == 10 {
            ProgramError::UninitializedAccount
        } else if index == 11 {
            ProgramError::NotEnoughAccountKeys
        } else if index == 12 {
            ProgramError::AccountBorrowFailed
        } else if index == 13 {
            ProgramError::MaxSeedLengthExceeded
        } else if index == 14 {
            ProgramError::InvalidSeeds
        } else if index == 15 {
            ProgramError::BorshIoError
        } else if index == 16 {
            ProgramError::AccountNotRentExempt
        } else if index == 17 {
            ProgramError::UnsupportedSysvar
        } else if index == 18 {
            ProgramError::IllegalOwner
        } else if index == 19 {
            ProgramError::MaxAccountsDataAllocationsExceeded
        } else if index == 20 {
            ProgramError::InvalidRealloc
        } else if index == 21 {
            ProgramError::MaxInstructionTraceLengthExceeded
        } else if index == 22 {
            ProgramError::BuiltinProgramsMustConsumeComputeUnits
        } else if index == 23 {
            ProgramError::InvalidAccountOwner
        } else if index == 24 {
            ProgramError::ArithmeticOverflow
        } else if index == 25 {
            ProgramError::Immutable
        } else {
            ProgramError::IncorrectAuthority
        }
    }

    /// An error comes back unchanged from the code it is reported under.
    pub proof fn lemma_code_round_trip(error: ProgramError)
        ensures
            ProgramError::spec_from_code(error.spec_code()) == error,
    {
    }
}

/// The errors of this program. The program reports each as the custom error
/// of its position in this list, starting at 0.
#[derive(Clone, Copy, Debug, PartialEq, Eq, Structural)]
pub enum TokenAclError {
    InvalidAuthority,
    InvalidSystemProgram,
    InvalidTokenProgram,
    InvalidTokenMint,
    InvalidMintConfig,
    InvalidGatingProgram,
    PermissionlessThawNotEnabled,
    PermissionlessFreezeNotEnabled,
    InvalidTokenAccountOwner,
}

impl TokenAclError {
    /// The number under which the program reports the error.
    pub open spec fn spec_code(self) -> u32 {
        match self {
            TokenAclError::InvalidAuthority => 0,
            TokenAclError::InvalidSystemProgram => 1,
            TokenAclError::InvalidTokenProgram => 2,
            TokenAclError::InvalidTokenMint => 3,
            TokenAclError::InvalidMintConfig => 4,
            TokenAclError::InvalidGatingProgram => 5,
            TokenAclError::PermissionlessThawNotEnabled => 6,
            TokenAclError::PermissionlessFreezeNotEnabled => 7,
            TokenAclError::InvalidTokenAccountOwner => 8,
        }
    }

    /// The error as the host sees it.
    pub open spec fn spec_program_error(self) -> ProgramError {
        ProgramError::Custom(self.spec_code())
    }

    /// The number under which the program reports the error.
    pub fn code(&self) -> (r: u32)
        ensures
            r == self.spec_code(),
    {
        match self {
            TokenAclError::InvalidAuthority => 0,
            TokenAclError::InvalidSystemProgram => 1,
            TokenAclError::InvalidTokenProgram => 2,
            TokenAclError::InvalidTokenMint => 3,
            TokenAclError::InvalidMintConfig => 4,
            TokenAclError::InvalidGatingProgram => 5,
            TokenAclError::PermissionlessThawNotEnabled => 6,
            TokenAclError::PermissionlessFreezeNotEnabled => 7,
            TokenAclError::InvalidTokenAccountOwner => 8,
        }
    }

    /// The error that the program reports under `code`, if there is one.
    pub fn from_code(code: u32) -> (r: Option<TokenAclError>)
        ensures
            r matches Some(error) ==> error.spec_code() == code,
            r is None <==> code > 8,
    {
        match code {
            0 => Some(TokenAclError::InvalidAuthority),
            1 => Some(TokenAclError::InvalidSystemProgram),
            2 => Some(TokenAclError::InvalidTokenProgram),
            3 => Some(TokenAclError::InvalidTokenMint),
            4 => Some(TokenAclError::InvalidMintConfig),
            5 => Some(TokenAclError::InvalidGatingProgram),
            6 => Some(TokenAclError::PermissionlessThawNotEnabled),
            7 => Some(TokenAclError::PermissionlessFreezeNotEnabled),
            8 => Some(TokenAclError::InvalidTokenAccountOwner),
            _ => None,
        }
    }

    /// Two errors of the program never share a code.
    pub proof fn lemma_codes_differ(a: TokenAclError, b: TokenAclError)
        ensures
            a.spec_code() == b.spec_code() <==> a == b,
    {
    }
}

impl From<TokenAclError> for ProgramError {
    fn from(e: TokenAclError) -> (r: ProgramError) {
        ProgramError::Custom(e.code())
    }
}

impl vstd::std_specs::convert::FromSpecImpl<TokenAclError> for ProgramError {
    open spec fn obeys_from_spec() -> bool {
        true
    }

    open spec fn from_spec(e: TokenAclError) -> ProgramError {
        e.spec_program_error()
    }
}

/// Why the accounts that a gating program asks for could not be added to an
/// instruction.
#[derive(Clone, Copy, Debug, PartialEq, Eq, Structural)]
pub enum ThawFreezeGateError {
    /// The instruction lacks one of the accounts that every gating program
    /// is called with.
    IncorrectAccount,
    MissingAccountMeta,
    MissingExtraAccountMeta,
    /// The account-resolution library refused the gating program's list,
    /// with this code.
    ResolutionError(u32),
    /// Any other error.
    ProgramError(ProgramError),
    InvalidTokenMint,
}

} // verus!

use token_acl::error::{ProgramError, ThawFreezeGateError, TokenAclError, CUSTOM_ZERO};
use token_acl::resolution::{
    is_resolution_error, translate, ACCOUNT_FETCH_FAILED, INCORRECT_ACCOUNT, LAST_RESOLUTION_ERROR,
};

fn all_errors() -> Vec<(ProgramError, solana_program_error::ProgramError)> {
    vec![
        (ProgramError::Custom(0), solana_program_error::ProgramError::Custom(0)),
        (ProgramError::Custom(7), solana_program_error::ProgramError::Custom(7)),
        (ProgramError::Custom(u32::MAX), solana_program_error::ProgramError::Custom(u32::MAX)),
        (ProgramError::InvalidArgument, solana_program_error::ProgramError::InvalidArgument),
        (ProgramError::InvalidInstructionData, solana_program_error::ProgramError::InvalidInstructionData),
        (ProgramError::InvalidAccountData, solana_program_error::ProgramError::InvalidAccountData),
        (ProgramError::AccountDataTooSmall, solana_program_error::ProgramError::AccountDataTooSmall),
        (ProgramError::InsufficientFunds, solana_program_error::ProgramError::InsufficientFunds),
        (ProgramError::IncorrectProgramId, solana_program_error::ProgramError::IncorrectProgramId),
        (ProgramError::MissingRequiredSignature, solana_program_error::ProgramError::MissingRequiredSignature),
        (ProgramError::AccountAlreadyInitialized, solana_program_error::ProgramError::AccountAlreadyInitialized),
        (ProgramError::UninitializedAccount, solana_program_error::ProgramError::UninitializedAccount),
        (ProgramError::NotEnoughAccountKeys, solana_program_error::ProgramError::NotEnoughAccountKeys),
        (ProgramError::AccountBorrowFailed, solana_program_error::ProgramError::AccountBorrowFailed),
        (ProgramError::MaxSeedLengthExceeded, solana_program_error::ProgramError::MaxSeedLengthExceeded),
        (ProgramError::InvalidSeeds, solana_program_error::ProgramError::InvalidSeeds),
        (ProgramError::BorshIoError, solana_program_error::ProgramError::BorshIoError),
        (ProgramError::AccountNotRentExempt, solana_program_error::ProgramError::AccountNotRentExempt),
        (ProgramError::UnsupportedSysvar, solana_program_error::ProgramError::UnsupportedSysvar),
        (ProgramError::IllegalOwner, solana_program_error::ProgramError::IllegalOwner),
        (
            ProgramError::MaxAccountsDataAllocationsExceeded,
            solana_program_error::ProgramError::MaxAccountsDataAllocationsExceeded,
        ),
        (ProgramError::InvalidRealloc, solana_program_error::ProgramError::InvalidRealloc),
        (
            ProgramError::MaxInstructionTraceLengthExceeded,
            solana_program_error::ProgramError::MaxInstructionTraceLengthExceeded,
        ),
        (
            ProgramError::BuiltinProgramsMustConsumeComputeUnits,
            solana_program_error::ProgramError::BuiltinProgramsMustConsumeComputeUnits,
        ),
        (ProgramError::InvalidAccountOwner, solana_program_error::ProgramError::InvalidAccountOwner),
        (ProgramError::ArithmeticOverflow, solana_program_error::ProgramError::ArithmeticOverflow),
        (ProgramError::Immutable, solana_program_error::ProgramError::Immutable),
        (ProgramError::IncorrectAuthority, solana_program_error::ProgramError::IncorrectAuthority),
    ]
}

#[test]
fn codes_are_those_of_the_host() {
    for (ours, theirs) in all_errors() {
        let code = u64::from(theirs);
        assert_eq!(ours.code(), code);
        assert_eq!(ProgramError::from_code(code), ours);
    }
}

#[test]
fn custom_zero_has_its_own_code() {
    assert_eq!(ProgramError::Custom(0).code(), CUSTOM_ZERO);
    assert_eq!(ProgramError::Custom(0).code(), 1u64 << 32);
    assert_eq!(ProgramError::Custom(1).code(), 1);
    assert_eq!(ProgramError::InvalidInstructionData.code(), 3u64 << 32);
    assert_eq!(ProgramError::IncorrectAuthority.code(), 26u64 << 32);
}

#[test]
fn unknown_codes_are_custom_errors_of_their_low_bits() {
    assert_eq!(ProgramError::from_code(27u64 << 32), ProgramError::Custom(0));
    assert_eq!(ProgramError::from_code((5u64 << 32) + 9), ProgramError::Custom(9));
    assert_eq!(ProgramError::from_code(0), ProgramError::Custom(0));
    assert_eq!(ProgramError::from_code(999_999_999), ProgramError::Custom(999_999_999));
    for code in [27u64 << 32, (5u64 << 32) + 9, 0, 999_999_999, u64::MAX] {
        let theirs = solana_program_error::ProgramError::from(code);
        assert_eq!(ProgramError::from_code(code).code(), u64::from(theirs));
    }
}

#[test]
fn program_errors_are_numbered_from_zero() {
    let errors = [
        TokenAclError::InvalidAuthority,
        TokenAclError::InvalidSystemProgram,
        TokenAclError::InvalidTokenProgram,
        TokenAclError::InvalidTokenMint,
        TokenAclError::InvalidMintConfig,
        TokenAclError::InvalidGatingProgram,
        TokenAclError::PermissionlessThawNotEnabled,
        TokenAclError::PermissionlessFreezeNotEnabled,
        TokenAclError::InvalidTokenAccountOwner,
    ];
    for (index, error) in errors.iter().enumerate() {
        assert_eq!(error.code(), index as u32);
        assert_eq!(TokenAclError::from_code(index as u32), Some(*error));
        assert_eq!(ProgramError::from(*error), ProgramError::Custom(index as u32));
    }
    assert_eq!(TokenAclError::from_code(9), None);
    assert_eq!(TokenAclError::PermissionlessThawNotEnabled.code(), 0x06);
    assert_eq!(TokenAclError::PermissionlessFreezeNotEnabled.code(), 0x07);
}

#[test]
fn resolution_errors_are_twenty_codes_in_a_row() {
    assert_eq!(INCORRECT_ACCOUNT, 2_724_315_840);
    assert_eq!(LAST_RESOLUTION_ERROR, 2_724_315_859);
    assert!(is_resolution_error(INCORRECT_ACCOUNT));
    assert!(is_resolution_error(ACCOUNT_FETCH_FAILED));
    assert!(is_resolution_error(LAST_RESOLUTION_ERROR));
    assert!(!is_resolution_error(INCORRECT_ACCOUNT - 1));
    assert!(!is_resolution_error(LAST_RESOLUTION_ERROR + 1));
    assert!(!is_resolution_error(0));
    assert!(!is_resolution_error(u32::MAX));
    let incorrect = spl_tlv_account_resolution::error::AccountResolutionError::IncorrectAccount;
    assert_eq!(
        u64::from(solana_program_error::ProgramError::from(incorrect)),
        ProgramError::Custom(INCORRECT_ACCOUNT).code()
    );
    let fetch = spl_tlv_account_resolution::error::AccountResolutionError::AccountFetchFailed;
    assert_eq!(
        u64::from(solana_program_error::ProgramError::from(fetch)),
        ProgramError::Custom(ACCOUNT_FETCH_FAILED).code()
    );
    let last = spl_tlv_account_resolution::error::AccountResolutionError::InvalidPubkeyDataConfig;
    assert_eq!(
        u64::from(solana_program_error::ProgramError::from(last)),
        ProgramError::Custom(LAST_RESOLUTION_ERROR).code()
    );
}

#[test]
fn resolution_codes_are_translated_and_others_kept() {
    assert_eq!(
        translate(ProgramError::Custom(INCORRECT_ACCOUNT)),
        ThawFreezeGateError::ResolutionError(INCORRECT_ACCOUNT)
    );
    assert_eq!(
        translate(ProgramError::Custom(999_999_999)),
        ThawFreezeGateError::ProgramError(ProgramError::Custom(999_999_999))
    );
    assert_eq!(
        translate(ProgramError::InvalidAccountData),
        ThawFreezeGateError::ProgramError(ProgramError::InvalidAccountData)
    );
}

use quasar::error::{check_assert, QuasarError, QuasarErrorCode, SourceFileId};
use solana_program::program_error::ProgramError;

#[test]
fn source_file_names() {
    assert_eq!(SourceFileId::Processor.to_string(), "src/processor.rs");
    assert_eq!(SourceFileId::State.to_string(), "src/state.rs");
    assert_eq!(SourceFileId::Oracle.to_string(), "src/oracle.rs");
}

#[test]
fn error_codes_count_from_zero() {
    assert_eq!(u32::from(QuasarErrorCode::InvalidInstruction), 0);
    assert_eq!(u32::from(QuasarErrorCode::InvalidOwner), 1);
    assert_eq!(u32::from(QuasarErrorCode::InvalidGroupOwner), 2);
    assert_eq!(u32::from(QuasarErrorCode::InvalidSignerKey), 3);
    assert_eq!(u32::from(QuasarErrorCode::InvalidAdminKey), 4);
    assert_eq!(u32::from(QuasarErrorCode::InsufficientFunds), 5);
    assert_eq!(u32::from(QuasarErrorCode::InvalidToken), 6);
    assert_eq!(u32::from(QuasarErrorCode::InvalidProgramId), 7);
    assert_eq!(u32::from(QuasarErrorCode::GroupNotRentExempt), 8);
    assert_eq!(u32::from(QuasarErrorCode::AccountNotRentExempt), 9);
    assert_eq!(u32::from(QuasarErrorCode::OutOfSpace), 10);
    assert_eq!(u32::from(QuasarErrorCode::InvalidParam), 11);
    assert_eq!(u32::from(QuasarErrorCode::InvalidAccount), 12);
    assert_eq!(u32::from(QuasarErrorCode::SignerNecessary), 13);
}

#[test]
fn default_error_code_is_the_largest_number() {
    assert_eq!(u32::from(QuasarErrorCode::Default), u32::MAX);
    let code: u32 = QuasarErrorCode::Default.into();
    assert_eq!(code, 4_294_967_295);
}

#[test]
fn error_code_names() {
    assert_eq!(
        QuasarErrorCode::InvalidInstruction.to_string(),
        "QuasarErrorCode::InvalidInstruction"
    );
    assert_eq!(QuasarErrorCode::OutOfSpace.to_string(), "QuasarErrorCode::OutOfSpace");
    assert_eq!(QuasarErrorCode::SignerNecessary.to_string(), "QuasarErrorCode::SignerNecessary");
    assert_eq!(
        QuasarErrorCode::Default.to_string(),
        "QuasarErrorCode::Default Check the source code for more info"
    );
}

#[test]
fn check_assert_passes_on_true() {
    assert_eq!(check_assert(true, QuasarErrorCode::InvalidOwner, 7, SourceFileId::State), Ok(()));
}

#[test]
fn check_assert_fails_with_the_given_error() {
    assert_eq!(
        check_assert(false, QuasarErrorCode::InvalidOwner, 82, SourceFileId::State),
        Err(QuasarError::QuasarErrorCode {
            quasar_error_code: QuasarErrorCode::InvalidOwner,
            line: 82,
            source_file_id: SourceFileId::State,
        })
    );
}

#[test]
fn custom_code_of_each_kind_of_error() {
    let domain = QuasarError::QuasarErrorCode {
        quasar_error_code: QuasarErrorCode::InvalidAccount,
        line: 1,
        source_file_id: SourceFileId::Processor,
    };
    assert_eq!(domain.custom_code(), Some(12));
    assert_eq!(QuasarError::ProgramError(ProgramError::InvalidArgument).custom_code(), None);
    assert_eq!(QuasarError::MathError.custom_code(), None);
    assert_eq!(QuasarError::UnknownOracle.custom_code(), None);
}

#[test]
fn fatal_errors() {
    assert!(QuasarError::MathError.is_fatal());
    assert!(QuasarError::UnknownOracle.is_fatal());
    assert!(!QuasarError::ProgramError(ProgramError::InvalidArgument).is_fatal());
    let domain = QuasarError::QuasarErrorCode {
        quasar_error_code: QuasarErrorCode::Default,
        line: 0,
        source_file_id: SourceFileId::Oracle,
    };
    assert!(!domain.is_fatal());
}

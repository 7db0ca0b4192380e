//! Errors of the vault: the ledger runtime's own, the vault's domain errors,
//! and the fatal ones.

use vstd::prelude::*;
use vstd::std_specs::convert::FromSpecImpl;

verus! {

/// The ledger runtime's error type. Its values are carried through unread.
#[verifier::external_type_specification]
#[verifier::external_body]
pub struct ExProgramError(solana_program::program_error::ProgramError);

/// The component in which a domain error arose.
#[derive(Debug, Clone, Copy, PartialEq, Eq, Structural)]
pub enum SourceFileId {
    Processor,
    State,
    Oracle,
}

impl SourceFileId {
    /// The source file of the component.
    pub fn to_string(&self) -> (r: String)
        ensures
            r@ == match *self {
                SourceFileId::Processor => "src/processor.rs"@,
                SourceFileId::State => "src/state.rs"@,
                SourceFileId::Oracle => "src/oracle.rs"@,
            },
    {
        match self {
            SourceFileId::Processor => "src/processor.rs".to_owned(),
            SourceFileId::State => "src/state.rs".to_owned(),
            SourceFileId::Oracle => "src/oracle.rs".to_owned(),
        }
    }
}

/// A domain error of the vault.
#[derive(Debug, Clone, Copy, PartialEq, Eq, Structural)]
pub enum QuasarErrorCode {
    InvalidInstruction,
    InvalidOwner,
    InvalidGroupOwner,
    InvalidSignerKey,
    InvalidAdminKey,
    InsufficientFunds,
    InvalidToken,
    InvalidProgramId,
    GroupNotRentExempt,
    AccountNotRentExempt,
    OutOfSpace,
    InvalidParam,
    InvalidAccount,
    SignerNecessary,
    /// Unspecified: the place in the source tells more.
    Default,
}

impl QuasarErrorCode {
    /// The number under which the runtime reports the error: the position
    /// in the list of errors, counted from zero, and the largest 32-bit
    /// number for `Default`.
    pub open spec fn code_spec(self) -> u32 {
        match self {
            QuasarErrorCode::InvalidInstruction => 0,
            QuasarErrorCode::InvalidOwner => 1,
            QuasarErrorCode::InvalidGroupOwner => 2,
            QuasarErrorCode::InvalidSignerKey => 3,
            QuasarErrorCode::InvalidAdminKey => 4,
            QuasarErrorCode::InsufficientFunds => 5,
            QuasarErrorCode::InvalidToken => 6,
            QuasarErrorCode::InvalidProgramId => 7,
            QuasarErrorCode::GroupNotRentExempt => 8,
            QuasarErrorCode::AccountNotRentExempt => 9,
            QuasarErrorCode::OutOfSpace => 10,
            QuasarErrorCode::InvalidParam => 11,
            QuasarErrorCode::InvalidAccount => 12,
            QuasarErrorCode::SignerNecessary => 13,
            QuasarErrorCode::Default => u32::MAX,
        }
    }

    /// The error's name as it is logged.
    pub fn to_string(&self) -> (r: String)
        ensures
            r@ == match *self {
                QuasarErrorCode::InvalidInstruction => "QuasarErrorCode::InvalidInstruction"@,
                QuasarErrorCode::InvalidOwner => "QuasarErrorCode::InvalidOwner"@,
                QuasarErrorCode::InvalidGroupOwner => "QuasarErrorCode::InvalidGroupOwner"@,
                QuasarErrorCode::InvalidSignerKey => "QuasarErrorCode::InvalidSignerKey"@,
                QuasarErrorCode::InvalidAdminKey => "QuasarErrorCode::InvalidAdminKey"@,
                QuasarErrorCode::InsufficientFunds => "QuasarErrorCode::InsufficientFunds"@,
                QuasarErrorCode::InvalidToken => "QuasarErrorCode::InvalidToken"@,
                QuasarErrorCode::InvalidProgramId => "QuasarErrorCode::InvalidProgramId"@,
                QuasarErrorCode::GroupNotRentExempt => "QuasarErrorCode::GroupNotRentExempt"@,
                QuasarErrorCode::AccountNotRentExempt => "QuasarErrorCode::AccountNotRentExempt"@,
                QuasarErrorCode::OutOfSpace => "QuasarErrorCode::OutOfSpace"@,
                QuasarErrorCode::InvalidParam => "QuasarErrorCode::InvalidParam"@,
                QuasarErrorCode::InvalidAccount => "QuasarErrorCode::InvalidAccount"@,
                QuasarErrorCode::SignerNecessary => "QuasarErrorCode::SignerNecessary"@,
                QuasarErrorCode::Default =>
                    "QuasarErrorCode::Default Check the source code for more info"@,
            },
    {
        match self {
            QuasarErrorCode::InvalidInstruction => "QuasarErrorCode::InvalidInstruction".to_owned(),
            QuasarErrorCode::InvalidOwner => "QuasarErrorCode::InvalidOwner".to_owned(),
            QuasarErrorCode::InvalidGroupOwner => "QuasarErrorCode::InvalidGroupOwner".to_owned(),
            QuasarErrorCode::InvalidSignerKey => "QuasarErrorCode::InvalidSignerKey".to_owned(),
            QuasarErrorCode::InvalidAdminKey => "QuasarErrorCode::InvalidAdminKey".to_owned(),
            QuasarErrorCode::InsufficientFunds => "QuasarErrorCode::InsufficientFunds".to_owned(),
            QuasarErrorCode::InvalidToken => "QuasarErrorCode::InvalidToken".to_owned(),
            QuasarErrorCode::InvalidProgramId => "QuasarErrorCode::InvalidProgramId".to_owned(),
            QuasarErrorCode::GroupNotRentExempt => "QuasarErrorCode::GroupNotRentExempt".to_owned(),
            QuasarErrorCode::AccountNotRentExempt => "QuasarErrorCode::AccountNotRentExempt".to_owned(),
            QuasarErrorCode::OutOfSpace => "QuasarErrorCode::OutOfSpace".to_owned(),
            QuasarErrorCode::InvalidParam => "QuasarErrorCode::InvalidParam".to_owned(),
            QuasarErrorCode::InvalidAccount => "QuasarErrorCode::InvalidAccount".to_owned(),
            QuasarErrorCode::SignerNecessary => "QuasarErrorCode::SignerNecessary".to_owned(),
            QuasarErrorCode::Default =>
                "QuasarErrorCode::Default Check the source code for more info".to_owned(),
        }
    }
}

impl From<QuasarErrorCode> for u32 {
    /// The number under which the runtime reports the error.
    fn from(code: QuasarErrorCode) -> (r: u32) {
        match code {
            QuasarErrorCode::InvalidInstruction => 0,
            QuasarErrorCode::InvalidOwner => 1,
            QuasarErrorCode::InvalidGroupOwner => 2,
            QuasarErrorCode::InvalidSignerKey => 3,
            QuasarErrorCode::InvalidAdminKey => 4,
            QuasarErrorCode::InsufficientFunds => 5,
            QuasarErrorCode::InvalidToken => 6,
            QuasarErrorCode::InvalidProgramId => 7,
            QuasarErrorCode::GroupNotRentExempt => 8,
            QuasarErrorCode::AccountNotRentExempt => 9,
            QuasarErrorCode::OutOfSpace => 10,
            QuasarErrorCode::InvalidParam => 11,
            QuasarErrorCode::InvalidAccount => 12,
            QuasarErrorCode::SignerNecessary => 13,
            QuasarErrorCode::Default => u32::MAX,
        }
    }
}

impl FromSpecImpl<QuasarErrorCode> for u32 {
    open spec fn obeys_from_spec() -> bool {
        true
    }

    open spec fn from_spec(code: QuasarErrorCode) -> u32 {
        code.code_spec()
    }
}

/// Any error of the vault.
#[derive(Debug, PartialEq, Eq)]
pub enum QuasarError {
    /// An error of the ledger runtime, passed through unchanged.
    ProgramError(solana_program::program_error::ProgramError),
    /// A domain error, with the component that found it and the line that
    /// the caller gave for it.
    QuasarErrorCode { quasar_error_code: QuasarErrorCode, line: u32, source_file_id: SourceFileId },
    /// A checked fixed-point or integer operation failed. Fatal.
    MathError,
    /// An oracle account has no known format. Fatal.
    UnknownOracle,
}

pub type QuasarResult<T> = Result<T, QuasarError>;

impl QuasarError {
    /// The number of the custom error under which the runtime reports a
    /// domain error; none for the other errors.
    pub fn custom_code(&self) -> (r: Option<u32>)
        ensures
            r == match *self {
                QuasarError::QuasarErrorCode { quasar_error_code, .. } => Some(
                    quasar_error_code.code_spec(),
                ),
                _ => None,
            },
    {
        match self {
            QuasarError::QuasarErrorCode { quasar_error_code, .. } => Some(
                u32::from(*quasar_error_code),
            ),
            _ => None,
        }
    }

    /// Whether the error is fatal: the invocation cannot go on and is not
    /// to be reported as a domain error.
    pub fn is_fatal(&self) -> (r: bool)
        ensures
            r == (*self is MathError || *self is UnknownOracle),
    {
        match self {
            QuasarError::MathError => true,
            QuasarError::UnknownOracle => true,
            _ => false,
        }
    }
}

/// The failure with a domain error.
pub open spec fn domain_error<T>(
    quasar_error_code: QuasarErrorCode,
    line: u32,
    source_file_id: SourceFileId,
) -> QuasarResult<T> {
    Err(QuasarError::QuasarErrorCode { quasar_error_code, line, source_file_id })
}

/// The result of a computation whose checked operations gave `value`:
/// `MathError` where one of them failed.
pub open spec fn math_result<T>(value: Option<T>) -> QuasarResult<T> {
    match value {
        Some(v) => Ok(v),
        None => Err(QuasarError::MathError),
    }
}

/// Passes where `cond` holds; else fails with the domain error
/// `quasar_error_code`, reported from `line` of the component
/// `source_file_id`.
pub fn check_assert(
    cond: bool,
    quasar_error_code: QuasarErrorCode,
    line: u32,
    source_file_id: SourceFileId,
) -> (r: QuasarResult<()>)
    ensures
        cond ==> r == Ok::<(), QuasarError>(()),
        !cond ==> r == domain_error::<()>(quasar_error_code, line, source_file_id),
{
    if cond {
        Ok(())
    } else {
        Err(QuasarError::QuasarErrorCode { quasar_error_code, line, source_file_id })
    }
}

} // verus!

use solana_program::program_error::ProgramError;
use vstd::prelude::*;

verus! {

/// Declares solana-program-error's `ProgramError`, whose variants Verus reads:
/// they are plain data (`u32` and `String` payloads).
#[verifier::external_type_specification]
pub struct ExProgramError(ProgramError);

/// Errors specific to this program.
#[derive(Clone, Copy, Debug, PartialEq, Eq, Structural)]
pub enum ErrorCode {
    /// Profit is below the minimum threshold; the transaction is reverted.
    NotEnoughProfit,
}

/// The number each error is reported under in `ProgramError::Custom`.
pub open spec fn custom_code_of(e: ErrorCode) -> u32 {
    match e {
        ErrorCode::NotEnoughProfit => 100,
    }
}

impl ErrorCode {
    /// The numeric code carried by `ProgramError::Custom` for this error.
    pub fn code(&self) -> (r: u32)
        ensures
            r == custom_code_of(*self),
    {
        match self {
            ErrorCode::NotEnoughProfit => 100,
        }
    }
}

impl From<ErrorCode> for ProgramError {
    fn from(e: ErrorCode) -> (r: ProgramError) {
        ProgramError::Custom(e.code())
    }
}

impl vstd::std_specs::convert::FromSpecImpl<ErrorCode> for ProgramError {
    open spec fn obeys_from_spec() -> bool {
        true
    }

    open spec fn from_spec(e: ErrorCode) -> ProgramError {
        ProgramError::Custom(custom_code_of(e))
    }
}

/// The error code that a raw number decodes to: only zero names an error of
/// this program, and every other number is an invalid argument.
pub open spec fn error_code_from(n: u32) -> Result<ErrorCode, ProgramError> {
    if n == 0 {
        Ok(ErrorCode::NotEnoughProfit)
    } else {
        Err(ProgramError::InvalidArgument)
    }
}

impl TryFrom<u32> for ErrorCode {
    type Error = ProgramError;

    fn try_from(n: u32) -> (r: Result<ErrorCode, ProgramError>) {
        match n {
            0 => Ok(ErrorCode::NotEnoughProfit),
            _ => Err(ProgramError::InvalidArgument),
        }
    }
}

impl vstd::std_specs::convert::TryFromSpecImpl<u32> for ErrorCode {
    open spec fn obeys_try_from_spec() -> bool {
        true
    }

    open spec fn try_from_spec(n: u32) -> Result<ErrorCode, ProgramError> {
        error_code_from(n)
    }
}

} // verus!

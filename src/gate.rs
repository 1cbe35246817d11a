use crate::error::ErrorCode;
use crate::layout::{decode_instruction, decoded, embedded_balance, embedded_balance_of};
use crate::layout::InstructionParameters;
use solana_program::program_error::ProgramError;
use solana_program::pubkey::Pubkey;
use vstd::prelude::*;

verus! {

/// Declares solana-pubkey's `Pubkey` as an opaque type: the program id is
/// carried through the entry point and never read.
#[verifier::external_type_specification]
#[verifier::external_body]
pub struct ExPubkey(Pubkey);

/// Why the guard refused to let the transaction finalize.
#[derive(Clone, Copy, Debug, PartialEq, Eq, Structural)]
pub enum GateError {
    /// The payload is shorter than the instruction header.
    MalformedInstruction,
    /// Fewer accounts were supplied than the guard requires.
    MissingAccount,
    /// The payer did not sign.
    MissingSignature,
    /// A required account is not writable.
    InvalidAccountState,
    /// The payer's state record is too short to hold the balance field.
    MalformedAccountData,
    /// The profit is below the requested minimum.
    NotEnoughProfit,
}

/// The runtime error each gate error is reported as.
pub open spec fn program_error_of(e: GateError) -> ProgramError {
    match e {
        GateError::MalformedInstruction => ProgramError::InvalidInstructionData,
        GateError::MissingAccount => ProgramError::NotEnoughAccountKeys,
        GateError::MissingSignature => ProgramError::MissingRequiredSignature,
        GateError::InvalidAccountState => ProgramError::InvalidAccountData,
        GateError::MalformedAccountData => ProgramError::AccountDataTooSmall,
        GateError::NotEnoughProfit => ProgramError::Custom(
            crate::error::custom_code_of(ErrorCode::NotEnoughProfit),
        ),
    }
}

impl GateError {
    /// The runtime error this gate error is reported as.
    pub fn to_program_error(&self) -> (r: ProgramError)
        ensures
            r == program_error_of(*self),
    {
        match self {
            GateError::MalformedInstruction => ProgramError::InvalidInstructionData,
            GateError::MissingAccount => ProgramError::NotEnoughAccountKeys,
            GateError::MissingSignature => ProgramError::MissingRequiredSignature,
            GateError::InvalidAccountState => ProgramError::InvalidAccountData,
            GateError::MalformedAccountData => ProgramError::AccountDataTooSmall,
            GateError::NotEnoughProfit => ProgramError::from(ErrorCode::NotEnoughProfit),
        }
    }
}

/// What the guard reads of an account the caller hands it.
#[derive(Clone, Debug)]
pub struct AccountRef {
    pub is_signer: bool,
    pub is_writable: bool,
    /// The account's native balance.
    pub lamports: u64,
    /// The account's raw state record.
    pub data: Vec<u8>,
}

/// Where the payer's balance after the bundled operation is taken from.
#[derive(Clone, Copy, Debug, PartialEq, Eq, Structural)]
pub enum BalanceSource {
    /// The `u64` field at `[64, 72)` of the payer's state record; only the
    /// payer account is required.
    EmbeddedField,
    /// The payer's native balance; the accounts are payer, recipient and a
    /// service handle, in that order.
    NativeBalance,
}

/// How many accounts the guard requires under a balance source.
pub open spec fn required_accounts(source: BalanceSource) -> int {
    match source {
        BalanceSource::EmbeddedField => 1,
        BalanceSource::NativeBalance => 3,
    }
}

/// The structural checks on the accounts, in order, the first failure winning.
pub open spec fn accounts_checked(source: BalanceSource, accounts: Seq<AccountRef>) -> Result<
    (),
    GateError,
> {
    if accounts.len() < required_accounts(source) {
        Err(GateError::MissingAccount)
    } else if !accounts[0].is_signer {
        Err(GateError::MissingSignature)
    } else if !accounts[0].is_writable {
        Err(GateError::InvalidAccountState)
    } else if source == BalanceSource::NativeBalance && !accounts[1].is_writable {
        Err(GateError::InvalidAccountState)
    } else {
        Ok(())
    }
}

/// The payer's balance after the bundled operation, under a balance source.
pub open spec fn after_amount_of(source: BalanceSource, payer: AccountRef) -> Result<u64, GateError> {
    match source {
        BalanceSource::EmbeddedField => embedded_balance_of(payer.data@),
        BalanceSource::NativeBalance => Ok(payer.lamports),
    }
}

/// The profit: how far `after` exceeds `before`, and zero when it does not.
pub open spec fn profit_of(after: u64, before: u64) -> u64 {
    if after >= before {
        (after - before) as u64
    } else {
        0
    }
}

/// The decision once the structure is sound: admit exactly when the profit
/// reaches the minimum.
pub open spec fn decision_of(params: InstructionParameters, after: u64) -> Result<(), GateError> {
    if profit_of(after, params.before_amount) < params.min_profit {
        Err(GateError::NotEnoughProfit)
    } else {
        Ok(())
    }
}

/// The guard's outcome: decode the payload, check the accounts, obtain the
/// balance after the operation, then decide.
pub open spec fn gate_outcome(source: BalanceSource, accounts: Seq<AccountRef>, payload: Seq<u8>) -> Result<
    (),
    GateError,
> {
    match decoded(payload) {
        Err(e) => Err(e),
        Ok(params) => match accounts_checked(source, accounts) {
            Err(e) => Err(e),
            Ok(_) => match after_amount_of(source, accounts[0]) {
                Err(e) => Err(e),
                Ok(after) => decision_of(params, after),
            },
        },
    }
}

/// The guard's outcome as the runtime sees it.
pub open spec fn program_result_of(outcome: Result<(), GateError>) -> Result<(), ProgramError> {
    match outcome {
        Ok(_) => Ok(()),
        Err(e) => Err(program_error_of(e)),
    }
}

/// The profit of a balance move: `after - before`, clamped at zero.
pub fn saturating_profit(after: u64, before: u64) -> (r: u64)
    ensures
        r == profit_of(after, before),
{
    after.saturating_sub(before)
}

/// The signed change of the payer's balance, `after - before`, for the
/// diagnostic record; exact, since it is computed in 128 bits.
pub fn balance_change(after: u64, before: u64) -> (r: i128)
    ensures
        r == after - before,
{
    after as i128 - before as i128
}

/// Admits when the profit reaches `params.min_profit`, the bound included.
pub fn decide(params: InstructionParameters, after: u64) -> (r: Result<(), GateError>)
    ensures
        r == decision_of(params, after),
{
    let profit = saturating_profit(after, params.before_amount);
    if profit < params.min_profit {
        Err(GateError::NotEnoughProfit)
    } else {
        Ok(())
    }
}

/// Checks the accounts' structural preconditions, short-circuiting in order:
/// enough accounts, payer signed, payer writable, and for the native balance
/// source a writable recipient.
pub fn check_accounts(source: BalanceSource, accounts: &[AccountRef]) -> (r: Result<(), GateError>)
    ensures
        r == accounts_checked(source, accounts@),
{
    let required: usize = match source {
        BalanceSource::EmbeddedField => 1,
        BalanceSource::NativeBalance => 3,
    };
    if accounts.len() < required {
        return Err(GateError::MissingAccount);
    }
    let payer = &accounts[0];
    if !payer.is_signer {
        return Err(GateError::MissingSignature);
    }
    if !payer.is_writable {
        return Err(GateError::InvalidAccountState);
    }
    match source {
        BalanceSource::NativeBalance => {
            if !accounts[1].is_writable {
                return Err(GateError::InvalidAccountState);
            }
        },
        BalanceSource::EmbeddedField => {},
    }
    Ok(())
}

/// Obtains the payer's balance after the bundled operation.
pub fn after_amount(source: BalanceSource, payer: &AccountRef) -> (r: Result<u64, GateError>)
    ensures
        r == after_amount_of(source, *payer),
{
    match source {
        BalanceSource::EmbeddedField => embedded_balance(payer.data.as_slice()),
        BalanceSource::NativeBalance => Ok(payer.lamports),
    }
}

/// Runs the whole guard under a balance source.
pub fn evaluate(source: BalanceSource, accounts: &[AccountRef], payload: &[u8]) -> (r: Result<
    (),
    GateError,
>)
    ensures
        r == gate_outcome(source, accounts@, payload@),
{
    let params = match decode_instruction(payload) {
        Ok(p) => p,
        Err(e) => return Err(e),
    };
    match check_accounts(source, accounts) {
        Ok(_) => {},
        Err(e) => return Err(e),
    }
    let after = match after_amount(source, &accounts[0]) {
        Ok(a) => a,
        Err(e) => return Err(e),
    };
    decide(params, after)
}

/// The program's entry: the guard on the payer's native balance, with the
/// accounts payer, recipient and service handle, reporting runtime errors.
pub fn process_instruction(
    _program_id: &Pubkey,
    accounts: &[AccountRef],
    instruction_data: &[u8],
) -> (r: Result<(), ProgramError>)
    ensures
        r == program_result_of(gate_outcome(BalanceSource::NativeBalance, accounts@, instruction_data@)),
{
    match evaluate(BalanceSource::NativeBalance, accounts, instruction_data) {
        Ok(_) => Ok(()),
        Err(e) => Err(e.to_program_error()),
    }
}

} // verus!

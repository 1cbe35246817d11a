use crate::gate::GateError;
use vstd::prelude::*;

verus! {

/// Length of the instruction header: two little-endian `u64` fields.
pub const INSTRUCTION_LEN: usize = 16;

/// Offset of the embedded balance field within a payer's state record.
pub const BALANCE_OFFSET: usize = 64;

/// Minimum length of a state record that holds the embedded balance field.
pub const STATE_RECORD_MIN_LEN: usize = 72;

/// The unsigned little-endian value of the eight bytes `s[at..at + 8]`.
pub open spec fn le_u64_at(s: Seq<u8>, at: int) -> int {
    s[at] + 256 * (s[at + 1] + 256 * (s[at + 2] + 256 * (s[at + 3] + 256 * (s[at + 4]
        + 256 * (s[at + 5] + 256 * (s[at + 6] + 256 * s[at + 7]))))))
}

/// Reads the little-endian `u64` stored in `bytes[at..at + 8]`.
pub fn read_u64_le(bytes: &[u8], at: usize) -> (r: u64)
    requires
        at + 8 <= bytes@.len(),
    ensures
        r == le_u64_at(bytes@, at as int),
{
    let len: usize = bytes.len();
    assert(at + 8 <= len);
    let mut acc: u64 = bytes[at + 7] as u64;
    acc = acc * 256 + bytes[at + 6] as u64;
    acc = acc * 256 + bytes[at + 5] as u64;
    acc = acc * 256 + bytes[at + 4] as u64;
    acc = acc * 256 + bytes[at + 3] as u64;
    acc = acc * 256 + bytes[at + 2] as u64;
    acc = acc * 256 + bytes[at + 1] as u64;
    acc = acc * 256 + bytes[at] as u64;
    acc
}

/// The two parameters an instruction carries.
#[derive(Clone, Copy, Debug, PartialEq, Eq, Structural)]
pub struct InstructionParameters {
    /// The smallest profit that lets the transaction finalize.
    pub min_profit: u64,
    /// The payer's balance before the bundled operation ran.
    pub before_amount: u64,
}

/// What an instruction payload decodes to: `min_profit` from bytes `[0, 8)`
/// and `before_amount` from bytes `[8, 16)`, trailing bytes ignored.
pub open spec fn decoded(payload: Seq<u8>) -> Result<InstructionParameters, GateError> {
    if payload.len() < INSTRUCTION_LEN {
        Err(GateError::MalformedInstruction)
    } else {
        Ok(
            InstructionParameters {
                min_profit: le_u64_at(payload, 0) as u64,
                before_amount: le_u64_at(payload, 8) as u64,
            },
        )
    }
}

/// Decodes the fixed instruction header.
pub fn decode_instruction(payload: &[u8]) -> (r: Result<InstructionParameters, GateError>)
    ensures
        r == decoded(payload@),
{
    if payload.len() < INSTRUCTION_LEN {
        return Err(GateError::MalformedInstruction);
    }
    let min_profit = read_u64_le(payload, 0);
    let before_amount = read_u64_le(payload, 8);
    Ok(InstructionParameters { min_profit, before_amount })
}

/// The balance embedded in a state record: the little-endian `u64` at
/// `[64, 72)`, or `MalformedAccountData` for a record too short to hold it.
pub open spec fn embedded_balance_of(record: Seq<u8>) -> Result<u64, GateError> {
    if record.len() < STATE_RECORD_MIN_LEN {
        Err(GateError::MalformedAccountData)
    } else {
        Ok(le_u64_at(record, BALANCE_OFFSET as int) as u64)
    }
}

/// Reads the balance field embedded in a payer's state record.
pub fn embedded_balance(record: &[u8]) -> (r: Result<u64, GateError>)
    ensures
        r == embedded_balance_of(record@),
{
    if record.len() < STATE_RECORD_MIN_LEN {
        return Err(GateError::MalformedAccountData);
    }
    Ok(read_u64_le(record, BALANCE_OFFSET))
}

} // verus!

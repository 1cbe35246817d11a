//! A transaction-time profit gate: decodes a fixed instruction layout, checks
//! the payer account's structural preconditions, and admits the enclosing
//! transaction only when the observed profit reaches a caller-supplied minimum.

pub mod error;
pub mod gate;
pub mod layout;
pub mod laws;

pub use error::ErrorCode;
pub use gate::{
    after_amount, balance_change, check_accounts, decide, evaluate, process_instruction,
    saturating_profit, AccountRef, BalanceSource, GateError,
};
pub use layout::{decode_instruction, embedded_balance, read_u64_le, InstructionParameters};
pub use laws::{
    decode_fails_exactly_below_header, decode_reads_header_only, profit_saturates_at_zero,
    threshold_is_inclusive, unsigned_payer_rejected, unwritable_payer_rejected,
};

use crate::gate::{
    decision_of, gate_outcome, profit_of, required_accounts, AccountRef,
    BalanceSource, GateError,
};
use crate::layout::{decoded, InstructionParameters, INSTRUCTION_LEN};
use vstd::prelude::*;

verus! {

/// A payload shorter than the header always fails to decode, with
/// `MalformedInstruction`, and a long enough one always decodes.
pub proof fn decode_fails_exactly_below_header(payload: Seq<u8>)
    ensures
        payload.len() < INSTRUCTION_LEN ==> decoded(payload) == Err::<
            InstructionParameters,
            GateError,
        >(GateError::MalformedInstruction),
        payload.len() >= INSTRUCTION_LEN ==> decoded(payload) is Ok,
{
}

/// Two payloads of header length or more that agree on their first sixteen
/// bytes decode to the same parameters, whatever follows.
pub proof fn decode_reads_header_only(p: Seq<u8>, q: Seq<u8>)
    requires
        p.len() >= INSTRUCTION_LEN,
        q.len() >= INSTRUCTION_LEN,
        p.subrange(0, INSTRUCTION_LEN as int) == q.subrange(0, INSTRUCTION_LEN as int),
    ensures
        decoded(p) == decoded(q),
{
    assert forall|i: int| 0 <= i < INSTRUCTION_LEN implies p[i] == q[i] by {
        assert(p[i] == p.subrange(0, INSTRUCTION_LEN as int)[i]);
        assert(q[i] == q.subrange(0, INSTRUCTION_LEN as int)[i]);
    }
}

/// A balance that fell yields a profit of zero: never negative, never wrapped.
pub proof fn profit_saturates_at_zero(after: u64, before: u64)
    requires
        after < before,
    ensures
        profit_of(after, before) == 0,
{
}

/// The threshold is inclusive: a profit equal to the minimum is admitted, and
/// one just below a positive minimum is rejected with `NotEnoughProfit`.
pub proof fn threshold_is_inclusive(params: InstructionParameters, after: u64)
    ensures
        profit_of(after, params.before_amount) == params.min_profit ==> decision_of(params, after)
            == Ok::<(), GateError>(()),
        params.min_profit > 0 && profit_of(after, params.before_amount) == params.min_profit - 1
            ==> decision_of(params, after) == Err::<(), GateError>(GateError::NotEnoughProfit),
{
}

/// With a well-formed payload and enough accounts, a payer that did not sign
/// is rejected with `MissingSignature`, whatever the profit.
pub proof fn unsigned_payer_rejected(
    source: BalanceSource,
    accounts: Seq<AccountRef>,
    payload: Seq<u8>,
)
    requires
        decoded(payload) is Ok,
        accounts.len() >= required_accounts(source),
        !accounts[0].is_signer,
    ensures
        gate_outcome(source, accounts, payload) == Err::<(), GateError>(GateError::MissingSignature),
{
}

/// With a well-formed payload and enough accounts, a payer that is not
/// writable is rejected with `InvalidAccountState` when it signed, whatever
/// the profit; when it did not sign, the signer check answers first.
pub proof fn unwritable_payer_rejected(
    source: BalanceSource,
    accounts: Seq<AccountRef>,
    payload: Seq<u8>,
)
    requires
        decoded(payload) is Ok,
        accounts.len() >= required_accounts(source),
        !accounts[0].is_writable,
    ensures
        accounts[0].is_signer ==> gate_outcome(source, accounts, payload) == Err::<(), GateError>(
            GateError::InvalidAccountState,
        ),
        !accounts[0].is_signer ==> gate_outcome(source, accounts, payload) == Err::<(), GateError>(
            GateError::MissingSignature,
        ),
{
}

} // verus!

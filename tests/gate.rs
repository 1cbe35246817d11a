use profit_gate::{
    after_amount, balance_change, check_accounts, decide, decode_instruction, embedded_balance, evaluate,
    process_instruction, read_u64_le, saturating_profit, AccountRef, BalanceSource, ErrorCode,
    GateError, InstructionParameters,
};
use solana_program::program_error::ProgramError;
use solana_program::pubkey::Pubkey;

fn payload(min_profit: u64, before_amount: u64) -> Vec<u8> {
    let mut p = Vec::new();
    p.extend_from_slice(&min_profit.to_le_bytes());
    p.extend_from_slice(&before_amount.to_le_bytes());
    p
}

fn account(is_signer: bool, is_writable: bool, lamports: u64, data: Vec<u8>) -> AccountRef {
    AccountRef { is_signer, is_writable, lamports, data }
}

fn record_with_balance(balance: u64) -> Vec<u8> {
    let mut data = vec![0u8; 72];
    data[64..72].copy_from_slice(&balance.to_le_bytes());
    data
}

fn native_accounts(payer: AccountRef) -> Vec<AccountRef> {
    vec![payer, account(false, true, 0, vec![]), account(false, false, 0, vec![])]
}

#[test]
fn embedded_balance_allows_sufficient_profit() {
    let accounts = vec![account(true, true, 0, record_with_balance(200))];
    let r = evaluate(BalanceSource::EmbeddedField, &accounts, &payload(50, 100));
    assert_eq!(r, Ok(()));
}

#[test]
fn embedded_balance_saturates_and_rejects() {
    let accounts = vec![account(true, true, 0, record_with_balance(200))];
    let r = evaluate(BalanceSource::EmbeddedField, &accounts, &payload(50, 250));
    assert_eq!(r, Err(GateError::NotEnoughProfit));
}

#[test]
fn short_record_is_malformed_after_account_checks() {
    let accounts = vec![account(true, true, 1_000, vec![0u8; 71])];
    let r = evaluate(BalanceSource::EmbeddedField, &accounts, &payload(0, 0));
    assert_eq!(r, Err(GateError::MalformedAccountData));
    let unsigned = vec![account(false, true, 1_000, vec![0u8; 71])];
    let r = evaluate(BalanceSource::EmbeddedField, &unsigned, &payload(0, 0));
    assert_eq!(r, Err(GateError::MissingSignature));
    let unwritable = vec![account(true, false, 1_000, vec![0u8; 71])];
    let r = evaluate(BalanceSource::EmbeddedField, &unwritable, &payload(0, 0));
    assert_eq!(r, Err(GateError::InvalidAccountState));
}

#[test]
fn short_payload_is_malformed_instruction() {
    for len in 0..16 {
        let p = vec![0xffu8; len];
        assert_eq!(decode_instruction(&p), Err(GateError::MalformedInstruction));
        let accounts = native_accounts(account(true, true, 500, vec![]));
        assert_eq!(
            evaluate(BalanceSource::NativeBalance, &accounts, &p),
            Err(GateError::MalformedInstruction)
        );
    }
}

#[test]
fn trailing_bytes_are_ignored() {
    let mut p = payload(7, 9);
    assert_eq!(
        decode_instruction(&p),
        Ok(InstructionParameters { min_profit: 7, before_amount: 9 })
    );
    p.extend_from_slice(&[1, 2, 3, 4, 5]);
    assert_eq!(
        decode_instruction(&p),
        Ok(InstructionParameters { min_profit: 7, before_amount: 9 })
    );
}

#[test]
fn little_endian_read() {
    let bytes = [0xaau8, 0x01, 0x02, 0x03, 0x04, 0x05, 0x06, 0x07, 0x08, 0xbb];
    assert_eq!(read_u64_le(&bytes, 1), 0x0807_0605_0403_0201);
    assert_eq!(read_u64_le(&[0xff; 8], 0), u64::MAX);
}

#[test]
fn profit_is_saturating() {
    assert_eq!(saturating_profit(200, 100), 100);
    assert_eq!(saturating_profit(100, 200), 0);
    assert_eq!(saturating_profit(0, u64::MAX), 0);
    assert_eq!(saturating_profit(u64::MAX, 0), u64::MAX);
}

#[test]
fn threshold_is_inclusive_on_values() {
    let params = InstructionParameters { min_profit: 100, before_amount: 1_000 };
    assert_eq!(decide(params, 1_100), Ok(()));
    assert_eq!(decide(params, 1_099), Err(GateError::NotEnoughProfit));
    let zero = InstructionParameters { min_profit: 0, before_amount: 1_000 };
    assert_eq!(decide(zero, 10), Ok(()));
}

#[test]
fn unsigned_payer_rejected_despite_profit() {
    let accounts = native_accounts(account(false, true, 1_000_000, vec![]));
    let r = evaluate(BalanceSource::NativeBalance, &accounts, &payload(1, 0));
    assert_eq!(r, Err(GateError::MissingSignature));
    let both = native_accounts(account(false, false, 1_000_000, vec![]));
    let r = evaluate(BalanceSource::NativeBalance, &both, &payload(1, 0));
    assert_eq!(r, Err(GateError::MissingSignature));
}

#[test]
fn unwritable_payer_rejected_despite_profit() {
    let accounts = native_accounts(account(true, false, 1_000_000, vec![]));
    let r = evaluate(BalanceSource::NativeBalance, &accounts, &payload(1, 0));
    assert_eq!(r, Err(GateError::InvalidAccountState));
}

#[test]
fn unwritable_recipient_rejected() {
    let accounts = vec![
        account(true, true, 500, vec![]),
        account(false, false, 0, vec![]),
        account(false, false, 0, vec![]),
    ];
    assert_eq!(
        check_accounts(BalanceSource::NativeBalance, &accounts),
        Err(GateError::InvalidAccountState)
    );
    assert_eq!(check_accounts(BalanceSource::EmbeddedField, &accounts[..1]), Ok(()));
}

#[test]
fn missing_accounts_rejected() {
    let two = vec![account(true, true, 500, vec![]), account(false, true, 0, vec![])];
    assert_eq!(
        check_accounts(BalanceSource::NativeBalance, &two),
        Err(GateError::MissingAccount)
    );
    assert_eq!(
        check_accounts(BalanceSource::EmbeddedField, &[]),
        Err(GateError::MissingAccount)
    );
    let unsigned_alone = vec![account(false, true, 500, vec![])];
    assert_eq!(
        evaluate(BalanceSource::NativeBalance, &unsigned_alone, &payload(0, 0)),
        Err(GateError::MissingAccount)
    );
}

#[test]
fn native_balance_gate() {
    let accounts = native_accounts(account(true, true, 1_500, record_with_balance(0)));
    assert_eq!(evaluate(BalanceSource::NativeBalance, &accounts, &payload(500, 1_000)), Ok(()));
    assert_eq!(
        evaluate(BalanceSource::NativeBalance, &accounts, &payload(501, 1_000)),
        Err(GateError::NotEnoughProfit)
    );
    assert_eq!(after_amount(BalanceSource::NativeBalance, &accounts[0]), Ok(1_500));
    assert_eq!(after_amount(BalanceSource::EmbeddedField, &accounts[0]), Ok(0));
}

#[test]
fn embedded_balance_accessor() {
    assert_eq!(embedded_balance(&record_with_balance(0x0102_0304_0506_0708)), Ok(0x0102_0304_0506_0708));
    let mut longer = record_with_balance(42);
    longer.extend_from_slice(&[9u8; 10]);
    assert_eq!(embedded_balance(&longer), Ok(42));
    assert_eq!(embedded_balance(&[0u8; 71]), Err(GateError::MalformedAccountData));
}

#[test]
fn process_instruction_reports_runtime_errors() {
    let id = Pubkey::default();
    let good = native_accounts(account(true, true, 300, vec![]));
    assert_eq!(process_instruction(&id, &good, &payload(100, 200)), Ok(()));
    assert_eq!(
        process_instruction(&id, &good, &payload(101, 200)),
        Err(ProgramError::Custom(100))
    );
    assert_eq!(
        process_instruction(&id, &good, &[0u8; 15]),
        Err(ProgramError::InvalidInstructionData)
    );
    assert_eq!(
        process_instruction(&id, &good[..2], &payload(0, 0)),
        Err(ProgramError::NotEnoughAccountKeys)
    );
    let unsigned = native_accounts(account(false, true, 300, vec![]));
    assert_eq!(
        process_instruction(&id, &unsigned, &payload(0, 0)),
        Err(ProgramError::MissingRequiredSignature)
    );
    let unwritable = native_accounts(account(true, false, 300, vec![]));
    assert_eq!(
        process_instruction(&id, &unwritable, &payload(0, 0)),
        Err(ProgramError::InvalidAccountData)
    );
}

#[test]
fn gate_errors_map_to_runtime_errors() {
    assert_eq!(GateError::MalformedAccountData.to_program_error(), ProgramError::AccountDataTooSmall);
    assert_eq!(GateError::NotEnoughProfit.to_program_error(), ProgramError::Custom(100));
    assert_eq!(GateError::MissingAccount.to_program_error(), ProgramError::NotEnoughAccountKeys);
}

#[test]
fn error_code_conversions() {
    assert_eq!(ErrorCode::NotEnoughProfit.code(), 100);
    assert_eq!(ProgramError::from(ErrorCode::NotEnoughProfit), ProgramError::Custom(100));
    assert_eq!(ErrorCode::try_from(0u32), Ok(ErrorCode::NotEnoughProfit));
    assert_eq!(ErrorCode::try_from(100u32), Err(ProgramError::InvalidArgument));
    assert_eq!(ErrorCode::try_from(1u32), Err(ProgramError::InvalidArgument));
}

#[test]
fn balance_change_is_signed_and_exact() {
    assert_eq!(balance_change(200, 100), 100);
    assert_eq!(balance_change(100, 250), -150);
    assert_eq!(balance_change(0, u64::MAX), -(u64::MAX as i128));
}

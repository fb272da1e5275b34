use deepmind::{
    Address, BalanceChangeReason, Call, CallType, Context, GasChangeReason, Instrumentation,
    TracerError, TransactionTracer, H256, U256,
};

fn address(last: u8) -> Address {
    let mut bytes = [0u8; 20];
    bytes[19] = last;
    Address(bytes)
}

fn lines(expected: &[&str]) -> Vec<String> {
    expected.iter().map(|line| line.to_string()).collect()
}

fn tracer_in_call(context: &Context) -> TransactionTracer {
    let mut tracer = context.block_context().transaction_tracer(H256([0xaa; 32]));
    tracer.start_call(Call {
        call_type: CallType::Call,
        from: address(1),
        to: address(2),
        value: None,
        gas_limit: 1,
        input: None,
    });
    tracer
}

const ADDR: &str = "0000000000000000000000000000000000000042";

#[test]
fn balance_change_from_nothing_writes_a_dot_for_the_old_balance() {
    let context = Context::new(Instrumentation::Full);
    let mut tracer = tracer_in_call(&context);
    assert_eq!(
        tracer.record_balance_change(
            &address(0x42),
            &U256::zero(),
            &U256::from_u64(100),
            BalanceChangeReason::Transfer,
        ),
        Ok(vec![format!("DMLOG BALANCE_CHANGE 1 {} . 64 transfer", ADDR)])
    );
}

#[test]
fn balance_change_before_any_call_has_index_zero() {
    let context = Context::new(Instrumentation::Full);
    let mut tracer = context.block_context().transaction_tracer(H256::zero());
    assert_eq!(
        tracer.record_balance_change(
            &address(0x42),
            &U256::from_u64(1000),
            &U256::from_u64(900),
            BalanceChangeReason::GasBuy,
        ),
        Ok(vec![format!("DMLOG BALANCE_CHANGE 0 {} 3e8 384 gas_buy", ADDR)])
    );
}

#[test]
fn ignored_balance_change_is_left_out() {
    let context = Context::new(Instrumentation::Full);
    let mut tracer = tracer_in_call(&context);
    assert_eq!(
        tracer.record_balance_change(
            &address(0x42),
            &U256::zero(),
            &U256::from_u64(100),
            BalanceChangeReason::Ignored,
        ),
        Ok(Vec::new())
    );
}

#[test]
fn reserved_balance_reason_is_an_error() {
    let context = Context::new(Instrumentation::Full);
    let mut tracer = tracer_in_call(&context);
    assert_eq!(
        tracer.record_balance_change(
            &address(0x42),
            &U256::zero(),
            &U256::from_u64(100),
            BalanceChangeReason::CallBalanceOverride,
        ),
        Err(TracerError::ForbiddenReason)
    );
}

#[test]
fn large_balances_are_written_in_full() {
    let context = Context::new(Instrumentation::Full);
    let mut tracer = tracer_in_call(&context);
    let max = U256([u64::MAX, u64::MAX, u64::MAX, u64::MAX]);
    let mixed = U256([0x1, 0x0, 0xabc, 0x0]);
    assert_eq!(
        tracer.record_balance_change(&Address([0xff; 20]), &max, &mixed, BalanceChangeReason::Unknown),
        Ok(vec![format!(
            "DMLOG BALANCE_CHANGE 1 {} {} abc00000000000000000000000000000001 unknown",
            "ff".repeat(20),
            "f".repeat(64)
        )])
    );
    assert_eq!(
        format!("{:x}", ethereum_types::U256([0x1, 0x0, 0xabc, 0x0])),
        "abc00000000000000000000000000000001"
    );
}

#[test]
fn nonce_change_is_written_in_decimal() {
    let context = Context::new(Instrumentation::Full);
    let mut tracer = tracer_in_call(&context);
    assert_eq!(
        tracer.record_nonce_change(&address(0x42), &U256::zero(), &U256::from_u64(16)),
        vec![format!("DMLOG NONCE_CHANGE 1 {} 0 16", ADDR)]
    );
}

#[test]
fn storage_change_writes_key_and_both_values() {
    let context = Context::new(Instrumentation::Full);
    let mut tracer = tracer_in_call(&context);
    assert_eq!(
        tracer.record_storage_change(
            &address(0x42),
            &H256([0x01; 32]),
            &H256::zero(),
            &H256([0x02; 32]),
        ),
        vec![format!(
            "DMLOG STORAGE_CHANGE 1 {} {} . {}",
            ADDR,
            "01".repeat(32),
            "02".repeat(32)
        )]
    );
}

#[test]
fn code_change_puts_the_old_code_before_the_new_hash() {
    let context = Context::new(Instrumentation::Full);
    let mut tracer = tracer_in_call(&context);
    assert_eq!(
        tracer.record_code_change(
            &address(0x42),
            &H256([0x0a; 32]),
            &H256([0x0b; 32]),
            &[],
            &[0x60, 0x80],
        ),
        vec![format!(
            "DMLOG CODE_CHANGE 1 {} {} . {} 6080",
            ADDR,
            "0a".repeat(32),
            "0b".repeat(32)
        )]
    );
}

#[test]
fn suicide_writes_the_flag_and_the_balance() {
    let context = Context::new(Instrumentation::Full);
    let mut tracer = tracer_in_call(&context);
    assert_eq!(
        tracer.record_suicide(&address(0x42), false, &U256::from_u64(255)),
        vec![format!("DMLOG SUICIDE_CHANGE 1 {} false ff", ADDR)]
    );
    assert_eq!(
        tracer.record_suicide(&address(0x42), true, &U256::zero()),
        vec![format!("DMLOG SUICIDE_CHANGE 1 {} true .", ADDR)]
    );
}

#[test]
fn new_account_and_call_without_code() {
    let context = Context::new(Instrumentation::Full);
    let mut tracer = tracer_in_call(&context);
    assert_eq!(
        tracer.record_new_account(&address(0x42)),
        vec![format!("DMLOG CREATED_ACCOUNT 1 {}", ADDR)]
    );
    assert_eq!(
        tracer.record_new_account(&Address::zero()),
        lines(&["DMLOG CREATED_ACCOUNT 1 ."])
    );
    assert_eq!(
        tracer.record_call_without_code(),
        lines(&["DMLOG ACCOUNT_WITHOUT_CODE 1"])
    );
}

#[test]
fn keccak_writes_hash_and_preimage() {
    let context = Context::new(Instrumentation::Full);
    let mut tracer = tracer_in_call(&context);
    assert_eq!(
        tracer.record_keccak(&H256([0xc5; 32]), &[0x00, 0x01, 0x7f, 0x80, 0xff]),
        vec![format!("DMLOG EVM_KECCAK 1 {} 00017f80ff", "c5".repeat(32))]
    );
    assert_eq!(
        tracer.record_keccak(&H256([0xc5; 32]), &[]),
        vec![format!("DMLOG EVM_KECCAK 1 {} .", "c5".repeat(32))]
    );
}

#[test]
fn gas_consumed_is_taken_from_the_gas_left() {
    let context = Context::new(Instrumentation::Full);
    let mut tracer = tracer_in_call(&context);
    assert_eq!(
        tracer.record_gas_consume(1000, 300, GasChangeReason::CallDataCopy),
        lines(&["DMLOG GAS_CHANGE 1 1000 700 call_data_copy"])
    );
    assert_eq!(
        tracer.record_gas_consume(1000, 1000, GasChangeReason::SelfDestruct),
        lines(&["DMLOG GAS_CHANGE 1 1000 0 self_destruct"])
    );
}

#[test]
fn gas_change_by_zero_is_left_out() {
    let context = Context::new(Instrumentation::Full);
    let mut tracer = tracer_in_call(&context);
    assert_eq!(
        tracer.record_gas_consume(1000, 0, GasChangeReason::Call),
        Vec::<String>::new()
    );
    assert_eq!(tracer.record_gas_refund(1000, 0), Vec::<String>::new());
    assert_eq!(
        tracer.record_gas_consume(0, 0, GasChangeReason::Ignored),
        Vec::<String>::new()
    );
}

#[test]
fn ignored_gas_change_is_left_out() {
    let context = Context::new(Instrumentation::Full);
    let mut tracer = tracer_in_call(&context);
    assert_eq!(
        tracer.record_gas_consume(1000, 10, GasChangeReason::Ignored),
        Vec::<String>::new()
    );
}

#[test]
fn gas_refund_is_added_to_the_gas_left() {
    let context = Context::new(Instrumentation::Full);
    let mut tracer = tracer_in_call(&context);
    assert_eq!(
        tracer.record_gas_refund(1000, 24),
        lines(&["DMLOG GAS_CHANGE 1 1000 1024 refund_after_execution"])
    );
}

#[test]
fn changes_follow_the_active_call() {
    let context = Context::new(Instrumentation::Full);
    let mut tracer = tracer_in_call(&context);
    tracer.start_call(Call {
        call_type: CallType::Call,
        from: address(1),
        to: address(2),
        value: None,
        gas_limit: 1,
        input: None,
    });
    assert_eq!(
        tracer.record_call_without_code(),
        lines(&["DMLOG ACCOUNT_WITHOUT_CODE 2"])
    );
    tracer.end_call(&U256::zero(), None).unwrap();
    assert_eq!(
        tracer.record_call_without_code(),
        lines(&["DMLOG ACCOUNT_WITHOUT_CODE 1"])
    );
    tracer.end_call(&U256::zero(), None).unwrap();
    assert_eq!(
        tracer.record_call_without_code(),
        lines(&["DMLOG ACCOUNT_WITHOUT_CODE 0"])
    );
}

#[test]
fn discarding_sink_writes_no_change() {
    let context = Context::noop();
    let mut tracer = tracer_in_call(&context);
    assert_eq!(
        tracer.record_balance_change(
            &address(0x42),
            &U256::zero(),
            &U256::from_u64(100),
            BalanceChangeReason::Transfer,
        ),
        Ok(Vec::new())
    );
    assert_eq!(
        tracer.record_balance_change(
            &address(0x42),
            &U256::zero(),
            &U256::from_u64(100),
            BalanceChangeReason::CallBalanceOverride,
        ),
        Err(TracerError::ForbiddenReason)
    );
    assert_eq!(
        tracer.record_gas_consume(10, 5, GasChangeReason::Call),
        Vec::<String>::new()
    );
    assert_eq!(tracer.record_call_without_code(), Vec::<String>::new());
}

use deepmind::{
    Address, Call, CallType, Context, Instrumentation, TracerError, TransactionTracer, H256, U256,
};

fn address(last: u8) -> Address {
    let mut bytes = [0u8; 20];
    bytes[19] = last;
    Address(bytes)
}

fn tracer_on(context: &Context) -> TransactionTracer {
    context.block_context().transaction_tracer(H256([0xaa; 32]))
}

fn call<'a>(call_type: CallType) -> Call<'a> {
    Call {
        call_type,
        from: address(0x0a),
        to: address(0x0b),
        value: Some(U256::from_u64(100)),
        gas_limit: 21000,
        input: None,
    }
}

fn lines(expected: &[&str]) -> Vec<String> {
    expected.iter().map(|line| line.to_string()).collect()
}

#[test]
fn first_call_of_a_transaction_has_index_one() {
    let context = Context::new(Instrumentation::Full);
    let mut tracer = tracer_on(&context);
    assert_eq!(tracer.active_call_index(), 0);
    let out = tracer.start_call(Call {
        call_type: CallType::Call,
        from: address(0x0a),
        to: address(0x0b),
        value: Some(U256::from_u64(100)),
        gas_limit: 21000,
        input: Some(&[]),
    });
    assert_eq!(
        out,
        lines(&[
            "DMLOG EVM_RUN_CALL CALL 1",
            "DMLOG EVM_PARAM CALL 1 000000000000000000000000000000000000000a 000000000000000000000000000000000000000b 64 21000 .",
        ])
    );
    assert_eq!(tracer.active_call_index(), 1);
}

#[test]
fn call_without_value_or_input_writes_dots() {
    let context = Context::new(Instrumentation::Full);
    let mut tracer = tracer_on(&context);
    let out = tracer.start_call(Call {
        call_type: CallType::StaticCall,
        from: address(1),
        to: Address::zero(),
        value: None,
        gas_limit: 0,
        input: None,
    });
    assert_eq!(
        out,
        lines(&[
            "DMLOG EVM_RUN_CALL STATIC 1",
            "DMLOG EVM_PARAM STATIC 1 0000000000000000000000000000000000000001 . . 0 .",
        ])
    );
}

#[test]
fn call_with_input_writes_its_digits() {
    let context = Context::new(Instrumentation::Full);
    let mut tracer = tracer_on(&context);
    let input = [0xde, 0xad, 0x00, 0x0f];
    let out = tracer.start_call(Call {
        call_type: CallType::Create2,
        from: address(1),
        to: address(2),
        value: Some(U256::zero()),
        gas_limit: 18446744073709551615,
        input: Some(&input),
    });
    assert_eq!(out[0], "DMLOG EVM_RUN_CALL CREATE 1");
    assert_eq!(
        out[1],
        "DMLOG EVM_PARAM CREATE 1 0000000000000000000000000000000000000001 0000000000000000000000000000000000000002 . 18446744073709551615 dead000f"
    );
}

#[test]
fn indices_follow_the_tree_of_calls() {
    let context = Context::new(Instrumentation::Full);
    let mut tracer = tracer_on(&context);
    let gas = U256::from_u64(7);
    let mut seen: Vec<String> = Vec::new();
    seen.push(tracer.start_call(call(CallType::Call))[0].clone());
    seen.push(tracer.start_call(call(CallType::DelegateCall))[0].clone());
    seen.push(tracer.start_call(call(CallType::CallCode))[0].clone());
    assert_eq!(tracer.active_call_index(), 3);
    seen.extend(tracer.end_call(&gas, None).unwrap());
    seen.extend(tracer.end_call(&gas, None).unwrap());
    assert_eq!(tracer.active_call_index(), 1);
    seen.push(tracer.start_call(call(CallType::Create))[0].clone());
    assert_eq!(tracer.active_call_index(), 4);
    seen.extend(tracer.end_call(&gas, None).unwrap());
    seen.extend(tracer.end_call(&gas, None).unwrap());
    assert_eq!(
        seen,
        lines(&[
            "DMLOG EVM_RUN_CALL CALL 1",
            "DMLOG EVM_RUN_CALL DELEGATE 2",
            "DMLOG EVM_RUN_CALL CALLCODE 3",
            "DMLOG EVM_END_CALL 3 7 .",
            "DMLOG EVM_END_CALL 2 7 .",
            "DMLOG EVM_RUN_CALL CREATE 4",
            "DMLOG EVM_END_CALL 4 7 .",
            "DMLOG EVM_END_CALL 1 7 .",
        ])
    );
}

#[test]
fn active_index_is_zero_before_and_after_the_calls() {
    let context = Context::new(Instrumentation::Full);
    let mut tracer = tracer_on(&context);
    assert_eq!(tracer.active_call_index(), 0);
    tracer.start_call(call(CallType::Call));
    tracer.start_call(call(CallType::Call));
    assert_eq!(tracer.active_call_index(), 2);
    tracer.end_call(&U256::zero(), None).unwrap();
    tracer.end_call(&U256::zero(), None).unwrap();
    assert_eq!(tracer.active_call_index(), 0);
}

#[test]
fn end_call_without_a_call_is_an_error() {
    let context = Context::new(Instrumentation::Full);
    let mut tracer = tracer_on(&context);
    assert_eq!(
        tracer.end_call(&U256::zero(), None),
        Err(TracerError::CallStackEmpty)
    );
    tracer.start_call(call(CallType::Call));
    assert!(tracer.end_call(&U256::zero(), None).is_ok());
    assert_eq!(
        tracer.end_call(&U256::zero(), None),
        Err(TracerError::CallStackEmpty)
    );
}

#[test]
fn end_call_writes_the_returned_bytes() {
    let context = Context::new(Instrumentation::Full);
    let mut tracer = tracer_on(&context);
    tracer.start_call(call(CallType::Call));
    let returned = [0x01, 0xff];
    assert_eq!(
        tracer.end_call(&U256::from_u64(1234), Some(&returned)),
        Ok(lines(&["DMLOG EVM_END_CALL 1 1234 01ff"]))
    );
    tracer.start_call(call(CallType::Call));
    assert_eq!(
        tracer.end_call(&U256::from_u64(0), Some(&[])),
        Ok(lines(&["DMLOG EVM_END_CALL 2 0 ."]))
    );
}

#[test]
fn second_failure_without_a_close_is_an_error() {
    let context = Context::new(Instrumentation::Full);
    let mut tracer = tracer_on(&context);
    tracer.start_call(call(CallType::Call));
    assert!(!tracer.seen_failed_call());
    assert_eq!(
        tracer.failed_call(&U256::from_u64(500), "OutOfGas".to_string()),
        Ok(lines(&["DMLOG EVM_CALL_FAILED 1 500 OutOfGas"]))
    );
    assert!(tracer.seen_failed_call());
    assert_eq!(
        tracer.failed_call(&U256::from_u64(400), "BadInstruction".to_string()),
        Err(TracerError::FailureAlreadyPending)
    );
    assert!(tracer.seen_failed_call());
}

#[test]
fn closing_a_failed_call_without_a_failure_is_an_error() {
    let context = Context::new(Instrumentation::Full);
    let mut tracer = tracer_on(&context);
    assert_eq!(
        tracer.end_failed_call("test"),
        Err(TracerError::NoPendingFailure)
    );
    tracer.start_call(call(CallType::Call));
    assert_eq!(
        tracer.end_failed_call("test"),
        Err(TracerError::NoPendingFailure)
    );
    assert_eq!(tracer.active_call_index(), 1);
}

#[test]
fn closing_a_failed_call_without_a_call_is_an_error() {
    let context = Context::new(Instrumentation::Full);
    let mut tracer = tracer_on(&context);
    tracer
        .failed_call(&U256::from_u64(5), "OutOfGas".to_string())
        .unwrap();
    assert_eq!(
        tracer.end_failed_call("test"),
        Err(TracerError::CallStackEmpty)
    );
    assert!(tracer.seen_failed_call());
}

#[test]
fn failed_call_is_closed_with_its_gas_consumed() {
    let context = Context::new(Instrumentation::Full);
    let mut tracer = tracer_on(&context);
    tracer.start_call(call(CallType::Call));
    assert_eq!(
        tracer.failed_call(&U256::from_u64(500), "OutOfGas".to_string()),
        Ok(lines(&["DMLOG EVM_CALL_FAILED 1 500 OutOfGas"]))
    );
    assert_eq!(
        tracer.end_failed_call("test"),
        Ok(lines(&[
            "DMLOG GAS_CHANGE 1 500 0 failed_execution",
            "DMLOG EVM_END_CALL 1 0 .",
        ]))
    );
    assert!(!tracer.seen_failed_call());
    assert_eq!(tracer.active_call_index(), 0);
    assert_eq!(
        tracer.end_failed_call("test"),
        Err(TracerError::NoPendingFailure)
    );
}

#[test]
fn failed_call_with_no_gas_left_is_closed_without_a_gas_change() {
    let context = Context::new(Instrumentation::Full);
    let mut tracer = tracer_on(&context);
    tracer.start_call(call(CallType::Call));
    tracer.start_call(call(CallType::Call));
    tracer
        .failed_call(&U256::zero(), "OutOfGas".to_string())
        .unwrap();
    assert_eq!(
        tracer.end_failed_call("test"),
        Ok(lines(&["DMLOG EVM_END_CALL 2 0 ."]))
    );
    assert_eq!(tracer.active_call_index(), 1);
}

#[test]
fn revert_is_recorded_and_leaves_the_call_open() {
    let context = Context::new(Instrumentation::Full);
    let mut tracer = tracer_on(&context);
    tracer.start_call(call(CallType::Call));
    assert_eq!(
        tracer.reverted_call(&U256::from_u64(77)),
        lines(&["DMLOG EVM_CALL_FAILED 1 77 Reverted", "DMLOG EVM_REVERTED 1"])
    );
    assert_eq!(tracer.active_call_index(), 1);
    assert!(!tracer.seen_failed_call());
    assert_eq!(
        tracer.end_call(&U256::from_u64(77), None),
        Ok(lines(&["DMLOG EVM_END_CALL 1 77 ."]))
    );
}

#[test]
fn gas_events_link_the_child_that_is_about_to_open() {
    let context = Context::new(Instrumentation::Full);
    let mut tracer = tracer_on(&context);
    tracer.start_call(call(CallType::Call));
    assert_eq!(
        tracer.record_before_call_gas_event(700),
        lines(&["DMLOG GAS_EVENT 1 2 before_call 700"])
    );
    tracer.start_call(call(CallType::Call));
    assert_eq!(
        tracer.record_before_call_gas_event(300),
        lines(&["DMLOG GAS_EVENT 2 3 before_call 300"])
    );
    tracer.start_call(call(CallType::Call));
    tracer.end_call(&U256::zero(), None).unwrap();
    assert_eq!(
        tracer.record_after_call_gas_event(250),
        Ok(lines(&["DMLOG GAS_EVENT 2 3 after_call 250"]))
    );
    tracer.end_call(&U256::zero(), None).unwrap();
    assert_eq!(
        tracer.record_after_call_gas_event(600),
        Ok(lines(&["DMLOG GAS_EVENT 1 2 after_call 600"]))
    );
    assert_eq!(
        tracer.record_after_call_gas_event(1),
        Err(TracerError::GasEventStackEmpty)
    );
}

#[test]
fn discarding_context_writes_nothing_and_counts_all_the_same() {
    let context = Context::noop();
    let mut tracer = tracer_on(&context);
    assert_eq!(tracer.start_call(call(CallType::Call)), Vec::<String>::new());
    assert_eq!(tracer.active_call_index(), 1);
    assert_eq!(
        tracer.failed_call(&U256::from_u64(9), "OutOfGas".to_string()),
        Ok(Vec::new())
    );
    assert_eq!(
        tracer.failed_call(&U256::from_u64(9), "OutOfGas".to_string()),
        Err(TracerError::FailureAlreadyPending)
    );
    assert_eq!(tracer.end_failed_call("test"), Ok(Vec::new()));
    assert_eq!(tracer.active_call_index(), 0);
}

#[test]
fn diagnostic_message_tells_where_the_tracer_stands() {
    let context = Context::new(Instrumentation::Full);
    let mut tracer = tracer_on(&context);
    assert_eq!(
        tracer.debug("hello there".to_string()),
        lines(&["DMDEBUG CONTEXT active_call_index=0 last_pop_call_index=0 message=hello there"])
    );
    tracer.start_call(call(CallType::Call));
    tracer.start_call(call(CallType::Call));
    tracer.end_call(&U256::zero(), None).unwrap();
    assert_eq!(
        tracer.debug("x".to_string()),
        lines(&["DMDEBUG CONTEXT active_call_index=1 last_pop_call_index=2 message=x"])
    );
    assert!(tracer.is_enabled());
}

#[test]
fn gas_event_after_a_sibling_links_the_next_index() {
    let context = Context::new(Instrumentation::Full);
    let mut tracer = tracer_on(&context);
    tracer.start_call(call(CallType::Call));
    tracer.start_call(call(CallType::Call));
    tracer.end_call(&U256::zero(), None).unwrap();
    assert_eq!(tracer.active_call_index(), 1);
    assert_eq!(tracer.call_index(), 2);
    assert_eq!(
        tracer.record_before_call_gas_event(50),
        lines(&["DMLOG GAS_EVENT 1 3 before_call 50"])
    );
    assert_eq!(
        tracer.start_call(call(CallType::Call))[0],
        "DMLOG EVM_RUN_CALL CALL 3"
    );
    tracer.end_call(&U256::zero(), None).unwrap();
    assert_eq!(
        tracer.record_after_call_gas_event(40),
        Ok(lines(&["DMLOG GAS_EVENT 1 3 after_call 40"]))
    );
}

#[test]
fn gas_event_before_any_call_belongs_to_index_zero() {
    let context = Context::new(Instrumentation::Full);
    let mut tracer = tracer_on(&context);
    assert_eq!(
        tracer.record_before_call_gas_event(0),
        lines(&["DMLOG GAS_EVENT 0 1 before_call 0"])
    );
    assert_eq!(
        tracer.reverted_call(&U256::zero()),
        lines(&["DMLOG EVM_CALL_FAILED 0 0 Reverted", "DMLOG EVM_REVERTED 0"])
    );
}

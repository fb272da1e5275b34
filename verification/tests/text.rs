use deepmind::format::{
    address_text, bool_text, bytes_text, decimal_string, h256_text, hex_string, hex_text,
    join_texts, u256_hex, u256_text,
};
use deepmind::json::json_bytes_text;
use deepmind::primitives::bytes_are_zero;
use deepmind::{
    Address, BalanceChangeReason, CallType, DiscardPrinter, GasChangeReason, IoPrinter, Printer,
    TracerError, H256, H64, U256,
};
use rustc_hex::ToHex;

#[test]
fn decimal_numerals() {
    assert_eq!(decimal_string(0), "0");
    assert_eq!(decimal_string(9), "9");
    assert_eq!(decimal_string(10), "10");
    assert_eq!(decimal_string(21000), "21000");
    assert_eq!(decimal_string(u64::MAX), "18446744073709551615");
    for n in [1u64, 99, 100, 101, 4294967296, 1000000007] {
        assert_eq!(decimal_string(n), n.to_string());
    }
}

#[test]
fn hexadecimal_numerals() {
    assert_eq!(hex_string(0), "0");
    assert_eq!(hex_string(15), "f");
    assert_eq!(hex_string(16), "10");
    assert_eq!(hex_string(100), "64");
    assert_eq!(hex_string(u64::MAX), "ffffffffffffffff");
    for n in [1u64, 27, 28, 255, 256, 0xdeadbeef] {
        assert_eq!(hex_string(n), format!("{:x}", n));
    }
}

#[test]
fn bytes_are_written_two_digits_each() {
    assert_eq!(hex_text(&[]), "");
    assert_eq!(hex_text(&[0x00]), "00");
    assert_eq!(hex_text(&[0x0a, 0xb0, 0xff]), "0ab0ff");
    let all: Vec<u8> = (0..=255).collect();
    assert_eq!(hex_text(&all), all.to_hex::<String>());
    assert_eq!(hex_text(&all).len(), 512);
}

#[test]
fn empty_bytes_are_a_dot() {
    assert_eq!(bytes_text(&[]), ".");
    assert_eq!(bytes_text(&[0]), "00");
    assert_eq!(bytes_text(&[0, 0]), "0000");
    assert_eq!(bytes_text(&[0x12, 0x34]), "1234");
}

#[test]
fn zero_address_is_a_dot() {
    assert_eq!(address_text(&Address::zero()), ".");
    assert_eq!(address_text(&Address([0; 20])), ".");
    let mut bytes = [0u8; 20];
    bytes[0] = 0x10;
    assert_eq!(
        address_text(&Address(bytes)),
        "1000000000000000000000000000000000000000"
    );
    assert_eq!(
        address_text(&Address(bytes)),
        format!("{:x}", ethereum_types::Address::from(bytes))
    );
}

#[test]
fn zero_hash_is_a_dot() {
    assert_eq!(h256_text(&H256::zero()), ".");
    let mut bytes = [0u8; 32];
    bytes[31] = 1;
    assert_eq!(h256_text(&H256(bytes)), format!("{}01", "00".repeat(31)));
    assert_eq!(
        h256_text(&H256(bytes)),
        format!("{:x}", ethereum_types::H256(bytes))
    );
    assert_eq!(H256::zero().to_hex(), "00".repeat(32));
    assert_eq!(H256(bytes).to_hex(), format!("{}01", "00".repeat(31)));
}

#[test]
fn zero_number_is_a_dot() {
    assert_eq!(u256_text(&U256::zero()), ".");
    assert_eq!(u256_text(&U256::from_u64(100)), "64");
    assert_eq!(u256_text(&U256([0, 0, 0, 1])), format!("1{}", "0".repeat(48)));
    assert_eq!(u256_hex(&U256::zero()), "0");
    assert_eq!(u256_hex(&U256::from_u64(255)), "ff");
    for limbs in [[5u64, 0, 0, 0], [0, 7, 0, 0], [u64::MAX, 1, 2, 3], [0, 0, 0x10, 0]] {
        assert_eq!(
            u256_text(&U256(limbs)),
            format!("{:x}", ethereum_types::U256(limbs))
        );
    }
}

#[test]
fn numbers_know_whether_they_fit_in_64_bits() {
    assert!(U256::zero().is_zero());
    assert!(!U256::from_u64(1).is_zero());
    assert!(!U256([0, 0, 0, 1]).is_zero());
    assert!(U256::from_u64(u64::MAX).is_u64());
    assert!(!U256([0, 1, 0, 0]).is_u64());
    assert!(!U256([0, 0, 1, 0]).is_u64());
    assert!(!U256([0, 0, 0, 1]).is_u64());
    assert_eq!(U256::from_u64(12345).as_u64(), 12345);
    assert_eq!(U256::from_u64(u64::MAX).as_u64(), u64::MAX);
    assert_eq!(
        ethereum_types::U256(U256::from_u64(77).0),
        ethereum_types::U256::from(77u64)
    );
}

#[test]
fn zero_bytes_are_recognised() {
    assert!(bytes_are_zero(&[]));
    assert!(bytes_are_zero(&[0, 0, 0]));
    assert!(!bytes_are_zero(&[0, 0, 1]));
    assert!(!bytes_are_zero(&[1, 0, 0]));
    assert!(Address::zero().is_zero());
    assert!(H256::zero().is_zero());
    assert!(!H256([1; 32]).is_zero());
    assert_eq!(Address([3; 20]).as_bytes(), &[3u8; 20]);
    assert_eq!(H256([4; 32]).as_bytes(), &[4u8; 32]);
    assert_eq!(H64([5; 8]).as_bytes(), &[5u8; 8]);
}

#[test]
fn booleans_are_words() {
    assert_eq!(bool_text(true), "true");
    assert_eq!(bool_text(false), "false");
}

#[test]
fn texts_are_joined_with_a_separator() {
    assert_eq!(join_texts(&Vec::new(), ","), "");
    assert_eq!(join_texts(&vec!["a".to_string()], ","), "a");
    assert_eq!(
        join_texts(&vec!["a".to_string(), "".to_string(), "c".to_string()], ", "),
        "a, , c"
    );
}

#[test]
fn bytes_inside_json_have_a_prefix_and_no_dot() {
    assert_eq!(json_bytes_text(&[]), "\"0x\"");
    assert_eq!(json_bytes_text(&[0, 0]), "\"0x0000\"");
    assert_eq!(json_bytes_text(&[0xab]), "\"0xab\"");
    assert_eq!(
        json_bytes_text(&[0xab, 0xcd]),
        serde_json::to_string("0xabcd").unwrap()
    );
}

#[test]
fn balance_reasons_have_their_tokens() {
    let expected = [
        (BalanceChangeReason::Unknown, "unknown"),
        (BalanceChangeReason::RewardMineUncle, "reward_mine_uncle"),
        (BalanceChangeReason::RewardMineBlock, "reward_mine_block"),
        (BalanceChangeReason::DaoRefundContract, "dao_refund_contract"),
        (BalanceChangeReason::DaoAdjustBalance, "dao_adjust_balance"),
        (BalanceChangeReason::Transfer, "transfer"),
        (BalanceChangeReason::GenesisBalance, "genesis_balance"),
        (BalanceChangeReason::GasBuy, "gas_buy"),
        (BalanceChangeReason::RewardTransactionFee, "reward_transaction_fee"),
        (BalanceChangeReason::GasRefund, "gas_refund"),
        (BalanceChangeReason::TouchAccount, "touch_account"),
        (BalanceChangeReason::SuicideRefund, "suicide_refund"),
        (BalanceChangeReason::SuicideWithdraw, "suicide_withdraw"),
    ];
    for (reason, token) in expected {
        assert_eq!(reason.as_str(), Ok(token));
        assert_eq!(reason.to_text(), Ok(token.to_string()));
        assert_eq!(reason.to_text(), reason.to_text());
    }
    for (i, (_, a)) in expected.iter().enumerate() {
        for (j, (_, b)) in expected.iter().enumerate() {
            assert_eq!(i == j, a == b);
        }
    }
}

#[test]
fn balance_reasons_that_are_never_written_are_errors() {
    assert_eq!(
        BalanceChangeReason::CallBalanceOverride.as_str(),
        Err(TracerError::ForbiddenReason)
    );
    assert_eq!(
        BalanceChangeReason::Ignored.as_str(),
        Err(TracerError::ForbiddenReason)
    );
    assert_eq!(
        BalanceChangeReason::CallBalanceOverride.to_text(),
        Err(TracerError::ForbiddenReason)
    );
    assert_eq!(
        BalanceChangeReason::Ignored.to_text(),
        Err(TracerError::ForbiddenReason)
    );
}

#[test]
fn gas_reasons_have_their_tokens() {
    let expected = [
        (GasChangeReason::Unknown, "unknown"),
        (GasChangeReason::Call, "call"),
        (GasChangeReason::CallCode, "call_code"),
        (GasChangeReason::CallDataCopy, "call_data_copy"),
        (GasChangeReason::CodeCopy, "code_copy"),
        (GasChangeReason::CodeStorage, "code_storage"),
        (GasChangeReason::ContractCreation, "contract_creation"),
        (GasChangeReason::ContractCreation2, "contract_creation2"),
        (GasChangeReason::DelegateCall, "delegate_call"),
        (GasChangeReason::EventLog, "event_log"),
        (GasChangeReason::ExtCodeCopy, "ext_code_copy"),
        (GasChangeReason::FailedExecution, "failed_execution"),
        (GasChangeReason::IntrinsicGas, "intrinsic_gas"),
        (GasChangeReason::PrecompiledContract, "precompiled_contract"),
        (GasChangeReason::RefundAfterExecution, "refund_after_execution"),
        (GasChangeReason::Return, "return"),
        (GasChangeReason::ReturnDataCopy, "return_data_copy"),
        (GasChangeReason::Revert, "revert"),
        (GasChangeReason::SelfDestruct, "self_destruct"),
        (GasChangeReason::StaticCall, "static_call"),
        (GasChangeReason::StateColdAccess, "state_cold_access"),
    ];
    for (reason, token) in expected {
        assert_eq!(reason.as_str(), Ok(token));
        assert_eq!(reason.to_text(), Ok(token.to_string()));
    }
    for (i, (_, a)) in expected.iter().enumerate() {
        for (j, (_, b)) in expected.iter().enumerate() {
            assert_eq!(i == j, a == b);
        }
    }
    assert_eq!(
        GasChangeReason::Ignored.as_str(),
        Err(TracerError::ForbiddenReason)
    );
    assert_eq!(
        GasChangeReason::Ignored.to_text(),
        Err(TracerError::ForbiddenReason)
    );
}

#[test]
fn call_types_have_their_tokens() {
    assert_eq!(CallType::Call.as_str(), "CALL");
    assert_eq!(CallType::CallCode.as_str(), "CALLCODE");
    assert_eq!(CallType::Create.as_str(), "CREATE");
    assert_eq!(CallType::Create2.as_str(), "CREATE");
    assert_eq!(CallType::DelegateCall.as_str(), "DELEGATE");
    assert_eq!(CallType::StaticCall.as_str(), "STATIC");
    assert_eq!(CallType::StaticCall.to_text(), "STATIC".to_string());
}

#[test]
fn sinks_tag_or_drop_their_lines() {
    let io = IoPrinter {};
    assert_eq!(io.print("BEGIN_BLOCK 1"), Some("DMLOG BEGIN_BLOCK 1".to_string()));
    assert_eq!(io.print(""), Some("DMLOG ".to_string()));
    assert_eq!(io.debug("look"), Some("DMDEBUG look".to_string()));
    let discard = DiscardPrinter {};
    assert_eq!(discard.print("BEGIN_BLOCK 1"), None);
    assert_eq!(discard.debug("look"), None);
}

#[test]
fn errors_have_messages() {
    let all = [
        TracerError::CallStackEmpty,
        TracerError::FailureAlreadyPending,
        TracerError::NoPendingFailure,
        TracerError::GasEventStackEmpty,
        TracerError::ForbiddenReason,
    ];
    for (i, a) in all.iter().enumerate() {
        assert!(!a.message().is_empty());
        for (j, b) in all.iter().enumerate() {
            assert_eq!(i == j, a.message() == b.message());
        }
    }
    assert_eq!(
        TracerError::CallStackEmpty.message(),
        "There should always be a call in our call index stack"
    );
}

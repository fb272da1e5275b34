//! The closed sets of reasons and call kinds, each with its fixed token.

use crate::error::TracerError;
use vstd::prelude::*;
use vstd::string::StringExecFns;

verus! {

/// Why a balance changed.
#[derive(Clone, Copy, Debug, PartialEq, Eq, Structural)]
pub enum BalanceChangeReason {
    Unknown,
    RewardMineUncle,
    RewardMineBlock,
    DaoRefundContract,
    DaoAdjustBalance,
    Transfer,
    GenesisBalance,
    GasBuy,
    RewardTransactionFee,
    GasRefund,
    TouchAccount,
    SuicideRefund,
    SuicideWithdraw,
    /// Reserved; never written.
    CallBalanceOverride,
    /// Asks that the change be left out of the transcript; never written.
    Ignored,
}

impl BalanceChangeReason {
    /// Whether the reason may be written at all.
    pub open spec fn is_writable(self) -> bool {
        self != BalanceChangeReason::CallBalanceOverride && self != BalanceChangeReason::Ignored
    }

    /// The token of a reason; for the two that are never written, the empty text.
    pub open spec fn token(self) -> Seq<char> {
        match self {
            BalanceChangeReason::Unknown => "unknown"@,
            BalanceChangeReason::RewardMineUncle => "reward_mine_uncle"@,
            BalanceChangeReason::RewardMineBlock => "reward_mine_block"@,
            BalanceChangeReason::DaoRefundContract => "dao_refund_contract"@,
            BalanceChangeReason::DaoAdjustBalance => "dao_adjust_balance"@,
            BalanceChangeReason::Transfer => "transfer"@,
            BalanceChangeReason::GenesisBalance => "genesis_balance"@,
            BalanceChangeReason::GasBuy => "gas_buy"@,
            BalanceChangeReason::RewardTransactionFee => "reward_transaction_fee"@,
            BalanceChangeReason::GasRefund => "gas_refund"@,
            BalanceChangeReason::TouchAccount => "touch_account"@,
            BalanceChangeReason::SuicideRefund => "suicide_refund"@,
            BalanceChangeReason::SuicideWithdraw => "suicide_withdraw"@,
            BalanceChangeReason::CallBalanceOverride => Seq::empty(),
            BalanceChangeReason::Ignored => Seq::empty(),
        }
    }

    /// The token of the reason, or an error for a reason that is never written.
    pub fn as_str(&self) -> (r: Result<&'static str, TracerError>)
        ensures
            self.is_writable() ==> r is Ok && r->Ok_0@ == self.token(),
            !self.is_writable() ==> r == Err::<&'static str, TracerError>(
                TracerError::ForbiddenReason,
            ),
    {
        match self {
            BalanceChangeReason::Unknown => Ok("unknown"),
            BalanceChangeReason::RewardMineUncle => Ok("reward_mine_uncle"),
            BalanceChangeReason::RewardMineBlock => Ok("reward_mine_block"),
            BalanceChangeReason::DaoRefundContract => Ok("dao_refund_contract"),
            BalanceChangeReason::DaoAdjustBalance => Ok("dao_adjust_balance"),
            BalanceChangeReason::Transfer => Ok("transfer"),
            BalanceChangeReason::GenesisBalance => Ok("genesis_balance"),
            BalanceChangeReason::GasBuy => Ok("gas_buy"),
            BalanceChangeReason::RewardTransactionFee => Ok("reward_transaction_fee"),
            BalanceChangeReason::GasRefund => Ok("gas_refund"),
            BalanceChangeReason::TouchAccount => Ok("touch_account"),
            BalanceChangeReason::SuicideRefund => Ok("suicide_refund"),
            BalanceChangeReason::SuicideWithdraw => Ok("suicide_withdraw"),
            BalanceChangeReason::CallBalanceOverride => Err(TracerError::ForbiddenReason),
            BalanceChangeReason::Ignored => Err(TracerError::ForbiddenReason),
        }
    }

    /// The token of the reason as an owned text.
    pub fn to_text(&self) -> (r: Result<String, TracerError>)
        ensures
            self.is_writable() ==> r is Ok && r->Ok_0@ == self.token(),
            !self.is_writable() ==> r is Err && r->Err_0 == TracerError::ForbiddenReason,
    {
        match self.as_str() {
            Ok(token) => Ok(String::from_str(token)),
            Err(e) => Err(e),
        }
    }
}

/// A balance reason that may be written always has the same token, and no two
/// of them share one: reasons with equal tokens are equal.
pub proof fn law_balance_reason_tokens_injective(a: BalanceChangeReason, b: BalanceChangeReason)
    requires
        a.is_writable(),
        b.is_writable(),
        a.token() == b.token(),
    ensures
        a == b,
{
    reveal_strlit("unknown");
    reveal_strlit("reward_mine_uncle");
    reveal_strlit("reward_mine_block");
    reveal_strlit("dao_refund_contract");
    reveal_strlit("dao_adjust_balance");
    reveal_strlit("transfer");
    reveal_strlit("genesis_balance");
    reveal_strlit("gas_buy");
    reveal_strlit("reward_transaction_fee");
    reveal_strlit("gas_refund");
    reveal_strlit("touch_account");
    reveal_strlit("suicide_refund");
    reveal_strlit("suicide_withdraw");
    assert("unknown"@.len() == 7 && "unknown"@[0] == 'u');
    assert("gas_buy"@.len() == 7 && "gas_buy"@[0] == 'g');
    assert("transfer"@.len() == 8);
    assert("gas_refund"@.len() == 10);
    assert("touch_account"@.len() == 13);
    assert("suicide_refund"@.len() == 14);
    assert("genesis_balance"@.len() == 15);
    assert("suicide_withdraw"@.len() == 16);
    assert("reward_mine_uncle"@.len() == 17 && "reward_mine_uncle"@[12] == 'u');
    assert("reward_mine_block"@.len() == 17 && "reward_mine_block"@[12] == 'b');
    assert("dao_adjust_balance"@.len() == 18);
    assert("dao_refund_contract"@.len() == 19);
    assert("reward_transaction_fee"@.len() == 22);
}

/// The token of a balance reason that may be written is never empty.
pub proof fn law_balance_reason_token_nonempty(a: BalanceChangeReason)
    requires
        a.is_writable(),
    ensures
        a.token().len() > 0,
{
    reveal_strlit("unknown");
    reveal_strlit("reward_mine_uncle");
    reveal_strlit("reward_mine_block");
    reveal_strlit("dao_refund_contract");
    reveal_strlit("dao_adjust_balance");
    reveal_strlit("transfer");
    reveal_strlit("genesis_balance");
    reveal_strlit("gas_buy");
    reveal_strlit("reward_transaction_fee");
    reveal_strlit("gas_refund");
    reveal_strlit("touch_account");
    reveal_strlit("suicide_refund");
    reveal_strlit("suicide_withdraw");
}

/// Why the gas of a call changed.
#[derive(Clone, Copy, Debug, PartialEq, Eq, Structural)]
pub enum GasChangeReason {
    Unknown,
    Call,
    CallCode,
    CallDataCopy,
    CodeCopy,
    CodeStorage,
    ContractCreation,
    ContractCreation2,
    DelegateCall,
    EventLog,
    ExtCodeCopy,
    FailedExecution,
    IntrinsicGas,
    PrecompiledContract,
    RefundAfterExecution,
    Return,
    ReturnDataCopy,
    Revert,
    SelfDestruct,
    StaticCall,
    StateColdAccess,
    /// Asks that the change be left out of the transcript; never written.
    Ignored,
}

impl GasChangeReason {
    /// Whether the reason may be written at all.
    pub open spec fn is_writable(self) -> bool {
        self != GasChangeReason::Ignored
    }

    /// The token of a reason; for the one that is never written, the empty text.
    pub open spec fn token(self) -> Seq<char> {
        match self {
            GasChangeReason::Unknown => "unknown"@,
            GasChangeReason::Call => "call"@,
            GasChangeReason::CallCode => "call_code"@,
            GasChangeReason::CallDataCopy => "call_data_copy"@,
            GasChangeReason::CodeCopy => "code_copy"@,
            GasChangeReason::CodeStorage => "code_storage"@,
            GasChangeReason::ContractCreation => "contract_creation"@,
            GasChangeReason::ContractCreation2 => "contract_creation2"@,
            GasChangeReason::DelegateCall => "delegate_call"@,
            GasChangeReason::EventLog => "event_log"@,
            GasChangeReason::ExtCodeCopy => "ext_code_copy"@,
            GasChangeReason::FailedExecution => "failed_execution"@,
            GasChangeReason::IntrinsicGas => "intrinsic_gas"@,
            GasChangeReason::PrecompiledContract => "precompiled_contract"@,
            GasChangeReason::RefundAfterExecution => "refund_after_execution"@,
            GasChangeReason::Return => "return"@,
            GasChangeReason::ReturnDataCopy => "return_data_copy"@,
            GasChangeReason::Revert => "revert"@,
            GasChangeReason::SelfDestruct => "self_destruct"@,
            GasChangeReason::StaticCall => "static_call"@,
            GasChangeReason::StateColdAccess => "state_cold_access"@,
            GasChangeReason::Ignored => Seq::empty(),
        }
    }

    /// The token of the reason, or an error for the reason that is never written.
    pub fn as_str(&self) -> (r: Result<&'static str, TracerError>)
        ensures
            self.is_writable() ==> r is Ok && r->Ok_0@ == self.token(),
            !self.is_writable() ==> r == Err::<&'static str, TracerError>(
                TracerError::ForbiddenReason,
            ),
    {
        match self {
            GasChangeReason::Unknown => Ok("unknown"),
            GasChangeReason::Call => Ok("call"),
            GasChangeReason::CallCode => Ok("call_code"),
            GasChangeReason::CallDataCopy => Ok("call_data_copy"),
            GasChangeReason::CodeCopy => Ok("code_copy"),
            GasChangeReason::CodeStorage => Ok("code_storage"),
            GasChangeReason::ContractCreation => Ok("contract_creation"),
            GasChangeReason::ContractCreation2 => Ok("contract_creation2"),
            GasChangeReason::DelegateCall => Ok("delegate_call"),
            GasChangeReason::EventLog => Ok("event_log"),
            GasChangeReason::ExtCodeCopy => Ok("ext_code_copy"),
            GasChangeReason::FailedExecution => Ok("failed_execution"),
            GasChangeReason::IntrinsicGas => Ok("intrinsic_gas"),
            GasChangeReason::PrecompiledContract => Ok("precompiled_contract"),
            GasChangeReason::RefundAfterExecution => Ok("refund_after_execution"),
            GasChangeReason::Return => Ok("return"),
            GasChangeReason::ReturnDataCopy => Ok("return_data_copy"),
            GasChangeReason::Revert => Ok("revert"),
            GasChangeReason::SelfDestruct => Ok("self_destruct"),
            GasChangeReason::StaticCall => Ok("static_call"),
            GasChangeReason::StateColdAccess => Ok("state_cold_access"),
            GasChangeReason::Ignored => Err(TracerError::ForbiddenReason),
        }
    }

    /// The token of the reason as an owned text.
    pub fn to_text(&self) -> (r: Result<String, TracerError>)
        ensures
            self.is_writable() ==> r is Ok && r->Ok_0@ == self.token(),
            !self.is_writable() ==> r is Err && r->Err_0 == TracerError::ForbiddenReason,
    {
        match self.as_str() {
            Ok(token) => Ok(String::from_str(token)),
            Err(e) => Err(e),
        }
    }
}

/// A gas reason that may be written always has the same token, and no two
/// of them share one: reasons with equal tokens are equal.
pub proof fn law_gas_reason_tokens_injective(a: GasChangeReason, b: GasChangeReason)
    requires
        a.is_writable(),
        b.is_writable(),
        a.token() == b.token(),
    ensures
        a == b,
{
    reveal_strlit("unknown");
    reveal_strlit("call");
    reveal_strlit("call_code");
    reveal_strlit("call_data_copy");
    reveal_strlit("code_copy");
    reveal_strlit("code_storage");
    reveal_strlit("contract_creation");
    reveal_strlit("contract_creation2");
    reveal_strlit("delegate_call");
    reveal_strlit("event_log");
    reveal_strlit("ext_code_copy");
    reveal_strlit("failed_execution");
    reveal_strlit("intrinsic_gas");
    reveal_strlit("precompiled_contract");
    reveal_strlit("refund_after_execution");
    reveal_strlit("return");
    reveal_strlit("return_data_copy");
    reveal_strlit("revert");
    reveal_strlit("self_destruct");
    reveal_strlit("static_call");
    reveal_strlit("state_cold_access");
    assert("call"@.len() == 4);
    assert("return"@.len() == 6 && "return"@[2] == 't');
    assert("revert"@.len() == 6 && "revert"@[2] == 'v');
    assert("unknown"@.len() == 7);
    assert("call_code"@.len() == 9 && "call_code"@[1] == 'a');
    assert("code_copy"@.len() == 9 && "code_copy"@[1] == 'o');
    assert("event_log"@.len() == 9 && "event_log"@[1] == 'v');
    assert("static_call"@.len() == 11);
    assert("code_storage"@.len() == 12);
    assert("delegate_call"@.len() == 13 && "delegate_call"@[0] == 'd');
    assert("ext_code_copy"@.len() == 13 && "ext_code_copy"@[0] == 'e');
    assert("intrinsic_gas"@.len() == 13 && "intrinsic_gas"@[0] == 'i');
    assert("self_destruct"@.len() == 13 && "self_destruct"@[0] == 's');
    assert("call_data_copy"@.len() == 14);
    assert("failed_execution"@.len() == 16 && "failed_execution"@[0] == 'f');
    assert("return_data_copy"@.len() == 16 && "return_data_copy"@[0] == 'r');
    assert("contract_creation"@.len() == 17 && "contract_creation"@[0] == 'c');
    assert("state_cold_access"@.len() == 17 && "state_cold_access"@[0] == 's');
    assert("contract_creation2"@.len() == 18);
    assert("precompiled_contract"@.len() == 20);
    assert("refund_after_execution"@.len() == 22);
}

/// The token of a gas reason that may be written is never empty.
pub proof fn law_gas_reason_token_nonempty(a: GasChangeReason)
    requires
        a.is_writable(),
    ensures
        a.token().len() > 0,
{
    reveal_strlit("unknown");
    reveal_strlit("call");
    reveal_strlit("call_code");
    reveal_strlit("call_data_copy");
    reveal_strlit("code_copy");
    reveal_strlit("code_storage");
    reveal_strlit("contract_creation");
    reveal_strlit("contract_creation2");
    reveal_strlit("delegate_call");
    reveal_strlit("event_log");
    reveal_strlit("ext_code_copy");
    reveal_strlit("failed_execution");
    reveal_strlit("intrinsic_gas");
    reveal_strlit("precompiled_contract");
    reveal_strlit("refund_after_execution");
    reveal_strlit("return");
    reveal_strlit("return_data_copy");
    reveal_strlit("revert");
    reveal_strlit("self_destruct");
    reveal_strlit("static_call");
    reveal_strlit("state_cold_access");
}

/// The kind of a call.
#[derive(Clone, Copy, Debug, PartialEq, Eq, Structural)]
pub enum CallType {
    Call,
    CallCode,
    Create,
    Create2,
    DelegateCall,
    StaticCall,
}

impl CallType {
    /// The token of a call kind. Both kinds of creation share one.
    pub open spec fn token(self) -> Seq<char> {
        match self {
            CallType::Call => "CALL"@,
            CallType::CallCode => "CALLCODE"@,
            CallType::Create => "CREATE"@,
            CallType::Create2 => "CREATE"@,
            CallType::DelegateCall => "DELEGATE"@,
            CallType::StaticCall => "STATIC"@,
        }
    }

    /// The token of the call kind.
    pub fn as_str(&self) -> (token: &'static str)
        ensures
            token@ == self.token(),
    {
        match self {
            CallType::Call => "CALL",
            CallType::CallCode => "CALLCODE",
            CallType::Create => "CREATE",
            CallType::Create2 => "CREATE",
            CallType::DelegateCall => "DELEGATE",
            CallType::StaticCall => "STATIC",
        }
    }

    /// The token of the call kind as an owned text.
    pub fn to_text(&self) -> (text: String)
        ensures
            text@ == self.token(),
    {
        String::from_str(self.as_str())
    }
}

} // verus!

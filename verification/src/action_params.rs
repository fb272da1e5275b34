//! The parameters of an action of the virtual machine, and the call that a
//! tracer records for it.

use crate::model::Call;
use crate::primitives::{Address, H256, U256};
use crate::reason::CallType;
use std::sync::Arc;
use vstd::prelude::*;

verus! {

/// The Keccak-256 hash of a byte string, as `keccak_hash::keccak` computes it.
pub uninterp spec fn keccak256(data: Seq<u8>) -> Seq<u8>;

/// `keccak_hash::keccak` on a byte slice: the Keccak-256 hash of the bytes.
#[verifier::external_body]
fn keccak(data: &[u8]) -> (hash: H256)
    ensures
        hash@ == keccak256(data@),
{
    H256(keccak_hash::keccak(data).0)
}

/// The bytes of `keccak_hash::KECCAK_EMPTY`, the hash of the empty byte string.
pub open spec fn keccak_empty_bytes() -> Seq<u8> {
    seq![
        0xc5u8, 0xd2u8, 0x46u8, 0x01u8, 0x86u8, 0xf7u8, 0x23u8, 0x3cu8, 0x92u8, 0x7eu8, 0x7du8,
        0xb2u8, 0xdcu8, 0xc7u8, 0x03u8, 0xc0u8, 0xe5u8, 0x00u8, 0xb6u8, 0x53u8, 0xcau8, 0x82u8,
        0x27u8, 0x3bu8, 0x7bu8, 0xfau8, 0xd8u8, 0x04u8, 0x5du8, 0x85u8, 0xa4u8, 0x70u8,
    ]
}

/// The constant `keccak_hash::KECCAK_EMPTY`: the 32 bytes that the crate gives
/// as the hash of the empty byte string.
#[verifier::external_body]
fn keccak_empty() -> (hash: H256)
    ensures
        hash@ == keccak_empty_bytes(),
{
    H256(keccak_hash::KECCAK_EMPTY.0)
}

/// The kind of an action of the virtual machine.
#[derive(Clone, Copy, Debug, PartialEq, Eq, Structural)]
pub enum ActionType {
    Create,
    Call,
    CallCode,
    DelegateCall,
    StaticCall,
    Create2,
}

impl ActionType {
    /// The kind of call that a tracer records for the action.
    pub open spec fn call_type(self) -> CallType {
        match self {
            ActionType::Create => CallType::Create,
            ActionType::Call => CallType::Call,
            ActionType::CallCode => CallType::CallCode,
            ActionType::DelegateCall => CallType::DelegateCall,
            ActionType::StaticCall => CallType::StaticCall,
            ActionType::Create2 => CallType::Create2,
        }
    }

    /// The kind of call that a tracer records for the action.
    pub fn to_deepmind_call_type(&self) -> (call_type: CallType)
        ensures
            call_type == self.call_type(),
    {
        match self {
            ActionType::Create => CallType::Create,
            ActionType::Call => CallType::Call,
            ActionType::CallCode => CallType::CallCode,
            ActionType::DelegateCall => CallType::DelegateCall,
            ActionType::StaticCall => CallType::StaticCall,
            ActionType::Create2 => CallType::Create2,
        }
    }
}

/// The value of a transaction.
#[derive(Clone, Copy, Debug)]
pub enum ActionValue {
    /// A value that is transferred.
    Transfer(U256),
    /// A value that the transaction appears to carry, and that is not
    /// transferred.
    Apparent(U256),
}

/// How the parameters are encoded.
#[derive(Clone, Copy, Debug, PartialEq, Eq, Structural)]
pub enum ParamsType {
    /// The parameters are part of the code.
    Embedded,
    /// The parameters are passed in the data section.
    Separate,
}

impl ActionValue {
    /// The amount, transferred or not.
    pub open spec fn amount(self) -> nat {
        match self {
            ActionValue::Transfer(x) => x@,
            ActionValue::Apparent(x) => x@,
        }
    }

    /// The amount, transferred or not.
    pub fn value(&self) -> (value: U256)
        ensures
            value@ == self.amount(),
            value == (match *self {
                ActionValue::Transfer(x) => x,
                ActionValue::Apparent(x) => x,
            }),
    {
        match *self {
            ActionValue::Transfer(x) => x,
            ActionValue::Apparent(x) => x,
        }
    }

    /// A value that is transferred.
    pub fn transfer(transfer_value: U256) -> (value: ActionValue)
        ensures
            value == ActionValue::Transfer(transfer_value),
    {
        ActionValue::Transfer(transfer_value)
    }

    /// A value that is not transferred.
    pub fn apparent(apparent_value: U256) -> (value: ActionValue)
        ensures
            value == ActionValue::Apparent(apparent_value),
    {
        ActionValue::Apparent(apparent_value)
    }

    /// The value that a tracer records: the amount where it is transferred,
    /// nothing where it is only apparent.
    pub fn to_deepmind_value(&self) -> (value: Option<U256>)
        ensures
            value == (match *self {
                ActionValue::Transfer(amount) => Some(amount),
                ActionValue::Apparent(_) => None,
            }),
    {
        match *self {
            ActionValue::Transfer(amount) => Some(amount),
            _ => None,
        }
    }
}

/// The parameters of a call or a creation.
#[derive(Clone, Debug)]
pub struct ActionParams {
    /// The address of the code that runs.
    pub code_address: Address,
    /// The hash of the code that runs.
    pub code_hash: Option<H256>,
    /// The address that receives; that of the code but for `CALLCODE`.
    pub address: Address,
    /// The sender of this part of the transaction.
    pub sender: Address,
    /// The initiator of the transaction.
    pub origin: Address,
    /// The gas paid up front.
    pub gas: U256,
    pub gas_price: U256,
    pub value: ActionValue,
    /// The code that runs.
    pub code: Option<Arc<Vec<u8>>>,
    pub code_version: U256,
    /// The input data.
    pub data: Option<Vec<u8>>,
    pub action_type: ActionType,
    pub params_type: ParamsType,
}

/// A transaction as a test of the virtual machine gives it.
pub struct VmTransaction {
    pub address: Address,
    pub sender: Address,
    pub code: Vec<u8>,
    pub code_version: U256,
    pub data: Vec<u8>,
    pub gas: U256,
    pub gas_price: U256,
    pub origin: Address,
    pub value: U256,
}

impl Default for ActionParams {
    /// Parameters of a creation, with zeros everywhere and the hash of no code.
    fn default() -> (params: ActionParams)
        ensures
            params.code_address@ == Address::spec_zero(),
            params.code_hash is Some && params.code_hash->Some_0@ == keccak_empty_bytes(),
            params.address@ == Address::spec_zero(),
            params.sender@ == Address::spec_zero(),
            params.origin@ == Address::spec_zero(),
            params.gas@ == 0,
            params.gas_price@ == 0,
            params.value is Transfer && params.value.amount() == 0,
            params.code is None,
            params.code_version@ == 0,
            params.data is None,
            params.action_type == ActionType::Create,
            params.params_type == ParamsType::Separate,
    {
        ActionParams {
            code_address: Address::zero(),
            code_hash: Some(keccak_empty()),
            address: Address::zero(),
            sender: Address::zero(),
            origin: Address::zero(),
            gas: U256::zero(),
            gas_price: U256::zero(),
            value: ActionValue::Transfer(U256::zero()),
            code: None,
            code_version: U256::zero(),
            data: None,
            action_type: ActionType::Create,
            params_type: ParamsType::Separate,
        }
    }
}

impl ActionParams {
    /// The parameters of the call that a transaction of a test makes: its code
    /// runs under its own hash, at no code address, as a plain call.
    pub fn from_vm_transaction(t: VmTransaction) -> (params: ActionParams)
        ensures
            params.code_address@ == Address::spec_zero(),
            params.code_hash is Some && params.code_hash->Some_0@ == keccak256(t.code@),
            params.address == t.address,
            params.sender == t.sender,
            params.origin == t.origin,
            params.code is Some && (*params.code->Some_0)@ == t.code@,
            params.code_version == t.code_version,
            params.data is Some && params.data->Some_0@ == t.data@,
            params.gas == t.gas,
            params.gas_price == t.gas_price,
            params.value == ActionValue::Transfer(t.value),
            params.action_type == ActionType::Call,
            params.params_type == ParamsType::Separate,
    {
        let code_hash = keccak(t.code.as_slice());
        ActionParams::call_with_code_hash(t, code_hash)
    }

    /// The parameters of the call that a transaction of a test makes, given
    /// the hash of its code.
    pub fn call_with_code_hash(t: VmTransaction, code_hash: H256) -> (params: ActionParams)
        ensures
            params.code_address@ == Address::spec_zero(),
            params.code_hash == Some(code_hash),
            params.address == t.address,
            params.sender == t.sender,
            params.origin == t.origin,
            params.code is Some && (*params.code->Some_0)@ == t.code@,
            params.code_version == t.code_version,
            params.data is Some && params.data->Some_0@ == t.data@,
            params.gas == t.gas,
            params.gas_price == t.gas_price,
            params.value == ActionValue::Transfer(t.value),
            params.action_type == ActionType::Call,
            params.params_type == ParamsType::Separate,
    {
        ActionParams {
            code_address: Address::zero(),
            code_hash: Some(code_hash),
            address: t.address,
            sender: t.sender,
            origin: t.origin,
            code: Some(Arc::new(t.code)),
            code_version: t.code_version,
            data: Some(t.data),
            gas: t.gas,
            gas_price: t.gas_price,
            value: ActionValue::Transfer(t.value),
            action_type: ActionType::Call,
            params_type: ParamsType::Separate,
        }
    }

    /// Whether there is code to run. An account may hold code of no bytes: that
    /// counts as none.
    pub fn has_code_for_deepmind(&self) -> (has_code: bool)
        ensures
            has_code == (self.code is Some && (*self.code->Some_0)@.len() > 0),
    {
        match self.code {
            Some(ref bytes) => bytes.len() > 0,
            None => false,
        }
    }

    /// The call that a tracer records for the action: from the sender to the
    /// address of the code, with the value only where it is transferred.
    pub fn to_deepmind_call(&self) -> (call: Call<'_>)
        requires
            self.gas.fits_u64(),
        ensures
            call.call_type == self.action_type.call_type(),
            call.from == self.sender,
            call.to == self.code_address,
            call.gas_limit == self.gas@,
            call.value == (match self.value {
                ActionValue::Transfer(amount) => Some(amount),
                ActionValue::Apparent(_) => None,
            }),
            self.data is Some ==> call.input is Some && call.input->Some_0@
                == self.data->Some_0@,
            self.data is None ==> call.input is None,
    {
        let input: Option<&[u8]> = match &self.data {
            Some(value) => Some(value.as_slice()),
            None => None,
        };
        Call {
            call_type: self.action_type.to_deepmind_call_type(),
            from: self.sender,
            to: self.code_address,
            gas_limit: self.gas.as_u64(),
            value: self.value.to_deepmind_value(),
            input,
        }
    }
}

} // verus!

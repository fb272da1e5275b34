//! The records of the protocol, one function for each: what the text of a
//! record is, and the code that forms it.
//!
//! A record is a keyword and its fields, each two separated by one space.

use crate::format::{
    address_text, bool_field, bool_text, bytes_field, bytes_text, decimal, decimal_string,
    h256_text, hash_field, hex_of_nat, hex_string, number_field, u256_text,
};
use crate::primitives::{Address, H256, U256};
use crate::reason::CallType;
use vstd::prelude::*;
use vstd::string::StringExecFns;

verus! {

/// The major version of the protocol.
pub const PROTOCOL_MAJOR: u64 = 1;

/// The minor version of the protocol.
pub const PROTOCOL_MINOR: u64 = 0;

/// The name of the platform, as the handshake gives it.
pub fn platform() -> (name: &'static str)
    ensures
        name@ == "openethereum"@,
{
    "openethereum"
}

/// The name of the fork, as the handshake gives it.
pub fn fork() -> (name: &'static str)
    ensures
        name@ == "vanilla"@,
{
    "vanilla"
}

/// The handshake that opens a transcript.
///
/// `INIT <major> <minor> <platform> <fork> <verMajor> <verMinor> <verPatch> <engine>`
pub open spec fn init_record(
    platform_major: u64,
    platform_minor: u64,
    platform_patch: u64,
    engine: Seq<char>,
) -> Seq<char> {
    "INIT "@ + decimal(PROTOCOL_MAJOR as nat) + " "@ + decimal(PROTOCOL_MINOR as nat) + " "@
        + "openethereum"@ + " "@ + "vanilla"@ + " "@ + decimal(platform_major as nat) + " "@
        + decimal(platform_minor as nat) + " "@ + decimal(platform_patch as nat) + " "@ + engine
}

/// Forms the record `INIT`.
pub fn init_line(
    platform_major: u64,
    platform_minor: u64,
    platform_patch: u64,
    engine: &str,
) -> (line: String)
    ensures
        line@ == init_record(platform_major, platform_minor, platform_patch, engine@),
{
    let mut line = String::from_str("INIT ");
    line.append(decimal_string(PROTOCOL_MAJOR).as_str());
    line.append(" ");
    line.append(decimal_string(PROTOCOL_MINOR).as_str());
    line.append(" ");
    line.append(platform());
    line.append(" ");
    line.append(fork());
    line.append(" ");
    line.append(decimal_string(platform_major).as_str());
    line.append(" ");
    line.append(decimal_string(platform_minor).as_str());
    line.append(" ");
    line.append(decimal_string(platform_patch).as_str());
    line.append(" ");
    line.append(engine);
    line
}

/// The start of a block.
///
/// `BEGIN_BLOCK <number>`
pub open spec fn begin_block_record(number: u64) -> Seq<char> {
    "BEGIN_BLOCK "@ + decimal(number as nat)
}

/// Forms the record `BEGIN_BLOCK`.
pub fn begin_block_line(number: u64) -> (line: String)
    ensures
        line@ == begin_block_record(number),
{
    let mut line = String::from_str("BEGIN_BLOCK ");
    line.append(decimal_string(number).as_str());
    line
}

/// The completion of a block, for a reader that follows progress only.
///
/// `FINALIZE_BLOCK <number>`
pub open spec fn finalize_block_record(number: u64) -> Seq<char> {
    "FINALIZE_BLOCK "@ + decimal(number as nat)
}

/// Forms the record `FINALIZE_BLOCK`.
pub fn finalize_block_line(number: u64) -> (line: String)
    ensures
        line@ == finalize_block_record(number),
{
    let mut line = String::from_str("FINALIZE_BLOCK ");
    line.append(decimal_string(number).as_str());
    line
}

/// The end of a block, with its header and uncles as JSON.
///
/// `END_BLOCK <number> <size> <headerJson>`
pub open spec fn end_block_record(number: u64, size: u64, meta: Seq<char>) -> Seq<char> {
    "END_BLOCK "@ + decimal(number as nat) + " "@ + decimal(size as nat) + " "@ + meta
}

/// Forms the record `END_BLOCK`.
pub fn end_block_line(number: u64, size: u64, meta: &str) -> (line: String)
    ensures
        line@ == end_block_record(number, size, meta@),
{
    let mut line = String::from_str("END_BLOCK ");
    line.append(decimal_string(number).as_str());
    line.append(" ");
    line.append(decimal_string(size).as_str());
    line.append(" ");
    line.append(meta);
    line
}

/// The start of a transaction. `to` is the destination field, already formed.
///
/// `BEGIN_APPLY_TRX <hash> <to|.> <value> <v> <r> <s> <gasLimit> <gasPrice> <nonce> <data|.>`
pub open spec fn begin_transaction_record(
    hash: Seq<u8>,
    to: Seq<char>,
    value: nat,
    v: u64,
    r: Seq<u8>,
    s: Seq<u8>,
    gas_limit: u64,
    gas_price: nat,
    nonce: u64,
    data: Seq<u8>,
) -> Seq<char> {
    "BEGIN_APPLY_TRX "@ + hash_field(hash) + " "@ + to + " "@ + number_field(value) + " "@
        + hex_of_nat(v as nat) + " "@ + hash_field(r) + " "@ + hash_field(s) + " "@
        + decimal(gas_limit as nat) + " "@ + number_field(gas_price) + " "@
        + decimal(nonce as nat) + " "@ + bytes_field(data)
}

/// Forms the record `BEGIN_APPLY_TRX`.
pub fn begin_transaction_line(
    hash: &H256,
    to: &str,
    value: &U256,
    v: u64,
    r: &H256,
    s: &H256,
    gas_limit: u64,
    gas_price: &U256,
    nonce: u64,
    data: &[u8],
) -> (line: String)
    ensures
        line@ == begin_transaction_record(
            hash@,
            to@,
            value@,
            v,
            r@,
            s@,
            gas_limit,
            gas_price@,
            nonce,
            data@,
        ),
{
    let mut line = String::from_str("BEGIN_APPLY_TRX ");
    line.append(h256_text(hash).as_str());
    line.append(" ");
    line.append(to);
    line.append(" ");
    line.append(u256_text(value).as_str());
    line.append(" ");
    line.append(hex_string(v).as_str());
    line.append(" ");
    line.append(h256_text(r).as_str());
    line.append(" ");
    line.append(h256_text(s).as_str());
    line.append(" ");
    line.append(decimal_string(gas_limit).as_str());
    line.append(" ");
    line.append(u256_text(gas_price).as_str());
    line.append(" ");
    line.append(decimal_string(nonce).as_str());
    line.append(" ");
    line.append(bytes_text(data).as_str());
    line
}

/// The sender of a transaction.
///
/// `TRX_FROM <address>`
pub open spec fn transaction_from_record(from: Seq<u8>) -> Seq<char> {
    "TRX_FROM "@ + hash_field(from)
}

/// Forms the record `TRX_FROM`.
pub fn transaction_from_line(from: &Address) -> (line: String)
    ensures
        line@ == transaction_from_record(from@),
{
    let mut line = String::from_str("TRX_FROM ");
    line.append(address_text(from).as_str());
    line
}

/// The end of a transaction. `post_state` is the field already formed, `logs` the JSON of the logs.
///
/// `END_APPLY_TRX <gasUsedDelta> <postState|.> <cumulativeGasUsed> <logsBloom> <logsJson>`
pub open spec fn end_transaction_record(
    gas_used: u64,
    post_state: Seq<u8>,
    cumulative_gas_used: u64,
    logs_bloom: Seq<u8>,
    logs: Seq<char>,
) -> Seq<char> {
    "END_APPLY_TRX "@ + decimal(gas_used as nat) + " "@ + hash_field(post_state) + " "@
        + decimal(cumulative_gas_used as nat) + " "@ + bytes_field(logs_bloom) + " "@ + logs
}

/// Forms the record `END_APPLY_TRX`.
pub fn end_transaction_line(
    gas_used: u64,
    post_state: &H256,
    cumulative_gas_used: u64,
    logs_bloom: &[u8],
    logs: &str,
) -> (line: String)
    ensures
        line@ == end_transaction_record(
            gas_used,
            post_state@,
            cumulative_gas_used,
            logs_bloom@,
            logs@,
        ),
{
    let mut line = String::from_str("END_APPLY_TRX ");
    line.append(decimal_string(gas_used).as_str());
    line.append(" ");
    line.append(h256_text(post_state).as_str());
    line.append(" ");
    line.append(decimal_string(cumulative_gas_used).as_str());
    line.append(" ");
    line.append(bytes_text(logs_bloom).as_str());
    line.append(" ");
    line.append(logs);
    line
}

/// The entry into a call.
///
/// `EVM_RUN_CALL <callType> <callIndex>`
pub open spec fn run_call_record(call_type: CallType, index: u64) -> Seq<char> {
    "EVM_RUN_CALL "@ + call_type.token() + " "@ + decimal(index as nat)
}

/// Forms the record `EVM_RUN_CALL`.
pub fn run_call_line(call_type: CallType, index: u64) -> (line: String)
    ensures
        line@ == run_call_record(call_type, index),
{
    let mut line = String::from_str("EVM_RUN_CALL ");
    line.append(call_type.as_str());
    line.append(" ");
    line.append(decimal_string(index).as_str());
    line
}

/// The parameters of a call.
///
/// `EVM_PARAM <callType> <callIndex> <from> <to> <value|.> <gasLimit> <input|.>`
pub open spec fn call_param_record(
    call_type: CallType,
    index: u64,
    from: Seq<u8>,
    to: Seq<u8>,
    value: nat,
    gas_limit: u64,
    input: Seq<u8>,
) -> Seq<char> {
    "EVM_PARAM "@ + call_type.token() + " "@ + decimal(index as nat) + " "@ + hash_field(from)
        + " "@ + hash_field(to) + " "@ + number_field(value) + " "@ + decimal(gas_limit as nat)
        + " "@ + bytes_field(input)
}

/// Forms the record `EVM_PARAM`.
pub fn call_param_line(
    call_type: CallType,
    index: u64,
    from: &Address,
    to: &Address,
    value: &U256,
    gas_limit: u64,
    input: &[u8],
) -> (line: String)
    ensures
        line@ == call_param_record(call_type, index, from@, to@, value@, gas_limit, input@),
{
    let mut line = String::from_str("EVM_PARAM ");
    line.append(call_type.as_str());
    line.append(" ");
    line.append(decimal_string(index).as_str());
    line.append(" ");
    line.append(address_text(from).as_str());
    line.append(" ");
    line.append(address_text(to).as_str());
    line.append(" ");
    line.append(u256_text(value).as_str());
    line.append(" ");
    line.append(decimal_string(gas_limit).as_str());
    line.append(" ");
    line.append(bytes_text(input).as_str());
    line
}

/// The failure of a call.
///
/// `EVM_CALL_FAILED <callIndex> <gasLeft> <reason>`
pub open spec fn call_failed_record(index: u64, gas_left: u64, reason: Seq<char>) -> Seq<char> {
    "EVM_CALL_FAILED "@ + decimal(index as nat) + " "@ + decimal(gas_left as nat) + " "@ + reason
}

/// Forms the record `EVM_CALL_FAILED`.
pub fn call_failed_line(index: u64, gas_left: u64, reason: &str) -> (line: String)
    ensures
        line@ == call_failed_record(index, gas_left, reason@),
{
    let mut line = String::from_str("EVM_CALL_FAILED ");
    line.append(decimal_string(index).as_str());
    line.append(" ");
    line.append(decimal_string(gas_left).as_str());
    line.append(" ");
    line.append(reason);
    line
}

/// The revert of a call.
///
/// `EVM_REVERTED <callIndex>`
pub open spec fn reverted_record(index: u64) -> Seq<char> {
    "EVM_REVERTED "@ + decimal(index as nat)
}

/// Forms the record `EVM_REVERTED`.
pub fn reverted_line(index: u64) -> (line: String)
    ensures
        line@ == reverted_record(index),
{
    let mut line = String::from_str("EVM_REVERTED ");
    line.append(decimal_string(index).as_str());
    line
}

/// The exit from a call.
///
/// `EVM_END_CALL <callIndex> <gasLeft> <returnData|.>`
pub open spec fn end_call_record(index: u64, gas_left: u64, return_data: Seq<u8>) -> Seq<char> {
    "EVM_END_CALL "@ + decimal(index as nat) + " "@ + decimal(gas_left as nat) + " "@
        + bytes_field(return_data)
}

/// Forms the record `EVM_END_CALL`.
pub fn end_call_line(index: u64, gas_left: u64, return_data: &[u8]) -> (line: String)
    ensures
        line@ == end_call_record(index, gas_left, return_data@),
{
    let mut line = String::from_str("EVM_END_CALL ");
    line.append(decimal_string(index).as_str());
    line.append(" ");
    line.append(decimal_string(gas_left).as_str());
    line.append(" ");
    line.append(bytes_text(return_data).as_str());
    line
}

/// A change of balance.
///
/// `BALANCE_CHANGE <callIndex> <address> <old> <new> <reason>`
pub open spec fn balance_change_record(
    index: u64,
    address: Seq<u8>,
    old: nat,
    new: nat,
    reason: Seq<char>,
) -> Seq<char> {
    "BALANCE_CHANGE "@ + decimal(index as nat) + " "@ + hash_field(address) + " "@
        + number_field(old) + " "@ + number_field(new) + " "@ + reason
}

/// Forms the record `BALANCE_CHANGE`.
pub fn balance_change_line(
    index: u64,
    address: &Address,
    old: &U256,
    new: &U256,
    reason: &str,
) -> (line: String)
    ensures
        line@ == balance_change_record(index, address@, old@, new@, reason@),
{
    let mut line = String::from_str("BALANCE_CHANGE ");
    line.append(decimal_string(index).as_str());
    line.append(" ");
    line.append(address_text(address).as_str());
    line.append(" ");
    line.append(u256_text(old).as_str());
    line.append(" ");
    line.append(u256_text(new).as_str());
    line.append(" ");
    line.append(reason);
    line
}

/// A change of nonce.
///
/// `NONCE_CHANGE <callIndex> <address> <old> <new>`
pub open spec fn nonce_change_record(
    index: u64,
    address: Seq<u8>,
    old: u64,
    new: u64,
) -> Seq<char> {
    "NONCE_CHANGE "@ + decimal(index as nat) + " "@ + hash_field(address) + " "@
        + decimal(old as nat) + " "@ + decimal(new as nat)
}

/// Forms the record `NONCE_CHANGE`.
pub fn nonce_change_line(index: u64, address: &Address, old: u64, new: u64) -> (line: String)
    ensures
        line@ == nonce_change_record(index, address@, old, new),
{
    let mut line = String::from_str("NONCE_CHANGE ");
    line.append(decimal_string(index).as_str());
    line.append(" ");
    line.append(address_text(address).as_str());
    line.append(" ");
    line.append(decimal_string(old).as_str());
    line.append(" ");
    line.append(decimal_string(new).as_str());
    line
}

/// A change of one storage slot.
///
/// `STORAGE_CHANGE <callIndex> <address> <key> <old> <new>`
pub open spec fn storage_change_record(
    index: u64,
    address: Seq<u8>,
    key: Seq<u8>,
    old: Seq<u8>,
    new: Seq<u8>,
) -> Seq<char> {
    "STORAGE_CHANGE "@ + decimal(index as nat) + " "@ + hash_field(address) + " "@
        + hash_field(key) + " "@ + hash_field(old) + " "@ + hash_field(new)
}

/// Forms the record `STORAGE_CHANGE`.
pub fn storage_change_line(
    index: u64,
    address: &Address,
    key: &H256,
    old: &H256,
    new: &H256,
) -> (line: String)
    ensures
        line@ == storage_change_record(index, address@, key@, old@, new@),
{
    let mut line = String::from_str("STORAGE_CHANGE ");
    line.append(decimal_string(index).as_str());
    line.append(" ");
    line.append(address_text(address).as_str());
    line.append(" ");
    line.append(h256_text(key).as_str());
    line.append(" ");
    line.append(h256_text(old).as_str());
    line.append(" ");
    line.append(h256_text(new).as_str());
    line
}

/// A change of an account's code. The old code stands before the hash of the new.
///
/// `CODE_CHANGE <callIndex> <address> <inputHash> <oldCode|.> <codeHash> <newCode|.>`
pub open spec fn code_change_record(
    index: u64,
    address: Seq<u8>,
    input_hash: Seq<u8>,
    old_code: Seq<u8>,
    code_hash: Seq<u8>,
    new_code: Seq<u8>,
) -> Seq<char> {
    "CODE_CHANGE "@ + decimal(index as nat) + " "@ + hash_field(address) + " "@
        + hash_field(input_hash) + " "@ + bytes_field(old_code) + " "@ + hash_field(code_hash)
        + " "@ + bytes_field(new_code)
}

/// Forms the record `CODE_CHANGE`.
pub fn code_change_line(
    index: u64,
    address: &Address,
    input_hash: &H256,
    old_code: &[u8],
    code_hash: &H256,
    new_code: &[u8],
) -> (line: String)
    ensures
        line@ == code_change_record(
            index,
            address@,
            input_hash@,
            old_code@,
            code_hash@,
            new_code@,
        ),
{
    let mut line = String::from_str("CODE_CHANGE ");
    line.append(decimal_string(index).as_str());
    line.append(" ");
    line.append(address_text(address).as_str());
    line.append(" ");
    line.append(h256_text(input_hash).as_str());
    line.append(" ");
    line.append(bytes_text(old_code).as_str());
    line.append(" ");
    line.append(h256_text(code_hash).as_str());
    line.append(" ");
    line.append(bytes_text(new_code).as_str());
    line
}

/// The self-destruction of an account.
///
/// `SUICIDE_CHANGE <callIndex> <address> <bool> <balanceBeforeSuicide>`
pub open spec fn suicide_change_record(
    index: u64,
    address: Seq<u8>,
    already_suicided: bool,
    balance_before_suicide: nat,
) -> Seq<char> {
    "SUICIDE_CHANGE "@ + decimal(index as nat) + " "@ + hash_field(address) + " "@
        + bool_field(already_suicided) + " "@ + number_field(balance_before_suicide)
}

/// Forms the record `SUICIDE_CHANGE`.
pub fn suicide_change_line(
    index: u64,
    address: &Address,
    already_suicided: bool,
    balance_before_suicide: &U256,
) -> (line: String)
    ensures
        line@ == suicide_change_record(
            index,
            address@,
            already_suicided,
            balance_before_suicide@,
        ),
{
    let mut line = String::from_str("SUICIDE_CHANGE ");
    line.append(decimal_string(index).as_str());
    line.append(" ");
    line.append(address_text(address).as_str());
    line.append(" ");
    line.append(bool_text(already_suicided).as_str());
    line.append(" ");
    line.append(u256_text(balance_before_suicide).as_str());
    line
}

/// The creation of an account.
///
/// `CREATED_ACCOUNT <callIndex> <address>`
pub open spec fn created_account_record(index: u64, address: Seq<u8>) -> Seq<char> {
    "CREATED_ACCOUNT "@ + decimal(index as nat) + " "@ + hash_field(address)
}

/// Forms the record `CREATED_ACCOUNT`.
pub fn created_account_line(index: u64, address: &Address) -> (line: String)
    ensures
        line@ == created_account_record(index, address@),
{
    let mut line = String::from_str("CREATED_ACCOUNT ");
    line.append(decimal_string(index).as_str());
    line.append(" ");
    line.append(address_text(address).as_str());
    line
}

/// A call to an account that has no code.
///
/// `ACCOUNT_WITHOUT_CODE <callIndex>`
pub open spec fn account_without_code_record(index: u64) -> Seq<char> {
    "ACCOUNT_WITHOUT_CODE "@ + decimal(index as nat)
}

/// Forms the record `ACCOUNT_WITHOUT_CODE`.
pub fn account_without_code_line(index: u64) -> (line: String)
    ensures
        line@ == account_without_code_record(index),
{
    let mut line = String::from_str("ACCOUNT_WITHOUT_CODE ");
    line.append(decimal_string(index).as_str());
    line
}

/// A hash computed by contract code, with its preimage.
///
/// `EVM_KECCAK <callIndex> <hashOfData> <data>`
pub open spec fn keccak_record(index: u64, hash_of_data: Seq<u8>, data: Seq<u8>) -> Seq<char> {
    "EVM_KECCAK "@ + decimal(index as nat) + " "@ + hash_field(hash_of_data) + " "@
        + bytes_field(data)
}

/// Forms the record `EVM_KECCAK`.
pub fn keccak_line(index: u64, hash_of_data: &H256, data: &[u8]) -> (line: String)
    ensures
        line@ == keccak_record(index, hash_of_data@, data@),
{
    let mut line = String::from_str("EVM_KECCAK ");
    line.append(decimal_string(index).as_str());
    line.append(" ");
    line.append(h256_text(hash_of_data).as_str());
    line.append(" ");
    line.append(bytes_text(data).as_str());
    line
}

/// A log. `topics` is the field already formed.
///
/// `ADD_LOG <callIndex> <logIndexInBlock> <address> <topic,topic,...> <data>`
pub open spec fn add_log_record(
    index: u64,
    log_index_in_block: u64,
    address: Seq<u8>,
    topics: Seq<char>,
    data: Seq<u8>,
) -> Seq<char> {
    "ADD_LOG "@ + decimal(index as nat) + " "@ + decimal(log_index_in_block as nat) + " "@
        + hash_field(address) + " "@ + topics + " "@ + bytes_field(data)
}

/// Forms the record `ADD_LOG`.
pub fn add_log_line(
    index: u64,
    log_index_in_block: u64,
    address: &Address,
    topics: &str,
    data: &[u8],
) -> (line: String)
    ensures
        line@ == add_log_record(index, log_index_in_block, address@, topics@, data@),
{
    let mut line = String::from_str("ADD_LOG ");
    line.append(decimal_string(index).as_str());
    line.append(" ");
    line.append(decimal_string(log_index_in_block).as_str());
    line.append(" ");
    line.append(address_text(address).as_str());
    line.append(" ");
    line.append(topics);
    line.append(" ");
    line.append(bytes_text(data).as_str());
    line
}

/// A change of the gas left.
///
/// `GAS_CHANGE <callIndex> <old> <new> <reason>`
pub open spec fn gas_change_record(index: u64, old: u64, new: u64, reason: Seq<char>) -> Seq<char> {
    "GAS_CHANGE "@ + decimal(index as nat) + " "@ + decimal(old as nat) + " "@
        + decimal(new as nat) + " "@ + reason
}

/// Forms the record `GAS_CHANGE`.
pub fn gas_change_line(index: u64, old: u64, new: u64, reason: &str) -> (line: String)
    ensures
        line@ == gas_change_record(index, old, new, reason@),
{
    let mut line = String::from_str("GAS_CHANGE ");
    line.append(decimal_string(index).as_str());
    line.append(" ");
    line.append(decimal_string(old).as_str());
    line.append(" ");
    line.append(decimal_string(new).as_str());
    line.append(" ");
    line.append(reason);
    line
}

/// A gas event around a child call. `linked` is the index of the child.
///
/// `GAS_EVENT <callIndex> <linkedCallIndex> <before_call|after_call> <amount>`
pub open spec fn gas_event_record(
    index: u64,
    linked: u64,
    kind: Seq<char>,
    amount: u64,
) -> Seq<char> {
    "GAS_EVENT "@ + decimal(index as nat) + " "@ + decimal(linked as nat) + " "@ + kind + " "@
        + decimal(amount as nat)
}

/// Forms the record `GAS_EVENT`.
pub fn gas_event_line(index: u64, linked: u64, kind: &str, amount: u64) -> (line: String)
    ensures
        line@ == gas_event_record(index, linked, kind@, amount),
{
    let mut line = String::from_str("GAS_EVENT ");
    line.append(decimal_string(index).as_str());
    line.append(" ");
    line.append(decimal_string(linked).as_str());
    line.append(" ");
    line.append(kind);
    line.append(" ");
    line.append(decimal_string(amount).as_str());
    line
}

} // verus!

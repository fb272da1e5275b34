//! The JSON that two records carry: the logs of a receipt, and the header of
//! a block with those of its uncles.
//!
//! Inside JSON every value is a string that starts with `0x`, whatever it
//! holds: there is no `.` for a zero or an empty value here.

use crate::format::{hex_of_bytes, hex_of_nat, hex_string, hex_text, join_texts, joined, u256_hex};
use crate::model::{
    hashes_view, headers_view, logs_view, BlockEndMeta, Header, HeaderView, Log, LogView,
};
use crate::primitives::H256;
use crate::printer::texts;
use vstd::prelude::*;
use vstd::string::StringExecFns;

verus! {

/// Hexadecimal digits as a JSON string: `0x` before them, quotes around.
pub open spec fn json_hex(digits: Seq<char>) -> Seq<char> {
    "\"0x"@ + digits + "\""@
}

/// Bytes as a JSON string: two digits for each byte; `"0x"` for none.
pub open spec fn json_bytes(bytes: Seq<u8>) -> Seq<char> {
    json_hex(hex_of_bytes(bytes))
}

/// A number as a JSON string: its hexadecimal numeral; `"0x0"` for zero.
pub open spec fn json_number(n: nat) -> Seq<char> {
    json_hex(hex_of_nat(n))
}

/// JSON values as a JSON array.
pub open spec fn json_array(values: Seq<Seq<char>>) -> Seq<char> {
    "["@ + joined(values, ","@) + "]"@
}

/// A log as a JSON object.
pub open spec fn log_json(log: LogView) -> Seq<char> {
    "{\"address\":"@ + json_bytes(log.address) + ",\"topics\":"@ + json_array(
        log.topics.map_values(|topic: Seq<u8>| json_bytes(topic)),
    ) + ",\"data\":"@ + json_bytes(log.data) + "}"@
}

/// The logs of a receipt as a JSON array.
pub open spec fn logs_json(logs: Seq<LogView>) -> Seq<char> {
    json_array(logs.map_values(|log: LogView| log_json(log)))
}

/// A header as a JSON object.
pub open spec fn header_json(header: HeaderView) -> Seq<char> {
    "{\"parentHash\":"@ + json_bytes(header.parent_hash) + ",\"sha3Uncles\":"@ + json_bytes(
        header.sha3_uncles,
    ) + ",\"miner\":"@ + json_bytes(header.miner) + ",\"stateRoot\":"@ + json_bytes(
        header.state_root,
    ) + ",\"transactionsRoot\":"@ + json_bytes(header.transactions_root) + ",\"receiptsRoot\":"@
        + json_bytes(header.receipts_root) + ",\"logsBloom\":"@ + json_bytes(header.logs_bloom)
        + ",\"difficulty\":"@ + json_number(header.difficulty) + ",\"number\":"@ + json_number(
        header.number,
    ) + ",\"gasLimit\":"@ + json_number(header.gas_limit) + ",\"gasUsed\":"@ + json_number(
        header.gas_used,
    ) + ",\"timestamp\":"@ + json_number(header.timestamp) + ",\"extraData\":"@ + json_bytes(
        header.extra_data,
    ) + ",\"mixHash\":"@ + json_bytes(header.mix_hash) + ",\"nonce\":"@ + json_bytes(header.nonce)
        + ",\"hash\":"@ + json_bytes(header.hash) + "}"@
}

/// What closes a block as a JSON object: the header, and the headers of the
/// uncles as an array.
pub open spec fn block_end_json(header: HeaderView, uncles: Seq<HeaderView>) -> Seq<char> {
    "{\"header\":"@ + header_json(header) + ",\"uncles\":"@ + json_array(
        uncles.map_values(|uncle: HeaderView| header_json(uncle)),
    ) + "}"@
}

fn json_hex_text(digits: &str) -> (s: String)
    ensures
        s@ == json_hex(digits@),
{
    let mut s = String::from_str("\"0x");
    s.append(digits);
    s.append("\"");
    s
}

/// Bytes as a JSON string.
pub fn json_bytes_text(bytes: &[u8]) -> (s: String)
    ensures
        s@ == json_bytes(bytes@),
{
    json_hex_text(hex_text(bytes).as_str())
}

fn json_array_text(values: &Vec<String>) -> (s: String)
    ensures
        s@ == json_array(texts(values@)),
{
    let mut s = String::from_str("[");
    s.append(join_texts(values, ",").as_str());
    s.append("]");
    s
}

fn topics_json_text(topics: &Vec<H256>) -> (s: String)
    ensures
        s@ == json_array(
            hashes_view(topics@).map_values(|topic: Seq<u8>| json_bytes(topic)),
        ),
{
    let mut values: Vec<String> = Vec::new();
    let mut i: usize = 0;
    while i < topics.len()
        invariant
            i <= topics.len(),
            values@.len() == i,
            forall|j: int| 0 <= j < i ==> (#[trigger] values@[j])@ == json_bytes(topics@[j]@),
        decreases topics.len() - i,
    {
        values.push(json_bytes_text(topics[i].as_bytes()));
        i += 1;
    }
    assert(texts(values@) =~= hashes_view(topics@).map_values(
        |topic: Seq<u8>| json_bytes(topic),
    ));
    json_array_text(&values)
}

/// A log as a JSON object.
pub fn log_json_text(log: &Log) -> (s: String)
    ensures
        s@ == log_json(log@),
{
    let mut s = String::from_str("{\"address\":");
    s.append(json_bytes_text(log.address.as_bytes()).as_str());
    s.append(",\"topics\":");
    s.append(topics_json_text(log.topics).as_str());
    s.append(",\"data\":");
    s.append(json_bytes_text(log.data.0).as_str());
    s.append("}");
    s
}

/// The logs of a receipt as a JSON array.
pub fn logs_json_text(logs: &Vec<Log>) -> (s: String)
    ensures
        s@ == logs_json(logs_view(logs@)),
{
    let mut values: Vec<String> = Vec::new();
    let mut i: usize = 0;
    while i < logs.len()
        invariant
            i <= logs.len(),
            values@.len() == i,
            forall|j: int| 0 <= j < i ==> (#[trigger] values@[j])@ == log_json(logs@[j]@),
        decreases logs.len() - i,
    {
        values.push(log_json_text(&logs[i]));
        i += 1;
    }
    assert(texts(values@) =~= logs_view(logs@).map_values(|log: LogView| log_json(log)));
    json_array_text(&values)
}

/// A header as a JSON object.
pub fn header_json_text(header: &Header) -> (s: String)
    ensures
        s@ == header_json(header@),
{
    let mut s = String::from_str("{\"parentHash\":");
    s.append(json_bytes_text(header.parent_hash.as_bytes()).as_str());
    s.append(",\"sha3Uncles\":");
    s.append(json_bytes_text(header.sha3_uncles.as_bytes()).as_str());
    s.append(",\"miner\":");
    s.append(json_bytes_text(header.miner.as_bytes()).as_str());
    s.append(",\"stateRoot\":");
    s.append(json_bytes_text(header.state_root.as_bytes()).as_str());
    s.append(",\"transactionsRoot\":");
    s.append(json_bytes_text(header.transactions_root.as_bytes()).as_str());
    s.append(",\"receiptsRoot\":");
    s.append(json_bytes_text(header.receipts_root.as_bytes()).as_str());
    s.append(",\"logsBloom\":");
    s.append(json_bytes_text(header.logs_bloom.0).as_str());
    s.append(",\"difficulty\":");
    s.append(json_hex_text(u256_hex(&header.difficulty).as_str()).as_str());
    s.append(",\"number\":");
    s.append(json_hex_text(hex_string(header.number.0).as_str()).as_str());
    s.append(",\"gasLimit\":");
    s.append(json_hex_text(u256_hex(&header.gas_limit).as_str()).as_str());
    s.append(",\"gasUsed\":");
    s.append(json_hex_text(u256_hex(&header.gas_used).as_str()).as_str());
    s.append(",\"timestamp\":");
    s.append(json_hex_text(hex_string(header.timestamp.0).as_str()).as_str());
    s.append(",\"extraData\":");
    s.append(json_bytes_text(header.extra_data.0).as_str());
    s.append(",\"mixHash\":");
    s.append(json_bytes_text(header.mix_hash.as_bytes()).as_str());
    s.append(",\"nonce\":");
    s.append(json_bytes_text(header.nonce.as_bytes()).as_str());
    s.append(",\"hash\":");
    s.append(json_bytes_text(header.hash.as_bytes()).as_str());
    s.append("}");
    s
}

/// What closes a block as a JSON object.
pub fn block_end_json_text(meta: &BlockEndMeta) -> (s: String)
    ensures
        s@ == block_end_json(meta.header@, headers_view(meta.uncles@)),
{
    let mut values: Vec<String> = Vec::new();
    let mut i: usize = 0;
    while i < meta.uncles.len()
        invariant
            i <= meta.uncles.len(),
            values@.len() == i,
            forall|j: int|
                0 <= j < i ==> (#[trigger] values@[j])@ == header_json(meta.uncles@[j]@),
        decreases meta.uncles.len() - i,
    {
        values.push(header_json_text(&meta.uncles[i]));
        i += 1;
    }
    assert(texts(values@) =~= headers_view(meta.uncles@).map_values(
        |uncle: HeaderView| header_json(uncle),
    ));
    let mut s = String::from_str("{\"header\":");
    s.append(header_json_text(&meta.header).as_str());
    s.append(",\"uncles\":");
    s.append(json_array_text(&values).as_str());
    s.append("}");
    s
}

} // verus!

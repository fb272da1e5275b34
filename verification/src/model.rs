//! What the host hands to a tracer: calls, transactions, receipts, logs and
//! block headers.

use crate::primitives::{Address, H256, H64, U256};
use crate::reason::CallType;
use vstd::prelude::*;

verus! {

/// A byte string that is written in hexadecimal.
#[derive(Clone, Copy, Debug)]
pub struct Hex<'a>(pub &'a [u8]);

impl<'a> View for Hex<'a> {
    type V = Seq<u8>;

    open spec fn view(&self) -> Seq<u8> {
        self.0@
    }
}

/// A 64-bit number that is written in hexadecimal inside a header.
#[derive(Clone, Copy, Debug)]
pub struct U64(pub u64);

/// One nested invocation inside a transaction.
pub struct Call<'a> {
    pub call_type: CallType,
    pub from: Address,
    pub to: Address,
    /// The value transferred, if the call transfers any.
    pub value: Option<U256>,
    pub gas_limit: u64,
    pub input: Option<&'a [u8]>,
}

impl<'a> Call<'a> {
    /// The value as it is recorded: zero where the call transfers none.
    pub open spec fn recorded_value(&self) -> nat {
        match self.value {
            Some(value) => value@,
            None => 0,
        }
    }

    /// The input as it is recorded: empty where the call has none.
    pub open spec fn recorded_input(&self) -> Seq<u8> {
        match self.input {
            Some(input) => input@,
            None => Seq::empty(),
        }
    }
}

/// A transaction about to be applied.
pub struct Transaction<'a> {
    pub hash: H256,
    pub from: Address,
    /// The destination; `None` for a contract creation.
    pub to: Option<Address>,
    pub value: U256,
    pub gas_limit: u64,
    pub gas_price: U256,
    pub nonce: u64,
    pub data: &'a [u8],
    /// The signature: `v`, `r` and `s`.
    pub signature: (u64, H256, H256),
}

/// An event that contract code emitted during a call.
pub struct Log<'a> {
    pub address: Address,
    pub topics: &'a Vec<H256>,
    pub data: Hex<'a>,
}

/// The bytes of each hash of a list.
pub open spec fn hashes_view(hashes: Seq<H256>) -> Seq<Seq<u8>> {
    hashes.map_values(|hash: H256| hash@)
}

/// The plain content of a log.
pub struct LogView {
    pub address: Seq<u8>,
    pub topics: Seq<Seq<u8>>,
    pub data: Seq<u8>,
}

impl<'a> View for Log<'a> {
    type V = LogView;

    open spec fn view(&self) -> LogView {
        LogView { address: self.address@, topics: hashes_view(self.topics@), data: self.data@ }
    }
}

/// The plain content of each log of a list.
pub open spec fn logs_view(logs: Seq<Log<'_>>) -> Seq<LogView> {
    logs.map_values(|log: Log<'_>| log@)
}

/// The outcome of a transaction, as the block keeps it.
pub struct TransactionReceipt<'a> {
    /// The gas used by the block's transactions up to and including this one.
    pub cumulative_gas_used: u64,
    /// The state root after the transaction; zero where none is kept.
    pub post_state: H256,
    pub logs_bloom: &'a [u8],
    pub logs: Vec<Log<'a>>,
}

/// A block header.
pub struct Header<'a> {
    pub parent_hash: H256,
    pub sha3_uncles: H256,
    pub miner: Address,
    pub state_root: H256,
    pub transactions_root: H256,
    pub receipts_root: H256,
    pub logs_bloom: Hex<'a>,
    pub difficulty: U256,
    pub number: U64,
    pub gas_limit: U256,
    pub gas_used: U256,
    pub timestamp: U64,
    pub extra_data: Hex<'a>,
    pub mix_hash: H256,
    pub nonce: H64,
    pub hash: H256,
}

/// The plain content of a header.
pub struct HeaderView {
    pub parent_hash: Seq<u8>,
    pub sha3_uncles: Seq<u8>,
    pub miner: Seq<u8>,
    pub state_root: Seq<u8>,
    pub transactions_root: Seq<u8>,
    pub receipts_root: Seq<u8>,
    pub logs_bloom: Seq<u8>,
    pub difficulty: nat,
    pub number: nat,
    pub gas_limit: nat,
    pub gas_used: nat,
    pub timestamp: nat,
    pub extra_data: Seq<u8>,
    pub mix_hash: Seq<u8>,
    pub nonce: Seq<u8>,
    pub hash: Seq<u8>,
}

impl<'a> View for Header<'a> {
    type V = HeaderView;

    open spec fn view(&self) -> HeaderView {
        HeaderView {
            parent_hash: self.parent_hash@,
            sha3_uncles: self.sha3_uncles@,
            miner: self.miner@,
            state_root: self.state_root@,
            transactions_root: self.transactions_root@,
            receipts_root: self.receipts_root@,
            logs_bloom: self.logs_bloom@,
            difficulty: self.difficulty@,
            number: self.number.0 as nat,
            gas_limit: self.gas_limit@,
            gas_used: self.gas_used@,
            timestamp: self.timestamp.0 as nat,
            extra_data: self.extra_data@,
            mix_hash: self.mix_hash@,
            nonce: self.nonce@,
            hash: self.hash@,
        }
    }
}

/// The plain content of each header of a list.
pub open spec fn headers_view(headers: Seq<Header<'_>>) -> Seq<HeaderView> {
    headers.map_values(|header: Header<'_>| header@)
}

/// What closes a block: its header and those of its uncles.
pub struct BlockEndMeta<'a> {
    pub header: Header<'a>,
    pub uncles: Vec<Header<'a>>,
}

} // verus!

//! The root of tracing and the scope of one block: which level of tracing is
//! on, the handshake, and the accounting of gas and logs across the
//! transactions of a block.

use crate::format::{address_text, hash_field, sentinel, sentinel_text};
use crate::json::{block_end_json, block_end_json_text, logs_json, logs_json_text};
use crate::model::{
    headers_view, logs_view, BlockEndMeta, Header, Transaction, TransactionReceipt,
};
use crate::primitives::{Address, H256};
use crate::printer::{texts, DiscardPrinter, IoPrinter, SharedPrinter};
use crate::records::{
    begin_block_line, begin_block_record, begin_transaction_line, begin_transaction_record,
    end_block_line, end_block_record, end_transaction_line, end_transaction_record,
    finalize_block_line, finalize_block_record, init_line, init_record, transaction_from_line,
    transaction_from_record,
};
use crate::tracer::{BlockTracer, TracerState, TransactionTracer};
use vstd::prelude::*;

verus! {

/// The switches of tracing, as a configuration file gives them.
#[derive(Debug, PartialEq, Eq, Structural, Clone, Copy)]
pub struct Config {
    pub enabled: bool,
    pub on_chain_sync: bool,
    pub on_block_progress: bool,
}

impl Config {
    /// The configuration with every switch off.
    pub fn disabled() -> (config: Config)
        ensures
            config == (Config { enabled: false, on_chain_sync: false, on_block_progress: false }),
    {
        Config { enabled: false, on_chain_sync: false, on_block_progress: false }
    }
}

impl Default for Config {
    fn default() -> (config: Config)
        ensures
            config == (Config { enabled: false, on_chain_sync: false, on_block_progress: false }),
    {
        Config::disabled()
    }
}

/// How much is traced.
#[derive(Debug, PartialEq, Eq, Structural, Clone, Copy)]
pub enum Instrumentation {
    /// Every call and every change of state.
    Full,
    /// Only the completion of each block.
    BlockProgress,
    /// Nothing.
    Off,
}

/// The root of tracing: the level, fixed at construction, and the sink that
/// every tracer made from it writes to.
pub struct Context {
    instrumentation: Instrumentation,
    printer: SharedPrinter,
}

impl Context {
    /// The level of tracing.
    pub closed spec fn instrumentation(&self) -> Instrumentation {
        self.instrumentation
    }

    /// The sink.
    pub closed spec fn printer(&self) -> SharedPrinter {
        self.printer
    }

    /// A context at the given level, with a sink that writes.
    pub fn new(instrumentation: Instrumentation) -> (context: Context)
        ensures
            context.instrumentation() == instrumentation,
            context.printer() == SharedPrinter::Io(IoPrinter {  }),
    {
        Context { instrumentation, printer: SharedPrinter::Io(IoPrinter {  }) }
    }

    /// A context that traces nothing, with a sink that drops everything.
    pub fn noop() -> (context: Context)
        ensures
            context.instrumentation() == Instrumentation::Off,
            context.printer() == SharedPrinter::Discard(DiscardPrinter {  }),
    {
        Context {
            instrumentation: Instrumentation::Off,
            printer: SharedPrinter::Discard(DiscardPrinter {  }),
        }
    }

    /// The scope of a new block: no gas used yet, the first log at index 0,
    /// and the switches as they are now.
    pub fn block_context(&self) -> (block: BlockContext<'_>)
        ensures
            block.context() == self,
            block.enabled() == (self.instrumentation() == Instrumentation::Full),
            block.finalize_block_enabled() == (self.instrumentation() == Instrumentation::Full
                || self.instrumentation() == Instrumentation::BlockProgress),
            block@ == (BlockAccounting { cumulative_gas_used: 0, log_index_at_block: 0 }),
    {
        BlockContext {
            context: self,
            is_enabled: self.is_enabled(),
            is_finalize_block_enabled: self.is_finalize_block_enabled(),
            cumulative_gas_used: 0,
            log_index_at_block: 0,
        }
    }

    /// A tracer for what happens outside any transaction, on the same sink.
    pub fn block_tracer(&self) -> (tracer: BlockTracer)
        ensures
            tracer.printer() == self.printer(),
    {
        BlockTracer::new(self.printer)
    }

    /// Whether every call and every change of state is traced.
    pub fn is_enabled(&self) -> (enabled: bool)
        ensures
            enabled == (self.instrumentation() == Instrumentation::Full),
    {
        self.instrumentation == Instrumentation::Full
    }

    /// Whether the completion of each block is traced.
    pub fn is_finalize_block_enabled(&self) -> (enabled: bool)
        ensures
            enabled == (self.instrumentation() == Instrumentation::Full || self.instrumentation()
                == Instrumentation::BlockProgress),
    {
        self.instrumentation == Instrumentation::Full || self.instrumentation
            == Instrumentation::BlockProgress
    }

    /// The handshake: the version of the protocol, the platform and its fork,
    /// the version of the platform, and the name of the consensus engine. It
    /// comes before every other record.
    pub fn init(&self, engine: String, platform_version: (u64, u64, u64)) -> (out: Vec<String>)
        ensures
            texts(out@) == self.printer().lines(
                init_record(platform_version.0, platform_version.1, platform_version.2, engine@),
            ),
    {
        let mut out: Vec<String> = Vec::new();
        let line = init_line(
            platform_version.0,
            platform_version.1,
            platform_version.2,
            engine.as_str(),
        );
        self.printer.print(&mut out, line.as_str());
        out
    }
}

/// The accounting of one block, as plain values.
pub struct BlockAccounting {
    /// The gas used by the transactions closed so far.
    pub cumulative_gas_used: u64,
    /// The index, within the block, of the first log of the next transaction.
    pub log_index_at_block: u64,
}

/// The scope of one block: the accounting across its transactions, and the
/// switches as they were when the block began.
pub struct BlockContext<'a> {
    context: &'a Context,
    is_enabled: bool,
    is_finalize_block_enabled: bool,
    cumulative_gas_used: u64,
    log_index_at_block: u64,
}

impl<'a> View for BlockContext<'a> {
    type V = BlockAccounting;

    closed spec fn view(&self) -> BlockAccounting {
        BlockAccounting {
            cumulative_gas_used: self.cumulative_gas_used,
            log_index_at_block: self.log_index_at_block,
        }
    }
}

/// The destination of a transaction as a field: `.` for a contract creation,
/// else the address.
pub open spec fn destination_field(to: Option<Address>) -> Seq<char> {
    match to {
        Some(address) => hash_field(address@),
        None => sentinel(),
    }
}

impl<'a> BlockContext<'a> {
    /// The context that the block belongs to.
    pub closed spec fn context(&self) -> &'a Context {
        self.context
    }

    /// Whether full tracing was on when the block began.
    pub closed spec fn enabled(&self) -> bool {
        self.is_enabled
    }

    /// Whether the tracing of block completion was on when the block began.
    pub closed spec fn finalize_block_enabled(&self) -> bool {
        self.is_finalize_block_enabled
    }

    /// What every operation but the accounting leaves as it is.
    pub open spec fn same_scope(&self, other: &BlockContext<'a>) -> bool {
        &&& self.context() == other.context()
        &&& self.enabled() == other.enabled()
        &&& self.finalize_block_enabled() == other.finalize_block_enabled()
    }

    pub fn is_enabled(&self) -> (enabled: bool)
        ensures
            enabled == self.enabled(),
    {
        self.is_enabled
    }

    pub fn is_finalize_block_enabled(&self) -> (enabled: bool)
        ensures
            enabled == self.finalize_block_enabled(),
    {
        self.is_finalize_block_enabled
    }

    /// Records the start of the block `num`.
    pub fn start_block(&self, num: u64) -> (out: Vec<String>)
        ensures
            texts(out@) == self.context().printer().lines(begin_block_record(num)),
    {
        let mut out: Vec<String> = Vec::new();
        let line = begin_block_line(num);
        self.context.printer.print(&mut out, line.as_str());
        out
    }

    /// A tracer for the transaction `hash`: no call open, no failure held, and
    /// its first log at the block's next index.
    pub fn transaction_tracer(&self, hash: H256) -> (tracer: TransactionTracer)
        ensures
            tracer@ == TracerState::fresh(self@.log_index_at_block),
            tracer.printer() == self.context().printer(),
            tracer.hash() == hash,
            tracer.wf(),
    {
        TransactionTracer::new(hash, self.context.printer, self.log_index_at_block)
    }

    /// Records the start of a transaction, then its sender.
    pub fn start_transaction(&self, trx: Transaction) -> (out: Vec<String>)
        ensures
            texts(out@) == self.context().printer().lines(
                begin_transaction_record(
                    trx.hash@,
                    destination_field(trx.to),
                    trx.value@,
                    trx.signature.0,
                    trx.signature.1@,
                    trx.signature.2@,
                    trx.gas_limit,
                    trx.gas_price@,
                    trx.nonce,
                    trx.data@,
                ),
            ) + self.context().printer().lines(transaction_from_record(trx.from@)),
    {
        let (v, r, s) = trx.signature;
        let to = match trx.to {
            Some(address) => address_text(&address),
            None => sentinel_text(),
        };
        let mut out: Vec<String> = Vec::new();
        let begin = begin_transaction_line(
            &trx.hash,
            to.as_str(),
            &trx.value,
            v,
            &r,
            &s,
            trx.gas_limit,
            &trx.gas_price,
            trx.nonce,
            trx.data,
        );
        self.context.printer.print(&mut out, begin.as_str());
        let from = transaction_from_line(&trx.from);
        self.context.printer.print(&mut out, from.as_str());
        out
    }

    /// The index, within the block, of the first log of the next transaction.
    pub fn log_index_at_block(&self) -> (index: u64)
        ensures
            index == self@.log_index_at_block,
    {
        self.log_index_at_block
    }

    /// Moves the index of the next log on by the number of logs that a
    /// transaction recorded.
    pub fn record_log_count(&mut self, count: u64)
        requires
            old(self)@.log_index_at_block + count <= u64::MAX,
        ensures
            final(self)@ == (BlockAccounting {
                log_index_at_block: (old(self)@.log_index_at_block + count) as u64,
                ..old(self)@
            }),
            final(self).same_scope(old(self)),
    {
        self.log_index_at_block += count;
    }

    pub fn get_cumulative_gas_used(&mut self) -> (gas_used: u64)
        ensures
            gas_used == old(self)@.cumulative_gas_used,
            *final(self) == *old(self),
    {
        self.cumulative_gas_used
    }

    pub fn set_cumulative_gas_used(&mut self, gas_used: u64)
        ensures
            final(self)@ == (BlockAccounting { cumulative_gas_used: gas_used, ..old(self)@ }),
            final(self).same_scope(old(self)),
    {
        self.cumulative_gas_used = gas_used;
    }

    /// Records the end of a transaction: the gas it used, which is what its
    /// receipt adds to the gas of the block so far; the state root after it;
    /// the gas of the block up to it; the bloom filter and the logs. The gas of
    /// the block so far then becomes that of the receipt.
    pub fn end_transaction(&mut self, receipt: TransactionReceipt) -> (out: Vec<String>)
        requires
            old(self)@.cumulative_gas_used <= receipt.cumulative_gas_used,
        ensures
            final(self)@ == (BlockAccounting {
                cumulative_gas_used: receipt.cumulative_gas_used,
                ..old(self)@
            }),
            final(self).same_scope(old(self)),
            texts(out@) == old(self).context().printer().lines(
                end_transaction_record(
                    (receipt.cumulative_gas_used - old(self)@.cumulative_gas_used) as u64,
                    receipt.post_state@,
                    receipt.cumulative_gas_used,
                    receipt.logs_bloom@,
                    logs_json(logs_view(receipt.logs@)),
                ),
            ),
    {
        let logs = logs_json_text(&receipt.logs);
        let mut out: Vec<String> = Vec::new();
        let line = end_transaction_line(
            receipt.cumulative_gas_used - self.cumulative_gas_used,
            &receipt.post_state,
            receipt.cumulative_gas_used,
            receipt.logs_bloom,
            logs.as_str(),
        );
        self.context.printer.print(&mut out, line.as_str());
        self.cumulative_gas_used = receipt.cumulative_gas_used;
        out
    }

    /// Records the completion of the block `num`.
    pub fn finalize_block(&self, num: u64) -> (out: Vec<String>)
        ensures
            texts(out@) == self.context().printer().lines(finalize_block_record(num)),
    {
        let mut out: Vec<String> = Vec::new();
        let line = finalize_block_line(num);
        self.context.printer.print(&mut out, line.as_str());
        out
    }

    /// Records the end of the block `num`, with its size and, as JSON, its
    /// header and those of its uncles.
    pub fn end_block(&self, num: u64, size: u64, header: Header, uncles: Vec<Header>) -> (out:
        Vec<String>)
        ensures
            texts(out@) == self.context().printer().lines(
                end_block_record(num, size, block_end_json(header@, headers_view(uncles@))),
            ),
    {
        let meta = block_end_json_text(&BlockEndMeta { header, uncles });
        let mut out: Vec<String> = Vec::new();
        let line = end_block_line(num, size, meta.as_str());
        self.context.printer.print(&mut out, line.as_str());
        out
    }
}

} // verus!

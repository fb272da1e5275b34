//! Execution tracer for a blockchain virtual-machine host.
//!
//! The host drives a tracer through blocks, transactions and nested calls;
//! every operation answers with the protocol lines it emits, in order. The
//! call-stack and failure state machine, the text conventions of the protocol
//! and the per-block accounting are all stated as contracts over sequences of
//! characters.

pub mod action_params;
pub mod context;
pub mod error;
pub mod format;
pub mod json;
pub mod model;
pub mod nesting;
pub mod primitives;
pub mod printer;
pub mod reason;
pub mod records;
pub mod tracer;

pub use action_params::{ActionParams, ActionType, ActionValue, ParamsType, VmTransaction};
pub use context::{BlockAccounting, BlockContext, Config, Context, Instrumentation};
pub use error::TracerError;
pub use model::{BlockEndMeta, Call, Header, Hex, Log, Transaction, TransactionReceipt, U64};
pub use primitives::{Address, H256, H64, U256};
pub use printer::{DiscardPrinter, IoPrinter, Printer, SharedPrinter};
pub use reason::{BalanceChangeReason, CallType, GasChangeReason};
pub use tracer::{BlockTracer, NoopTracer, TracerState, TransactionTracer};

//! The tracers: the call stack and failure protocol of a transaction, the
//! records of every change of state inside it, and the reduced tracer for
//! changes that happen outside any transaction.

use crate::error::TracerError;
use crate::format::{decimal, decimal_string, h256_text, hash_field, join_texts, joined};
use crate::model::{hashes_view, Call, Log};
use crate::primitives::{Address, H256, U256};
use crate::printer::{texts, SharedPrinter};
use crate::reason::{BalanceChangeReason, GasChangeReason};
use crate::records::{
    account_without_code_line, account_without_code_record, add_log_line, add_log_record,
    balance_change_line, balance_change_record, call_failed_line, call_failed_record,
    call_param_line, call_param_record, code_change_line, code_change_record,
    created_account_line, created_account_record, end_call_line, end_call_record,
    gas_change_line, gas_change_record, gas_event_line, gas_event_record, keccak_line,
    keccak_record, nonce_change_line, nonce_change_record, reverted_line, reverted_record,
    run_call_line, run_call_record, storage_change_line, storage_change_record,
    suicide_change_line, suicide_change_record,
};
use vstd::prelude::*;
use vstd::string::StringExecFns;

verus! {

/// The index that a record carries: that of the innermost open call, or 0
/// where no call is open.
pub open spec fn active_index(call_stack: Seq<u64>) -> u64 {
    if call_stack.len() == 0 {
        0
    } else {
        call_stack.last()
    }
}

/// The state of a transaction tracer, as plain values.
pub struct TracerState {
    /// The index given to the latest call; 0 before the first.
    pub call_index: u64,
    /// The indices of the open calls, outermost first.
    pub call_stack: Seq<u64>,
    /// The indices of the child calls for which gas was charged and whose
    /// return has not been seen yet.
    pub gas_event_call_stack: Seq<u64>,
    /// The gas left when a call failed, until the call is closed.
    pub gas_left_at_failure: Option<nat>,
    /// The index of the call closed last.
    pub last_pop_call_index: Option<u64>,
    /// The index, within the block, of the next log.
    pub log_in_block_index: u64,
    /// The number of logs recorded so far.
    pub log_count: u64,
}

impl TracerState {
    /// The state at the start of a transaction whose first log has index
    /// `log_index` in its block.
    pub open spec fn fresh(log_index: u64) -> TracerState {
        TracerState {
            call_index: 0,
            call_stack: Seq::empty(),
            gas_event_call_stack: Seq::empty(),
            gas_left_at_failure: None,
            last_pop_call_index: None,
            log_in_block_index: log_index,
            log_count: 0,
        }
    }

    /// What holds of every state that a tracer reaches: the open calls carry
    /// indices that were given out, outer calls before inner ones; gas left at a
    /// failure fits in 64 bits; no more logs were counted than indices passed.
    pub open spec fn wf(self) -> bool {
        &&& forall|i: int|
            0 <= i < self.call_stack.len() ==> 1 <= #[trigger] self.call_stack[i] <= self.call_index
        &&& forall|i: int, j: int|
            0 <= i < j < self.call_stack.len() ==> self.call_stack[i] < self.call_stack[j]
        &&& self.gas_left_at_failure is Some ==> self.gas_left_at_failure->Some_0 <= u64::MAX
        &&& self.log_count <= self.log_in_block_index
    }

    /// The index that records carry in this state.
    pub open spec fn active_call_index(self) -> u64 {
        active_index(self.call_stack)
    }

    /// The state after a call was opened.
    pub open spec fn call_started(self) -> TracerState {
        TracerState {
            call_index: (self.call_index + 1) as u64,
            call_stack: self.call_stack.push((self.call_index + 1) as u64),
            ..self
        }
    }

    /// The state after the innermost call was closed.
    pub open spec fn call_ended(self) -> TracerState {
        TracerState {
            call_stack: self.call_stack.drop_last(),
            last_pop_call_index: Some(self.call_stack.last()),
            ..self
        }
    }

    /// What becomes of the state when a call is closed: an error where no call
    /// is open.
    pub open spec fn end_call(self) -> Result<TracerState, TracerError> {
        if self.call_stack.len() == 0 {
            Err(TracerError::CallStackEmpty)
        } else {
            Ok(self.call_ended())
        }
    }

    /// What becomes of the state when a call fails with `gas` gas left: an
    /// error where an earlier failure is still held.
    pub open spec fn failed_call(self, gas: nat) -> Result<TracerState, TracerError> {
        if self.gas_left_at_failure is Some {
            Err(TracerError::FailureAlreadyPending)
        } else {
            Ok(TracerState { gas_left_at_failure: Some(gas), ..self })
        }
    }

    /// What becomes of the state when a failed call is closed: an error where
    /// no failure is held, or where no call is open.
    pub open spec fn end_failed_call(self) -> Result<TracerState, TracerError> {
        if self.gas_left_at_failure is None {
            Err(TracerError::NoPendingFailure)
        } else if self.call_stack.len() == 0 {
            Err(TracerError::CallStackEmpty)
        } else {
            Ok(TracerState { gas_left_at_failure: None, ..self.call_ended() })
        }
    }

    /// The state after gas was charged for a child call that is about to open.
    pub open spec fn gas_charged_before_call(self) -> TracerState {
        TracerState {
            gas_event_call_stack: self.gas_event_call_stack.push((self.call_index + 1) as u64),
            ..self
        }
    }

    /// What becomes of the state when gas is seen after a child call: an error
    /// where no gas was charged before one.
    pub open spec fn after_call_gas_event(self) -> Result<TracerState, TracerError> {
        if self.gas_event_call_stack.len() == 0 {
            Err(TracerError::GasEventStackEmpty)
        } else {
            Ok(TracerState { gas_event_call_stack: self.gas_event_call_stack.drop_last(), ..self })
        }
    }

    /// The state after a log was recorded.
    pub open spec fn log_recorded(self) -> TracerState {
        TracerState {
            log_in_block_index: (self.log_in_block_index + 1) as u64,
            log_count: (self.log_count + 1) as u64,
            ..self
        }
    }
}

/// A failure that is reported right after another, with no failed call closed
/// in between, is refused.
pub proof fn law_second_failure_is_refused(state: TracerState, first: nat, second: nat)
    requires
        state.failed_call(first) is Ok,
    ensures
        state.failed_call(first)->Ok_0.failed_call(second) == Err::<TracerState, TracerError>(
            TracerError::FailureAlreadyPending,
        ),
{
}

/// Closing a failed call is refused where no failure is held: at the start of
/// a transaction, and right after a failed call was closed.
pub proof fn law_closing_without_failure_is_refused(state: TracerState, log_index: u64)
    ensures
        state.gas_left_at_failure is None ==> state.end_failed_call() == Err::<
            TracerState,
            TracerError,
        >(TracerError::NoPendingFailure),
        TracerState::fresh(log_index).end_failed_call() == Err::<TracerState, TracerError>(
            TracerError::NoPendingFailure,
        ),
        state.end_failed_call() is Ok ==> state.end_failed_call()->Ok_0.end_failed_call() == Err::<
            TracerState,
            TracerError,
        >(TracerError::NoPendingFailure),
{
}

/// A failure that was held is closed exactly once: after `failed_call` the
/// close succeeds where a call is open, and after it a new failure may come.
pub proof fn law_failure_is_held_until_closed(state: TracerState, gas: nat)
    requires
        state.failed_call(gas) is Ok,
        state.call_stack.len() > 0,
    ensures
        state.failed_call(gas)->Ok_0.end_failed_call() is Ok,
        state.failed_call(gas)->Ok_0.end_failed_call()->Ok_0.gas_left_at_failure is None,
        state.failed_call(gas)->Ok_0.end_failed_call()->Ok_0.call_stack
            == state.call_stack.drop_last(),
{
}

/// Before any call is entered, the active index is 0.
pub proof fn law_fresh_tracer_has_no_active_call(log_index: u64)
    ensures
        TracerState::fresh(log_index).wf(),
        TracerState::fresh(log_index).active_call_index() == 0,
{
}

/// The tracer of one transaction. It numbers the calls, keeps the stack of the
/// open ones, holds a failure until its call is closed, and numbers the logs.
pub struct TransactionTracer {
    hash: H256,
    printer: SharedPrinter,
    call_index: u64,
    last_pop_call_index: Option<u64>,
    call_stack: Vec<u64>,
    gas_event_call_stack: Vec<u64>,
    active_gas_left_at_failure: Option<U256>,
    log_in_block_index: u64,
    log_count: u64,
}

impl View for TransactionTracer {
    type V = TracerState;

    closed spec fn view(&self) -> TracerState {
        TracerState {
            call_index: self.call_index,
            call_stack: self.call_stack@,
            gas_event_call_stack: self.gas_event_call_stack@,
            gas_left_at_failure: match self.active_gas_left_at_failure {
                Some(gas) => Some(gas@),
                None => None,
            },
            last_pop_call_index: self.last_pop_call_index,
            log_in_block_index: self.log_in_block_index,
            log_count: self.log_count,
        }
    }
}

impl TransactionTracer {
    /// The sink that the tracer writes to.
    pub closed spec fn printer(&self) -> SharedPrinter {
        self.printer
    }

    /// The hash of the transaction, kept for diagnostics.
    pub closed spec fn hash(&self) -> H256 {
        self.hash
    }

    /// Whether the tracer is in a state that its operations keep.
    pub open spec fn wf(&self) -> bool {
        self@.wf()
    }

    /// A tracer for the transaction `hash`, with no call open, no failure
    /// pending, and `log_in_block_index` as the index of its first log.
    pub fn new(hash: H256, printer: SharedPrinter, log_in_block_index: u64) -> (tracer:
        TransactionTracer)
        ensures
            tracer@ == TracerState::fresh(log_in_block_index),
            tracer.printer() == printer,
            tracer.hash() == hash,
            tracer.wf(),
    {
        TransactionTracer {
            hash,
            printer,
            call_index: 0,
            last_pop_call_index: None,
            call_stack: Vec::with_capacity(16),
            gas_event_call_stack: Vec::with_capacity(16),
            active_gas_left_at_failure: None,
            log_in_block_index,
            log_count: 0,
        }
    }

    pub fn is_enabled(&self) -> (enabled: bool)
        ensures
            enabled,
    {
        true
    }

    /// The index of the innermost open call, or 0 where no call is open: what
    /// happens before the first call, such as the purchase of gas, belongs to
    /// index 0.
    pub fn active_call_index(&self) -> (index: u64)
        ensures
            index == self@.active_call_index(),
            self@.call_stack.len() == 0 ==> index == 0,
    {
        if self.call_stack.len() == 0 {
            return 0;
        }
        self.call_stack[self.call_stack.len() - 1]
    }

    /// Opens a call: gives it the next index, makes it the innermost open call
    /// and records its entry and its parameters.
    pub fn start_call(&mut self, call: Call) -> (out: Vec<String>)
        requires
            old(self).wf(),
            old(self)@.call_index < u64::MAX,
        ensures
            final(self).wf(),
            final(self)@ == old(self)@.call_started(),
            final(self).printer() == old(self).printer(),
            final(self).hash() == old(self).hash(),
            texts(out@) == old(self).printer().lines(
                run_call_record(call.call_type, final(self)@.call_index),
            ) + old(self).printer().lines(
                call_param_record(
                    call.call_type,
                    final(self)@.call_index,
                    call.from@,
                    call.to@,
                    call.recorded_value(),
                    call.gas_limit,
                    call.recorded_input(),
                ),
            ),
    {
        self.call_index += 1;
        self.call_stack.push(self.call_index);
        let mut out: Vec<String> = Vec::new();
        let entry = run_call_line(call.call_type, self.call_index);
        self.printer.print(&mut out, entry.as_str());
        let value = match call.value {
            Some(value) => value,
            None => U256::zero(),
        };
        let input: &[u8] = match call.input {
            Some(input) => input,
            None => &[],
        };
        let params = call_param_line(
            call.call_type,
            self.call_index,
            &call.from,
            &call.to,
            &value,
            call.gas_limit,
            input,
        );
        self.printer.print(&mut out, params.as_str());
        out
    }

    /// Records that the active call unwound by its own instruction. The call
    /// stays open: closing it is left to `end_call`.
    pub fn reverted_call(&self, gas_left: &U256) -> (out: Vec<String>)
        requires
            gas_left.fits_u64(),
        ensures
            texts(out@) == self.printer().lines(
                call_failed_record(self@.active_call_index(), gas_left@ as u64, "Reverted"@),
            ) + self.printer().lines(reverted_record(self@.active_call_index())),
    {
        let mut out: Vec<String> = Vec::new();
        let index = self.active_call_index();
        let failed = call_failed_line(index, gas_left.as_u64(), "Reverted");
        self.printer.print(&mut out, failed.as_str());
        let reverted = reverted_line(index);
        self.printer.print(&mut out, reverted.as_str());
        out
    }

    /// Records that the active call failed with `gas_left_at_failure` gas left,
    /// and holds that gas until the call is closed. A failure that comes while
    /// an earlier one is still held is an error, and changes nothing.
    pub fn failed_call(&mut self, gas_left_at_failure: &U256, err: String) -> (r: Result<
        Vec<String>,
        TracerError,
    >)
        requires
            old(self).wf(),
            gas_left_at_failure.fits_u64(),
        ensures
            final(self).wf(),
            final(self).printer() == old(self).printer(),
            final(self).hash() == old(self).hash(),
            match r {
                Ok(out) => old(self)@.failed_call(gas_left_at_failure@) == Ok::<
                    TracerState,
                    TracerError,
                >(final(self)@) && texts(out@) == old(self).printer().lines(
                    call_failed_record(
                        old(self)@.active_call_index(),
                        gas_left_at_failure@ as u64,
                        err@,
                    ),
                ),
                Err(e) => old(self)@.failed_call(gas_left_at_failure@) == Err::<
                    TracerState,
                    TracerError,
                >(e) && final(self)@ == old(self)@,
            },
    {
        if self.active_gas_left_at_failure.is_some() {
            return Err(TracerError::FailureAlreadyPending);
        }
        let mut out: Vec<String> = Vec::new();
        let failed = call_failed_line(
            self.active_call_index(),
            gas_left_at_failure.as_u64(),
            err.as_str(),
        );
        self.printer.print(&mut out, failed.as_str());
        self.active_gas_left_at_failure = Some(*gas_left_at_failure);
        Ok(out)
    }

    /// Closes the innermost open call and records its exit. With no call open
    /// this is an error, and changes nothing.
    pub fn end_call(&mut self, gas_left: &U256, return_data: Option<&[u8]>) -> (r: Result<
        Vec<String>,
        TracerError,
    >)
        requires
            old(self).wf(),
            gas_left.fits_u64(),
        ensures
            final(self).wf(),
            final(self).printer() == old(self).printer(),
            final(self).hash() == old(self).hash(),
            match r {
                Ok(out) => old(self)@.end_call() == Ok::<TracerState, TracerError>(final(self)@)
                    && texts(out@) == old(self).printer().lines(
                    end_call_record(
                        old(self)@.call_stack.last(),
                        gas_left@ as u64,
                        match return_data {
                            Some(bytes) => bytes@,
                            None => Seq::empty(),
                        },
                    ),
                ),
                Err(e) => old(self)@.end_call() == Err::<TracerState, TracerError>(e)
                    && final(self)@ == old(self)@,
            },
    {
        let call_index = match self.call_stack.pop() {
            Some(index) => index,
            None => {
                return Err(TracerError::CallStackEmpty);
            },
        };
        let return_bytes: &[u8] = match return_data {
            Some(bytes) => bytes,
            None => &[],
        };
        let mut out: Vec<String> = Vec::new();
        let ended = end_call_line(call_index, gas_left.as_u64(), return_bytes);
        self.printer.print(&mut out, ended.as_str());
        self.last_pop_call_index = Some(call_index);
        Ok(out)
    }

    /// Whether a failure is held that no call has been closed for yet.
    pub fn seen_failed_call(&mut self) -> (seen: bool)
        ensures
            seen == (old(self)@.gas_left_at_failure is Some),
            *final(self) == *old(self),
    {
        self.active_gas_left_at_failure.is_some()
    }

    /// Closes the call whose failure is held. The gas that was left at the
    /// failure is recorded as consumed down to zero, unless it was zero already,
    /// and the call is closed with no gas left and nothing returned. With no
    /// failure held, or with no call open, this is an error, and changes
    /// nothing. `from` names the caller for diagnostics only.
    pub fn end_failed_call(&mut self, from: &str) -> (r: Result<Vec<String>, TracerError>)
        requires
            old(self).wf(),
        ensures
            final(self).wf(),
            final(self).printer() == old(self).printer(),
            final(self).hash() == old(self).hash(),
            match r {
                Ok(out) => old(self)@.end_failed_call() == Ok::<TracerState, TracerError>(
                    final(self)@,
                ) && texts(out@) == failed_call_closing(
                    old(self).printer(),
                    old(self)@.call_stack.last(),
                    old(self)@.gas_left_at_failure->Some_0 as u64,
                ),
                Err(e) => old(self)@.end_failed_call() == Err::<TracerState, TracerError>(e)
                    && final(self)@ == old(self)@,
            },
    {
        let gas_left_at_failure = match self.active_gas_left_at_failure {
            Some(amount) => amount,
            None => {
                return Err(TracerError::NoPendingFailure);
            },
        };
        if self.call_stack.len() == 0 {
            return Err(TracerError::CallStackEmpty);
        }
        self.active_gas_left_at_failure = None;
        let gas = gas_left_at_failure.as_u64();
        let mut out = self.gas_consumed(gas, gas, GasChangeReason::FailedExecution);
        let zero = U256::zero();
        match self.end_call(&zero, None) {
            Ok(mut ended) => {
                let ghost before = texts(out@);
                let ghost added = texts(ended@);
                out.append(&mut ended);
                assert(texts(out@) =~= before + added);
                Ok(out)
            },
            Err(e) => Err(e),
        }
    }

    /// Records a change of balance under the active call. The reason `Ignored`
    /// leaves it out; a reason that must never be written is an error.
    pub fn record_balance_change(
        &mut self,
        address: &Address,
        old_balance: &U256,
        new_balance: &U256,
        reason: BalanceChangeReason,
    ) -> (r: Result<Vec<String>, TracerError>)
        ensures
            *final(self) == *old(self),
            reason == BalanceChangeReason::CallBalanceOverride ==> r == Err::<
                Vec<String>,
                TracerError,
            >(TracerError::ForbiddenReason),
            reason != BalanceChangeReason::CallBalanceOverride ==> r is Ok && texts(r->Ok_0@)
                == balance_change_written(
                old(self).printer(),
                old(self)@.active_call_index(),
                address@,
                old_balance@,
                new_balance@,
                reason,
            ),
    {
        record_balance_change(
            &self.printer,
            self.active_call_index(),
            address,
            old_balance,
            new_balance,
            reason,
        )
    }

    /// Records a change of nonce under the active call.
    pub fn record_nonce_change(
        &mut self,
        address: &Address,
        old_nonce: &U256,
        new_nonce: &U256,
    ) -> (out: Vec<String>)
        requires
            old_nonce.fits_u64(),
            new_nonce.fits_u64(),
        ensures
            *final(self) == *old(self),
            texts(out@) == old(self).printer().lines(
                nonce_change_record(
                    old(self)@.active_call_index(),
                    address@,
                    old_nonce@ as u64,
                    new_nonce@ as u64,
                ),
            ),
    {
        let mut out: Vec<String> = Vec::new();
        let line = nonce_change_line(
            self.active_call_index(),
            address,
            old_nonce.as_u64(),
            new_nonce.as_u64(),
        );
        self.printer.print(&mut out, line.as_str());
        out
    }

    /// Records a hash that contract code computed, with the data hashed.
    pub fn record_keccak(&mut self, hash_of_data: &H256, data: &[u8]) -> (out: Vec<String>)
        ensures
            *final(self) == *old(self),
            texts(out@) == old(self).printer().lines(
                keccak_record(old(self)@.active_call_index(), hash_of_data@, data@),
            ),
    {
        let mut out: Vec<String> = Vec::new();
        let line = keccak_line(self.active_call_index(), hash_of_data, data);
        self.printer.print(&mut out, line.as_str());
        out
    }

    /// Records that the active call went to an account without code.
    pub fn record_call_without_code(&mut self) -> (out: Vec<String>)
        ensures
            *final(self) == *old(self),
            texts(out@) == old(self).printer().lines(
                account_without_code_record(old(self)@.active_call_index()),
            ),
    {
        let mut out: Vec<String> = Vec::new();
        let line = account_without_code_line(self.active_call_index());
        self.printer.print(&mut out, line.as_str());
        out
    }

    /// Records that `gas_consumed` of the `gas_old` gas left was used. Nothing
    /// is recorded where nothing was used, or where the reason is `Ignored`.
    pub fn record_gas_consume(
        &mut self,
        gas_old: usize,
        gas_consumed: usize,
        reason: GasChangeReason,
    ) -> (out: Vec<String>)
        requires
            gas_consumed <= gas_old,
        ensures
            *final(self) == *old(self),
            texts(out@) == gas_change_lines(
                old(self).printer(),
                old(self)@.active_call_index(),
                gas_old as u64,
                (gas_old - gas_consumed) as u64,
                gas_consumed as u64,
                reason,
            ),
            gas_consumed == 0 ==> out@.len() == 0,
    {
        let out = self.gas_consumed(gas_old as u64, gas_consumed as u64, reason);
        assert(texts(out@).len() == out@.len());
        out
    }

    /// Records that `gas_refund` was given back on top of the `gas_old` gas
    /// left. Nothing is recorded where nothing was given back.
    pub fn record_gas_refund(&mut self, gas_old: usize, gas_refund: usize) -> (out: Vec<String>)
        requires
            gas_old + gas_refund <= u64::MAX,
        ensures
            *final(self) == *old(self),
            texts(out@) == gas_change_lines(
                old(self).printer(),
                old(self)@.active_call_index(),
                gas_old as u64,
                (gas_old + gas_refund) as u64,
                gas_refund as u64,
                GasChangeReason::RefundAfterExecution,
            ),
            gas_refund == 0 ==> out@.len() == 0,
    {
        if gas_refund != 0 {
            record_gas_change(
                &self.printer,
                self.active_call_index(),
                gas_old as u64,
                (gas_old as u64) + (gas_refund as u64),
                GasChangeReason::RefundAfterExecution,
            )
        } else {
            Vec::new()
        }
    }

    /// Records a log under the active call, with the next index of the block,
    /// and counts it.
    pub fn record_log(&mut self, log: Log) -> (out: Vec<String>)
        requires
            old(self).wf(),
            old(self)@.log_in_block_index < u64::MAX,
        ensures
            final(self).wf(),
            final(self).printer() == old(self).printer(),
            final(self).hash() == old(self).hash(),
            final(self)@ == old(self)@.log_recorded(),
            texts(out@) == old(self).printer().lines(
                add_log_record(
                    old(self)@.active_call_index(),
                    old(self)@.log_in_block_index,
                    log.address@,
                    topics_field(hashes_view(log.topics@)),
                    log.data@,
                ),
            ),
    {
        let topics = topics_text(log.topics);
        let mut out: Vec<String> = Vec::new();
        let line = add_log_line(
            self.active_call_index(),
            self.log_in_block_index,
            &log.address,
            topics.as_str(),
            log.data.0,
        );
        self.printer.print(&mut out, line.as_str());
        self.log_count += 1;
        self.log_in_block_index += 1;
        out
    }

    /// Records a change of one storage slot under the active call.
    pub fn record_storage_change(
        &mut self,
        address: &Address,
        key: &H256,
        old_data: &H256,
        new_data: &H256,
    ) -> (out: Vec<String>)
        ensures
            *final(self) == *old(self),
            texts(out@) == old(self).printer().lines(
                storage_change_record(
                    old(self)@.active_call_index(),
                    address@,
                    key@,
                    old_data@,
                    new_data@,
                ),
            ),
    {
        let mut out: Vec<String> = Vec::new();
        let line = storage_change_line(self.active_call_index(), address, key, old_data, new_data);
        self.printer.print(&mut out, line.as_str());
        out
    }

    /// Records the self-destruction of an account under the active call.
    pub fn record_suicide(
        &mut self,
        address: &Address,
        already_suicided: bool,
        balance_before_suicide: &U256,
    ) -> (out: Vec<String>)
        ensures
            *final(self) == *old(self),
            texts(out@) == old(self).printer().lines(
                suicide_change_record(
                    old(self)@.active_call_index(),
                    address@,
                    already_suicided,
                    balance_before_suicide@,
                ),
            ),
    {
        let mut out: Vec<String> = Vec::new();
        let line = suicide_change_line(
            self.active_call_index(),
            address,
            already_suicided,
            balance_before_suicide,
        );
        self.printer.print(&mut out, line.as_str());
        out
    }

    /// Records the creation of an account under the active call.
    pub fn record_new_account(&mut self, address: &Address) -> (out: Vec<String>)
        ensures
            *final(self) == *old(self),
            texts(out@) == old(self).printer().lines(
                created_account_record(old(self)@.active_call_index(), address@),
            ),
    {
        let mut out: Vec<String> = Vec::new();
        let line = created_account_line(self.active_call_index(), address);
        self.printer.print(&mut out, line.as_str());
        out
    }

    /// Records a change of an account's code under the active call. In the
    /// record the old code stands before the hash of the new code.
    pub fn record_code_change(
        &mut self,
        address: &Address,
        input_hash: &H256,
        code_hash: &H256,
        old_code: &[u8],
        new_code: &[u8],
    ) -> (out: Vec<String>)
        ensures
            *final(self) == *old(self),
            texts(out@) == old(self).printer().lines(
                code_change_record(
                    old(self)@.active_call_index(),
                    address@,
                    input_hash@,
                    old_code@,
                    code_hash@,
                    new_code@,
                ),
            ),
    {
        let mut out: Vec<String> = Vec::new();
        let line = code_change_line(
            self.active_call_index(),
            address,
            input_hash,
            old_code,
            code_hash,
            new_code,
        );
        self.printer.print(&mut out, line.as_str());
        out
    }

    /// Records the gas charged before a child call is entered. The child has no
    /// index yet: the one it will get is recorded, and kept for the event that
    /// follows its return.
    pub fn record_before_call_gas_event(&mut self, gas_value: usize) -> (out: Vec<String>)
        requires
            old(self).wf(),
            old(self)@.call_index < u64::MAX,
        ensures
            final(self).wf(),
            final(self).printer() == old(self).printer(),
            final(self).hash() == old(self).hash(),
            final(self)@ == old(self)@.gas_charged_before_call(),
            texts(out@) == old(self).printer().lines(
                gas_event_record(
                    old(self)@.active_call_index(),
                    (old(self)@.call_index + 1) as u64,
                    "before_call"@,
                    gas_value as u64,
                ),
            ),
    {
        let call_index = self.active_call_index();
        let for_call_index = self.call_index + 1;
        self.gas_event_call_stack.push(for_call_index);
        let mut out: Vec<String> = Vec::new();
        let line = gas_event_line(call_index, for_call_index, "before_call", gas_value as u64);
        self.printer.print(&mut out, line.as_str());
        out
    }

    /// Records the gas seen after a child call returned, under the index that
    /// was kept when gas was charged for it. With no such index kept this is an
    /// error, and changes nothing.
    pub fn record_after_call_gas_event(&mut self, gas_value: usize) -> (r: Result<
        Vec<String>,
        TracerError,
    >)
        requires
            old(self).wf(),
        ensures
            final(self).wf(),
            final(self).printer() == old(self).printer(),
            final(self).hash() == old(self).hash(),
            match r {
                Ok(out) => old(self)@.after_call_gas_event() == Ok::<TracerState, TracerError>(
                    final(self)@,
                ) && texts(out@) == old(self).printer().lines(
                    gas_event_record(
                        old(self)@.active_call_index(),
                        old(self)@.gas_event_call_stack.last(),
                        "after_call"@,
                        gas_value as u64,
                    ),
                ),
                Err(e) => old(self)@.after_call_gas_event() == Err::<TracerState, TracerError>(e)
                    && final(self)@ == old(self)@,
            },
    {
        let call_index = self.active_call_index();
        let for_call_index = match self.gas_event_call_stack.pop() {
            Some(index) => index,
            None => {
                return Err(TracerError::GasEventStackEmpty);
            },
        };
        let mut out: Vec<String> = Vec::new();
        let line = gas_event_line(call_index, for_call_index, "after_call", gas_value as u64);
        self.printer.print(&mut out, line.as_str());
        Ok(out)
    }

    /// The index given to the latest call; 0 before the first.
    pub fn call_index(&self) -> (index: u64)
        ensures
            index == self@.call_index,
    {
        self.call_index
    }

    /// The index, within the block, that the next log gets.
    pub fn log_in_block_index(&self) -> (index: u64)
        ensures
            index == self@.log_in_block_index,
    {
        self.log_in_block_index
    }

    /// The number of logs recorded by this tracer.
    pub fn get_log_count(&self) -> (count: u64)
        ensures
            count == self@.log_count,
    {
        self.log_count
    }

    /// Writes a diagnostic message, with the active call and the call closed
    /// last, to the diagnostic channel of the sink.
    pub fn debug(&mut self, message: String) -> (out: Vec<String>)
        ensures
            *final(self) == *old(self),
            texts(out@) == old(self).printer().debug_lines(
                context_message(
                    old(self)@.active_call_index(),
                    match old(self)@.last_pop_call_index {
                        Some(index) => index,
                        None => 0,
                    },
                    message@,
                ),
            ),
    {
        let active_call_index = self.active_call_index();
        let last_pop_call_index = match self.last_pop_call_index {
            Some(index) => index,
            None => 0,
        };
        let mut line = String::from_str("CONTEXT active_call_index=");
        line.append(decimal_string(active_call_index).as_str());
        line.append(" last_pop_call_index=");
        line.append(decimal_string(last_pop_call_index).as_str());
        line.append(" message=");
        line.append(message.as_str());
        let mut out: Vec<String> = Vec::new();
        self.printer.debug(&mut out, line.as_str());
        out
    }

    /// Records that `gas_consumed` of the `gas_old` gas left was used, unless
    /// nothing was used or the reason asks for silence.
    fn gas_consumed(&self, gas_old: u64, gas_consumed: u64, reason: GasChangeReason) -> (out:
        Vec<String>)
        requires
            gas_consumed <= gas_old,
        ensures
            texts(out@) == gas_change_lines(
                self.printer(),
                self@.active_call_index(),
                gas_old,
                (gas_old - gas_consumed) as u64,
                gas_consumed,
                reason,
            ),
    {
        if gas_consumed != 0 {
            record_gas_change(
                &self.printer,
                self.active_call_index(),
                gas_old,
                gas_old - gas_consumed,
                reason,
            )
        } else {
            Vec::new()
        }
    }
}

/// The tracer for what happens outside any transaction, such as the rewards
/// of a block. Its records carry the index 0.
pub struct BlockTracer {
    printer: SharedPrinter,
}

impl BlockTracer {
    /// The sink that the tracer writes to.
    pub closed spec fn printer(&self) -> SharedPrinter {
        self.printer
    }

    /// A tracer that writes to `printer`.
    pub fn new(printer: SharedPrinter) -> (tracer: BlockTracer)
        ensures
            tracer.printer() == printer,
    {
        BlockTracer { printer }
    }

    pub fn is_enabled(&self) -> (enabled: bool)
        ensures
            enabled,
    {
        true
    }

    /// Records a change of balance outside any call. The reason `Ignored`
    /// leaves it out; a reason that must never be written is an error.
    pub fn record_balance_change(
        &mut self,
        address: &Address,
        old_balance: &U256,
        new_balance: &U256,
        reason: BalanceChangeReason,
    ) -> (r: Result<Vec<String>, TracerError>)
        ensures
            *final(self) == *old(self),
            reason == BalanceChangeReason::CallBalanceOverride ==> r == Err::<
                Vec<String>,
                TracerError,
            >(TracerError::ForbiddenReason),
            reason != BalanceChangeReason::CallBalanceOverride ==> r is Ok && texts(r->Ok_0@)
                == balance_change_written(
                old(self).printer(),
                0,
                address@,
                old_balance@,
                new_balance@,
                reason,
            ),
    {
        record_balance_change(&self.printer, 0, address, old_balance, new_balance, reason)
    }
}

/// The tracer that records nothing.
pub struct NoopTracer;

impl NoopTracer {
    pub fn is_enabled(&self) -> (enabled: bool)
        ensures
            !enabled,
    {
        false
    }

    pub fn seen_failed_call(&mut self) -> (seen: bool)
        ensures
            !seen,
    {
        false
    }

    pub fn get_log_count(&self) -> (count: u64)
        ensures
            count == 0,
    {
        0
    }
}

/// What a sink writes for a change of gas from `old` to `new`: nothing where
/// the reason asks for silence, else the record.
pub open spec fn gas_change_written(
    printer: SharedPrinter,
    index: u64,
    old: u64,
    new: u64,
    reason: GasChangeReason,
) -> Seq<Seq<char>> {
    if reason.is_writable() {
        printer.lines(gas_change_record(index, old, new, reason.token()))
    } else {
        Seq::empty()
    }
}

/// What a sink writes for a change of gas by `delta`: nothing where the
/// change is by zero, else what it writes for a change from `old` to `new`.
pub open spec fn gas_change_lines(
    printer: SharedPrinter,
    index: u64,
    old: u64,
    new: u64,
    delta: u64,
    reason: GasChangeReason,
) -> Seq<Seq<char>> {
    if delta == 0 {
        Seq::empty()
    } else {
        gas_change_written(printer, index, old, new, reason)
    }
}

/// What a sink writes when the call `index` is closed after a failure that
/// left `gas` gas: the gas consumed down to zero, then the exit of the call.
pub open spec fn failed_call_closing(printer: SharedPrinter, index: u64, gas: u64) -> Seq<
    Seq<char>,
> {
    gas_change_lines(printer, index, gas, 0, gas, GasChangeReason::FailedExecution)
        + printer.lines(end_call_record(index, 0, Seq::empty()))
}

/// What a sink writes for a change of balance: nothing where the reason asks
/// for silence, else the record.
pub open spec fn balance_change_written(
    printer: SharedPrinter,
    index: u64,
    address: Seq<u8>,
    old: nat,
    new: nat,
    reason: BalanceChangeReason,
) -> Seq<Seq<char>> {
    if reason == BalanceChangeReason::Ignored {
        Seq::empty()
    } else {
        printer.lines(balance_change_record(index, address, old, new, reason.token()))
    }
}

/// Records a change of balance under the call `call_index`. The reason
/// `Ignored` leaves it out; a reason that must never be written is an error.
pub fn record_balance_change(
    printer: &SharedPrinter,
    call_index: u64,
    address: &Address,
    old: &U256,
    new: &U256,
    reason: BalanceChangeReason,
) -> (r: Result<Vec<String>, TracerError>)
    ensures
        reason == BalanceChangeReason::CallBalanceOverride ==> r == Err::<
            Vec<String>,
            TracerError,
        >(TracerError::ForbiddenReason),
        reason != BalanceChangeReason::CallBalanceOverride ==> r is Ok && texts(r->Ok_0@)
            == balance_change_written(*printer, call_index, address@, old@, new@, reason),
{
    let mut out: Vec<String> = Vec::new();
    if reason != BalanceChangeReason::Ignored {
        let token = match reason.as_str() {
            Ok(token) => token,
            Err(e) => {
                return Err(e);
            },
        };
        let line = balance_change_line(call_index, address, old, new, token);
        printer.print(&mut out, line.as_str());
    }
    Ok(out)
}

/// Records a change of gas under the call `call_index`, unless the reason asks
/// for silence.
pub fn record_gas_change(
    printer: &SharedPrinter,
    call_index: u64,
    old: u64,
    new: u64,
    reason: GasChangeReason,
) -> (out: Vec<String>)
    ensures
        texts(out@) == gas_change_written(*printer, call_index, old, new, reason),
{
    let mut out: Vec<String> = Vec::new();
    if reason != GasChangeReason::Ignored {
        match reason.as_str() {
            Ok(token) => {
                let line = gas_change_line(call_index, old, new, token);
                printer.print(&mut out, line.as_str());
            },
            Err(_) => {},
        }
    }
    out
}

/// The topics of a log as one field: each as a hash field, in order, with a
/// comma between each two. A log without topics has an empty field.
pub open spec fn topics_field(topics: Seq<Seq<u8>>) -> Seq<char> {
    joined(topics.map_values(|topic: Seq<u8>| hash_field(topic)), ","@)
}

/// Forms the field of the topics of a log.
pub fn topics_text(topics: &Vec<H256>) -> (s: String)
    ensures
        s@ == topics_field(hashes_view(topics@)),
{
    let mut parts: Vec<String> = Vec::new();
    let mut i: usize = 0;
    while i < topics.len()
        invariant
            i <= topics.len(),
            parts@.len() == i,
            forall|j: int| 0 <= j < i ==> (#[trigger] parts@[j])@ == hash_field(topics@[j]@),
        decreases topics.len() - i,
    {
        parts.push(h256_text(&topics[i]));
        i += 1;
    }
    assert(texts(parts@) =~= hashes_view(topics@).map_values(
        |topic: Seq<u8>| hash_field(topic),
    ));
    join_texts(&parts, ",")
}

/// The diagnostic message that tells where a tracer stands.
pub open spec fn context_message(active: u64, last_popped: u64, message: Seq<char>) -> Seq<char> {
    "CONTEXT active_call_index="@ + decimal(active as nat) + " last_pop_call_index="@ + decimal(
        last_popped as nat,
    ) + " message="@ + message
}

} // verus!

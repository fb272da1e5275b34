//! How the indices of calls follow the nesting of the calls.
//!
//! A transaction is seen here as a sequence of entries into calls and exits
//! from them. The tracer gives every entry the next index and every exit the
//! index of the entry it belongs to, so that the indices mirror the tree of
//! calls: entries in the order of a walk that visits parents first, exits in
//! the order of a walk that visits children first.

use crate::tracer::TracerState;
use vstd::prelude::*;

verus! {

/// An entry into a call, or the exit from the innermost open one.
pub enum CallEvent {
    Start,
    End,
}

/// The number of calls that are open after `events`, counted from the calls
/// that were open before: entries less exits.
pub open spec fn depth(events: Seq<CallEvent>) -> int
    decreases events.len(),
{
    if events.len() == 0 {
        0
    } else {
        depth(events.drop_last()) + (match events.last() {
            CallEvent::Start => 1int,
            CallEvent::End => -1int,
        })
    }
}

/// The number of entries among `events`.
pub open spec fn starts(events: Seq<CallEvent>) -> nat
    decreases events.len(),
{
    if events.len() == 0 {
        0
    } else {
        starts(events.drop_last()) + (match events.last() {
            CallEvent::Start => 1nat,
            CallEvent::End => 0nat,
        })
    }
}

/// No exit comes before the entry it belongs to: at every point at least as
/// many calls were entered as were left.
pub open spec fn well_nested(events: Seq<CallEvent>) -> bool {
    forall|k: int| 0 <= k <= events.len() ==> depth(#[trigger] events.take(k)) >= 0
}

/// Well nested, and every call that was entered was left.
pub open spec fn balanced(events: Seq<CallEvent>) -> bool {
    well_nested(events) && depth(events) == 0
}

/// What a tracer has done after a sequence of events: its state, and the
/// index that each event was recorded with.
pub struct Run {
    pub state: TracerState,
    pub indices: Seq<u64>,
}

/// The tracer's work on `events`, from the state `from`: an entry is recorded
/// with the index that `start_call` gives it, an exit with the index that
/// `end_call` takes off the stack.
pub open spec fn run(from: TracerState, events: Seq<CallEvent>) -> Run
    decreases events.len(),
{
    if events.len() == 0 {
        Run { state: from, indices: Seq::empty() }
    } else {
        let before = run(from, events.drop_last());
        match events.last() {
            CallEvent::Start => Run {
                state: before.state.call_started(),
                indices: before.indices.push(before.state.call_started().call_index),
            },
            CallEvent::End => Run {
                state: before.state.call_ended(),
                indices: before.indices.push(before.state.call_stack.last()),
            },
        }
    }
}

/// Running two sequences one after the other is running them joined.
pub proof fn lemma_run_joined(from: TracerState, first: Seq<CallEvent>, second: Seq<CallEvent>)
    ensures
        run(from, first + second).state == run(run(from, first).state, second).state,
        run(from, first + second).indices == run(from, first).indices + run(
            run(from, first).state,
            second,
        ).indices,
    decreases second.len(),
{
    if second.len() == 0 {
        assert(first + second =~= first);
        assert(run(from, first).indices + Seq::<u64>::empty() =~= run(from, first).indices);
    } else {
        assert((first + second).drop_last() =~= first + second.drop_last());
        assert((first + second).last() == second.last());
        lemma_run_joined(from, first, second.drop_last());
        let middle = run(from, first);
        let inner = run(middle.state, second.drop_last());
        match second.last() {
            CallEvent::Start => {
                assert((middle.indices + inner.indices).push(
                    inner.state.call_started().call_index,
                ) =~= middle.indices + inner.indices.push(inner.state.call_started().call_index));
            },
            CallEvent::End => {
                assert((middle.indices + inner.indices).push(inner.state.call_stack.last())
                    =~= middle.indices + inner.indices.push(inner.state.call_stack.last()));
            },
        }
    }
}

/// The tracer's work on a single event.
proof fn lemma_run_single(from: TracerState, event: CallEvent)
    ensures
        event is Start ==> run(from, seq![event]).state == from.call_started() && run(
            from,
            seq![event],
        ).indices == seq![from.call_started().call_index],
        event is End ==> run(from, seq![event]).state == from.call_ended() && run(
            from,
            seq![event],
        ).indices == seq![from.call_stack.last()],
        starts(seq![event]) == (if event is Start {
            1nat
        } else {
            0nat
        }),
{
    let one = seq![event];
    assert(one.drop_last() =~= Seq::<CallEvent>::empty());
    assert(one.last() == event);
    assert(run(from, one.drop_last()).indices =~= Seq::<u64>::empty());
    assert(run(from, one.drop_last()).state == from);
    assert(starts(one.drop_last()) == 0);
    match event {
        CallEvent::Start => {
            assert(run(from, one).indices =~= seq![from.call_started().call_index]);
        },
        CallEvent::End => {
            assert(run(from, one).indices =~= seq![from.call_stack.last()]);
        },
    }
}

/// A piece cut from the front of a well-nested sequence is well nested, and
/// holds no more entries than the whole.
proof fn lemma_front(events: Seq<CallEvent>, k: int)
    requires
        0 <= k <= events.len(),
    ensures
        well_nested(events) ==> well_nested(events.take(k)),
        starts(events.take(k)) <= starts(events),
    decreases events.len() - k,
{
    if k == events.len() {
        assert(events.take(k) =~= events);
    } else {
        lemma_front(events, k + 1);
        assert(events.take(k + 1).drop_last() =~= events.take(k));
        if well_nested(events) {
            assert forall|j: int| 0 <= j <= events.take(k).len() implies depth(
                #[trigger] events.take(k).take(j),
            ) >= 0 by {
                assert(events.take(k).take(j) =~= events.take(j));
            }
        }
    }
}

/// What a well-nested sequence leaves of a state: the calls that were open
/// stay open beneath those it opened and did not close, the index has moved
/// on by the number of entries, and nothing else has changed.
pub proof fn lemma_well_nested_run(from: TracerState, events: Seq<CallEvent>)
    requires
        from.wf(),
        well_nested(events),
        from.call_index + starts(events) <= u64::MAX,
    ensures
        run(from, events).state.wf(),
        run(from, events).indices.len() == events.len(),
        run(from, events).state.call_index == from.call_index + starts(events),
        run(from, events).state.call_stack.len() == from.call_stack.len() + depth(events),
        run(from, events).state.call_stack.take(from.call_stack.len() as int) == from.call_stack,
        run(from, events).state.gas_event_call_stack == from.gas_event_call_stack,
        run(from, events).state.gas_left_at_failure == from.gas_left_at_failure,
        run(from, events).state.log_in_block_index == from.log_in_block_index,
        run(from, events).state.log_count == from.log_count,
    decreases events.len(),
{
    let n = from.call_stack.len() as int;
    if events.len() == 0 {
        assert(from.call_stack.take(n) =~= from.call_stack);
    } else {
        let front = events.drop_last();
        assert(front =~= events.take(events.len() - 1));
        lemma_front(events, events.len() - 1);
        assert(events.take(events.len() as int) =~= events);
        lemma_well_nested_run(from, front);
        let before = run(from, front).state;
        let after = run(from, events).state;
        match events.last() {
            CallEvent::Start => {
                assert(after.call_stack.take(n) =~= before.call_stack.take(n));
            },
            CallEvent::End => {
                assert(depth(front) >= 1);
                assert(after.call_stack.take(n) =~= before.call_stack.take(n));
            },
        }
    }
}

/// Once every call that was entered has been left, the calls that were open
/// before are open again, the innermost of them is the active call again, and
/// the tracer has given out as many indices as calls were entered. From a
/// fresh tracer, the active index is 0 again.
pub proof fn law_balanced_calls_restore_the_stack(from: TracerState, events: Seq<CallEvent>)
    requires
        from.wf(),
        balanced(events),
        from.call_index + starts(events) <= u64::MAX,
    ensures
        run(from, events).state.wf(),
        run(from, events).state.call_stack == from.call_stack,
        run(from, events).state.active_call_index() == from.active_call_index(),
        run(from, events).state.call_index == from.call_index + starts(events),
        from.call_stack.len() == 0 ==> run(from, events).state.active_call_index() == 0,
{
    lemma_well_nested_run(from, events);
    let after = run(from, events).state;
    assert(after.call_stack.take(from.call_stack.len() as int) =~= after.call_stack);
}

/// A call is left under the index it was entered with, whatever calls were
/// entered and left inside it; the indices in between are those of the calls
/// inside, numbered from the next index on.
pub proof fn law_exit_carries_the_index_of_its_entry(from: TracerState, inside: Seq<CallEvent>)
    requires
        from.wf(),
        balanced(inside),
        from.call_index + 1 + starts(inside) <= u64::MAX,
    ensures
        run(from, seq![CallEvent::Start] + inside + seq![CallEvent::End]).indices == seq![
            (from.call_index + 1) as u64,
        ] + run(from.call_started(), inside).indices + seq![(from.call_index + 1) as u64],
        run(from, seq![CallEvent::Start] + inside + seq![CallEvent::End]).state.call_stack
            == from.call_stack,
{
    let entry = seq![CallEvent::Start];
    let exit = seq![CallEvent::End];
    let index = (from.call_index + 1) as u64;
    lemma_run_single(from, CallEvent::Start);
    let entered = from.call_started();
    assert(entered.wf());
    law_balanced_calls_restore_the_stack(entered, inside);
    lemma_well_nested_run(entered, inside);
    lemma_run_joined(from, entry, inside);
    let inner = run(from, entry + inside);
    assert(inner.state.call_stack == from.call_stack.push(index));
    lemma_run_single(inner.state, CallEvent::End);
    assert(run(inner.state, exit).state.call_stack =~= from.call_stack);
    lemma_run_joined(from, entry + inside, exit);
}

/// The entry at position `k` is recorded with the index that counts the
/// entries up to and including it.
pub proof fn law_entries_are_numbered_in_order(from: TracerState, events: Seq<CallEvent>, k: int)
    requires
        from.wf(),
        well_nested(events),
        from.call_index + starts(events) <= u64::MAX,
        0 <= k < events.len(),
        events[k] is Start,
    ensures
        run(from, events).indices.len() == events.len(),
        run(from, events).indices[k] == from.call_index + starts(events.take(k + 1)),
    decreases events.len(),
{
    lemma_well_nested_run(from, events);
    let front = events.drop_last();
    assert(front =~= events.take(events.len() - 1));
    lemma_front(events, events.len() - 1);
    lemma_well_nested_run(from, front);
    if k == events.len() - 1 {
        assert(events.take(k + 1) =~= events);
    } else {
        law_entries_are_numbered_in_order(from, front, k);
        assert(front.take(k + 1) =~= events.take(k + 1));
    }
}

/// Of two entries, the later one carries the greater index: no index is given
/// twice within a transaction.
pub proof fn law_entry_indices_increase(
    from: TracerState,
    events: Seq<CallEvent>,
    i: int,
    j: int,
)
    requires
        from.wf(),
        well_nested(events),
        from.call_index + starts(events) <= u64::MAX,
        0 <= i < j < events.len(),
        events[i] is Start,
        events[j] is Start,
    ensures
        from.call_index < run(from, events).indices[i] < run(from, events).indices[j],
{
    law_entries_are_numbered_in_order(from, events, i);
    law_entries_are_numbered_in_order(from, events, j);
    let upto_i = events.take(i + 1);
    let upto_j = events.take(j + 1);
    assert(upto_i.drop_last() =~= events.take(i));
    assert(upto_j.drop_last() =~= events.take(j));
    assert(events.take(j).take(i + 1) =~= upto_i);
    lemma_front(events.take(j), i + 1);
}

} // verus!

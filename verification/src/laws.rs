//! Queue-wide laws, proved by induction over arbitrary operation sequences.
//!
//! Every executable operation of `BoundedWorkQueue` ensures that it performs
//! exactly one `step` of the abstract model, so each law below holds of the
//! executable queue under any interleaving of producers and consumers: a run
//! of the system is some sequence of `QueueOp`s.

use vstd::prelude::*;

verus! {

use crate::model::{QueueModel, QueueOp, step, run};

/// One step preserves the invariant, keeps the capacity, never un-closes the
/// queue, and only ever extends the two histories.
pub proof fn lemma_step_preserves_inv<T>(q: QueueModel<T>, op: QueueOp<T>)
    requires
        q.inv(),
    ensures
        step(q, op).inv(),
        step(q, op).capacity == q.capacity,
        q.closed ==> step(q, op).closed,
        q.enqueued.is_prefix_of(step(q, op).enqueued),
        q.delivered.is_prefix_of(step(q, op).delivered),
{
    match op {
        QueueOp::Enqueue(item) => {
            if q.can_enqueue() {
                assert((q.delivered + q.items).push(item) =~= q.delivered + q.items.push(item));
            }
        },
        QueueOp::Dequeue => {
            if q.items.len() > 0 {
                assert(q.delivered.push(q.items[0]) + q.items.drop_first() =~= q.delivered
                    + q.items);
            }
        },
        _ => {},
    }
}

/// The invariant holds after any sequence of operations, and the capacity is
/// the one the queue was created with.
pub proof fn lemma_run_preserves_inv<T>(q: QueueModel<T>, ops: Seq<QueueOp<T>>)
    requires
        q.inv(),
    ensures
        run(q, ops).inv(),
        run(q, ops).capacity == q.capacity,
    decreases ops.len(),
{
    if ops.len() > 0 {
        lemma_step_preserves_inv(q, ops[0]);
        lemma_run_preserves_inv(step(q, ops[0]), ops.drop_first());
    }
}

/// Capacity bound: at no point reachable by any sequence of operations does
/// the number of buffered-but-undelivered items exceed the capacity fixed at
/// creation.
pub proof fn lemma_capacity_bound<T>(q: QueueModel<T>, ops: Seq<QueueOp<T>>)
    requires
        q.inv(),
    ensures
        run(q, ops).items.len() <= q.capacity,
{
    lemma_run_preserves_inv(q, ops);
}

/// Exactly-once delivery: after any sequence of operations, the items ever
/// accepted are precisely the items already delivered followed by the items
/// still buffered — nothing is duplicated and nothing is lost.
pub proof fn lemma_exactly_once_delivery<T>(q: QueueModel<T>, ops: Seq<QueueOp<T>>)
    requires
        q.inv(),
    ensures
        run(q, ops).enqueued == run(q, ops).delivered + run(q, ops).items,
{
    lemma_run_preserves_inv(q, ops);
}

/// FIFO order: in any reachable state, the delivery history is precisely a
/// prefix of the acceptance history — the `k`-th item ever delivered is the
/// `k`-th item ever accepted. So if item A is accepted before item B and
/// both are delivered, A is delivered before B.
pub proof fn lemma_fifo_order<T>(q: QueueModel<T>, ops: Seq<QueueOp<T>>)
    requires
        q.inv(),
    ensures
        forall|k: int|
            0 <= k < run(q, ops).delivered.len() ==> run(q, ops).delivered[k] == run(
                q,
                ops,
            ).enqueued[k],
{
    lemma_run_preserves_inv(q, ops);
    let r = run(q, ops);
    assert forall|k: int| 0 <= k < r.delivered.len() implies r.delivered[k] == r.enqueued[k] by {
        assert(r.enqueued[k] == (r.delivered + r.items)[k]);
    }
}

/// Histories only grow: no sequence of operations rewrites what was already
/// accepted or delivered, so the `k`-th delivery stays the `k`-th delivery
/// forever — an item handed to one consumer is never handed out again.
pub proof fn lemma_history_is_stable<T>(q: QueueModel<T>, ops: Seq<QueueOp<T>>)
    requires
        q.inv(),
    ensures
        q.enqueued.is_prefix_of(run(q, ops).enqueued),
        q.delivered.is_prefix_of(run(q, ops).delivered),
    decreases ops.len(),
{
    if ops.len() > 0 {
        lemma_step_preserves_inv(q, ops[0]);
        lemma_history_is_stable(step(q, ops[0]), ops.drop_first());
    }
}

/// Closing is monotonic: no operation ever reopens a closed queue.
pub proof fn lemma_closed_monotonic<T>(q: QueueModel<T>, ops: Seq<QueueOp<T>>)
    requires
        q.inv(),
        q.closed,
    ensures
        run(q, ops).closed,
    decreases ops.len(),
{
    if ops.len() > 0 {
        lemma_step_preserves_inv(q, ops[0]);
        lemma_closed_monotonic(step(q, ops[0]), ops.drop_first());
    }
}

/// Drained end of stream is terminal: once the queue is closed and its
/// buffer is empty, no sequence of operations buffers or accepts anything
/// again — so from that point every dequeue returns `EndOfStream`, forever,
/// to every consumer.
pub proof fn lemma_end_of_stream_terminal<T>(q: QueueModel<T>, ops: Seq<QueueOp<T>>)
    requires
        q.inv(),
        q.closed,
        q.items.len() == 0,
    ensures
        run(q, ops).closed,
        run(q, ops).items.len() == 0,
        run(q, ops).enqueued == q.enqueued,
        run(q, ops).delivered == q.delivered,
    decreases ops.len(),
{
    if ops.len() > 0 {
        lemma_step_preserves_inv(q, ops[0]);
        lemma_end_of_stream_terminal(step(q, ops[0]), ops.drop_first());
    }
}

/// Drain before end of stream: while anything is still buffered, a dequeue
/// delivers the head item even on a closed queue; `EndOfStream` is only
/// possible once the buffer is empty. Together with
/// [`lemma_end_of_stream_terminal`] this pins the terminal behaviour: every
/// buffered item is delivered before any consumer sees the end of stream.
pub proof fn lemma_drain_before_end_of_stream<T>(q: QueueModel<T>)
    requires
        q.inv(),
        q.items.len() > 0,
    ensures
        step(q, QueueOp::Dequeue) == q.after_dequeue(),
        step(q, QueueOp::Dequeue).delivered == q.delivered.push(q.items[0]),
{
}

} // verus!

//! The executable bounded work queue.
//!
//! `BoundedWorkQueue` is the shared state that producer and consumer handles
//! act on. Every operation is a single atomic unit of work on `&mut self`;
//! an embedding (an async runtime, a thread pool) serialises the calls and
//! turns the `Full` and `Empty` outcomes into suspension of the caller. Each
//! operation's contract says exactly which `QueueOp` transition of the
//! abstract model it performs, so the laws proved over `run` in `laws`
//! apply to every interleaving of callers.

use vstd::prelude::*;

verus! {

use crate::model::{QueueModel, QueueOp, step};

/// Error returned by [`BoundedWorkQueue::new`] when the requested capacity
/// is zero.
#[derive(Debug, Clone, Copy, PartialEq, Eq, Structural)]
pub enum CreateError {
    /// The capacity must be at least one.
    InvalidCapacity,
}

/// Outcome of offering one item to the queue.
///
/// Every outcome other than `Accepted` hands the item back to the caller:
/// the queue never retains an item it did not accept, and never drops one.
#[derive(Debug)]
pub enum EnqueueOutcome<T> {
    /// The item was appended to the tail of the buffer.
    Accepted,
    /// The buffer is at capacity and the queue is open: the caller should
    /// suspend and offer the item again once room frees or the queue closes.
    Full(T),
    /// The queue was closed before the offer; the item is returned.
    Closed(T),
    /// No consumer handle is live, so nobody could ever receive the item;
    /// the offer fails fast and the item is returned.
    Abandoned(T),
}

/// Outcome of asking the queue for one item.
#[derive(Debug)]
pub enum DequeueOutcome<T> {
    /// The head of the buffer, removed and transferred to the caller.
    Item(T),
    /// The buffer is empty but the queue is open: the caller should suspend
    /// and ask again once an item arrives or the queue closes.
    Empty,
    /// The queue is closed and fully drained: the normal terminal signal,
    /// returned to every consumer from this point on.
    EndOfStream,
}

/// A fixed-capacity, closable, multi-producer/multi-consumer FIFO queue.
///
/// The abstract value (`self@`) is a [`QueueModel`]: the buffered items,
/// the closed flag, the live handle counts, and the full enqueue/delivery
/// history that the queue-wide laws are stated over.
pub struct BoundedWorkQueue<T> {
    capacity: usize,
    buffer: Vec<T>,
    closed: bool,
    producers: usize,
    consumers: usize,
    enqueued: Ghost<Seq<T>>,
    delivered: Ghost<Seq<T>>,
}

impl<T> View for BoundedWorkQueue<T> {
    type V = QueueModel<T>;

    closed spec fn view(&self) -> QueueModel<T> {
        QueueModel {
            capacity: self.capacity as nat,
            items: self.buffer@,
            closed: self.closed,
            producers: self.producers as nat,
            consumers: self.consumers as nat,
            enqueued: self.enqueued@,
            delivered: self.delivered@,
        }
    }
}

impl<T> BoundedWorkQueue<T> {
    /// A queue is well formed when its abstract state satisfies the model
    /// invariant; every constructor establishes this and every operation
    /// preserves it.
    pub open spec fn wf(&self) -> bool {
        self@.inv()
    }

    /// Creates a queue with the given fixed capacity, counted as holding
    /// one producer handle and one consumer handle.
    ///
    /// Succeeds exactly when `capacity >= 1`; a zero capacity is rejected
    /// with `InvalidCapacity` and no queue is produced.
    pub fn new(capacity: usize) -> (result: Result<Self, CreateError>)
        ensures
            capacity >= 1 ==> (result matches Ok(q) && q.wf() && q@
                == QueueModel::<T>::initial(capacity as nat)),
            capacity == 0 ==> (result matches Err(e) && e == CreateError::InvalidCapacity),
    {
        if capacity == 0 {
            Err(CreateError::InvalidCapacity)
        } else {
            let q = BoundedWorkQueue {
                capacity,
                buffer: Vec::new(),
                closed: false,
                producers: 1,
                consumers: 1,
                enqueued: Ghost(Seq::empty()),
                delivered: Ghost(Seq::empty()),
            };
            proof {
                assert(q@ =~= QueueModel::<T>::initial(capacity as nat));
            }
            Ok(q)
        }
    }

    /// The fixed capacity the queue was created with.
    pub fn capacity(&self) -> (c: usize)
        ensures
            c as nat == self@.capacity,
    {
        self.capacity
    }

    /// How many items are currently buffered (accepted, not yet delivered).
    pub fn len(&self) -> (n: usize)
        ensures
            n as nat == self@.items.len(),
    {
        self.buffer.len()
    }

    /// Number of live producer handles.
    pub fn producers(&self) -> (n: usize)
        ensures
            n as nat == self@.producers,
    {
        self.producers
    }

    /// Number of live consumer handles.
    pub fn consumers(&self) -> (n: usize)
        ensures
            n as nat == self@.consumers,
    {
        self.consumers
    }

    /// Whether the queue has been closed.
    pub fn is_closed(&self) -> (c: bool)
        ensures
            c == self@.closed,
    {
        self.closed
    }

    /// Offers one item to the queue; a single `Enqueue` transition of the
    /// model.
    ///
    /// The item is appended exactly when the queue is open, a consumer
    /// handle is live, and there is room. In every other case the state is
    /// unchanged and the item is returned inside the outcome: `Closed` on a
    /// closed queue, `Abandoned` when no consumer is left, `Full` when the
    /// buffer is at capacity — the caller then suspends and retries, so a
    /// full open queue never loses an item.
    pub fn try_enqueue(&mut self, item: T) -> (outcome: EnqueueOutcome<T>)
        requires
            old(self).wf(),
        ensures
            final(self).wf(),
            final(self)@ == step(old(self)@, QueueOp::Enqueue(item)),
            old(self)@.closed ==> (outcome == EnqueueOutcome::Closed(item) && final(self)@
                == old(self)@),
            (!old(self)@.closed && old(self)@.consumers == 0) ==> (outcome
                == EnqueueOutcome::Abandoned(item) && final(self)@ == old(self)@),
            (!old(self)@.closed && old(self)@.consumers >= 1 && old(self)@.items.len()
                == old(self)@.capacity) ==> (outcome == EnqueueOutcome::Full(item) && final(self)@
                == old(self)@),
            old(self)@.can_enqueue() ==> (outcome == EnqueueOutcome::<T>::Accepted && final(self)@
                == old(self)@.after_enqueue(item)),
    {
        if self.closed {
            EnqueueOutcome::Closed(item)
        } else if self.consumers == 0 {
            EnqueueOutcome::Abandoned(item)
        } else if self.buffer.len() == self.capacity {
            EnqueueOutcome::Full(item)
        } else {
            self.enqueued = Ghost(self.enqueued@.push(item));
            self.buffer.push(item);
            proof {
                assert(self@ =~= old(self)@.after_enqueue(item));
            }
            EnqueueOutcome::Accepted
        }
    }

    /// Asks the queue for one item; a single `Dequeue` transition of the
    /// model.
    ///
    /// Removes and returns the head of the buffer whenever the buffer is
    /// non-empty — also after a close, so buffered items are drained first.
    /// On an empty open queue it returns `Empty` and the caller suspends;
    /// on an empty closed queue it returns `EndOfStream`. The state is
    /// unchanged in both empty cases.
    pub fn try_dequeue(&mut self) -> (outcome: DequeueOutcome<T>)
        requires
            old(self).wf(),
        ensures
            final(self).wf(),
            final(self)@ == step(old(self)@, QueueOp::Dequeue),
            old(self)@.items.len() >= 1 ==> (outcome == DequeueOutcome::Item(old(self)@.items[0])
                && final(self)@ == old(self)@.after_dequeue()),
            (old(self)@.items.len() == 0 && !old(self)@.closed) ==> (outcome
                == DequeueOutcome::<T>::Empty && final(self)@ == old(self)@),
            (old(self)@.items.len() == 0 && old(self)@.closed) ==> (outcome
                == DequeueOutcome::<T>::EndOfStream && final(self)@ == old(self)@),
    {
        if self.buffer.is_empty() {
            if self.closed {
                DequeueOutcome::EndOfStream
            } else {
                DequeueOutcome::Empty
            }
        } else {
            let item = self.buffer.remove(0);
            self.delivered = Ghost(self.delivered@.push(item));
            proof {
                assert(self.buffer@ =~= old(self).buffer@.drop_first());
                assert(self@ =~= old(self)@.after_dequeue());
                lemma_history_shift(old(self)@.delivered, old(self)@.items);
            }
            DequeueOutcome::Item(item)
        }
    }

    /// Closes the queue; a single `Close` transition of the model.
    ///
    /// No new item is accepted from this point on, but buffered items stay
    /// and are still delivered by `try_dequeue`. Closing an already-closed
    /// queue changes nothing.
    pub fn close(&mut self)
        requires
            old(self).wf(),
        ensures
            final(self).wf(),
            final(self)@ == step(old(self)@, QueueOp::Close),
            final(self)@ == old(self)@.after_close(),
    {
        self.closed = true;
        proof {
            assert(self@ =~= old(self)@.after_close());
        }
    }

    /// Records the duplication of a producer handle; a single `DupProducer`
    /// transition of the model.
    pub fn dup_producer(&mut self)
        requires
            old(self).wf(),
            old(self)@.producers >= 1,
            old(self)@.producers < usize::MAX,
        ensures
            final(self).wf(),
            final(self)@ == step(old(self)@, QueueOp::DupProducer),
            final(self)@ == old(self)@.after_dup_producer(),
    {
        self.producers = self.producers + 1;
        proof {
            assert(self@ =~= old(self)@.after_dup_producer());
        }
    }

    /// Records the drop of a producer handle; a single `DropProducer`
    /// transition of the model. Dropping the last producer handle closes
    /// the queue, exactly as an explicit `close` would.
    pub fn drop_producer(&mut self)
        requires
            old(self).wf(),
            old(self)@.producers >= 1,
        ensures
            final(self).wf(),
            final(self)@ == step(old(self)@, QueueOp::DropProducer),
            final(self)@ == old(self)@.after_drop_producer(),
            old(self)@.producers == 1 ==> final(self)@.closed,
    {
        self.producers = self.producers - 1;
        if self.producers == 0 {
            self.closed = true;
        }
        proof {
            assert(self@ =~= old(self)@.after_drop_producer());
        }
    }

    /// Records the duplication of a consumer handle; a single `DupConsumer`
    /// transition of the model.
    pub fn dup_consumer(&mut self)
        requires
            old(self).wf(),
            old(self)@.consumers >= 1,
            old(self)@.consumers < usize::MAX,
        ensures
            final(self).wf(),
            final(self)@ == step(old(self)@, QueueOp::DupConsumer),
            final(self)@ == old(self)@.after_dup_consumer(),
    {
        self.consumers = self.consumers + 1;
        proof {
            assert(self@ =~= old(self)@.after_dup_consumer());
        }
    }

    /// Records the drop of a consumer handle; a single `DropConsumer`
    /// transition of the model. Once the last consumer handle is gone,
    /// later enqueues fail with `Abandoned`.
    pub fn drop_consumer(&mut self)
        requires
            old(self).wf(),
            old(self)@.consumers >= 1,
        ensures
            final(self).wf(),
            final(self)@ == step(old(self)@, QueueOp::DropConsumer),
            final(self)@ == old(self)@.after_drop_consumer(),
    {
        self.consumers = self.consumers - 1;
        proof {
            assert(self@ =~= old(self)@.after_drop_consumer());
        }
    }
}

/// Delivering the head of the buffer keeps the history equation: what was
/// accepted is still what was delivered followed by what remains buffered.
proof fn lemma_history_shift<T>(delivered: Seq<T>, items: Seq<T>)
    requires
        items.len() >= 1,
    ensures
        delivered.push(items[0]) + items.drop_first() == delivered + items,
{
    assert(delivered.push(items[0]) + items.drop_first() =~= delivered + items);
}

} // verus!

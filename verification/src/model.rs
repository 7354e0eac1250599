//! Abstract model of the bounded work queue.
//!
//! `QueueModel` is the mathematical state that the executable queue is
//! specified against: the buffered items as a sequence, the closed flag, the
//! live handle counts, and the full history of items accepted (`enqueued`) and
//! handed out (`delivered`). `QueueOp` and `step` describe every observable
//! transition, so that queue-wide laws can be proved by induction over
//! arbitrary operation sequences.

use vstd::prelude::*;

verus! {

use crate::min_capacity;

/// Mathematical state of a bounded work queue, including the delivery history.
#[verifier::ext_equal]
pub ghost struct QueueModel<T> {
    /// Fixed capacity chosen at creation; never changes afterwards.
    pub capacity: nat,
    /// Items currently buffered, head first; delivery order is their order.
    pub items: Seq<T>,
    /// Whether the queue has been closed; monotonic once set.
    pub closed: bool,
    /// Number of live producer handles.
    pub producers: nat,
    /// Number of live consumer handles.
    pub consumers: nat,
    /// Every item ever accepted by an enqueue, in acceptance order.
    pub enqueued: Seq<T>,
    /// Every item ever handed to a consumer, in delivery order.
    pub delivered: Seq<T>,
}

/// One observable operation on the queue. Operations that find the queue
/// full, empty, closed or abandoned leave the state unchanged (see `step`),
/// so an arbitrary interleaving of callers is a sequence of these.
pub enum QueueOp<T> {
    /// A producer offers an item.
    Enqueue(T),
    /// A consumer asks for an item.
    Dequeue,
    /// A producer closes the queue.
    Close,
    /// A producer handle is duplicated.
    DupProducer,
    /// A producer handle is dropped; the last drop closes the queue.
    DropProducer,
    /// A consumer handle is duplicated.
    DupConsumer,
    /// A consumer handle is dropped.
    DropConsumer,
}

impl<T> QueueModel<T> {
    /// State invariant: the buffer respects the capacity, the history
    /// accounts for every item exactly once (what was accepted is what was
    /// delivered followed by what is still buffered), and a queue whose
    /// producers are all gone is closed.
    pub open spec fn inv(self) -> bool {
        &&& self.capacity >= min_capacity()
        &&& self.items.len() <= self.capacity
        &&& self.enqueued == self.delivered + self.items
        &&& (self.producers == 0 ==> self.closed)
    }

    /// The state of a freshly created queue: empty, open, one producer
    /// handle and one consumer handle.
    pub open spec fn initial(capacity: nat) -> QueueModel<T> {
        QueueModel {
            capacity,
            items: Seq::empty(),
            closed: false,
            producers: 1,
            consumers: 1,
            enqueued: Seq::empty(),
            delivered: Seq::empty(),
        }
    }

    /// An offered item is accepted exactly when the queue is open, someone
    /// can ever receive it, and there is room.
    pub open spec fn can_enqueue(self) -> bool {
        &&& !self.closed
        &&& self.consumers >= 1
        &&& self.items.len() < self.capacity
    }

    /// State after an accepted enqueue.
    pub open spec fn after_enqueue(self, item: T) -> QueueModel<T> {
        QueueModel {
            items: self.items.push(item),
            enqueued: self.enqueued.push(item),
            ..self
        }
    }

    /// State after a dequeue that returned the head item.
    pub open spec fn after_dequeue(self) -> QueueModel<T> {
        QueueModel {
            items: self.items.drop_first(),
            delivered: self.delivered.push(self.items[0]),
            ..self
        }
    }

    /// State after a close; idempotent.
    pub open spec fn after_close(self) -> QueueModel<T> {
        QueueModel { closed: true, ..self }
    }

    /// State after duplicating a producer handle.
    pub open spec fn after_dup_producer(self) -> QueueModel<T> {
        QueueModel { producers: self.producers + 1, ..self }
    }

    /// State after dropping a producer handle: the last drop closes the
    /// queue, so buffered items can still be drained but nothing new enters.
    pub open spec fn after_drop_producer(self) -> QueueModel<T> {
        if self.producers <= 1 {
            QueueModel { producers: 0, closed: true, ..self }
        } else {
            QueueModel { producers: (self.producers - 1) as nat, ..self }
        }
    }

    /// State after duplicating a consumer handle.
    pub open spec fn after_dup_consumer(self) -> QueueModel<T> {
        QueueModel { consumers: self.consumers + 1, ..self }
    }

    /// State after dropping a consumer handle. Once the count reaches zero
    /// the queue is abandoned: enqueues fail fast rather than buffering
    /// items nobody can ever receive.
    pub open spec fn after_drop_consumer(self) -> QueueModel<T> {
        if self.consumers >= 1 {
            QueueModel { consumers: (self.consumers - 1) as nat, ..self }
        } else {
            self
        }
    }
}

/// The transition function: how one operation changes the queue state.
/// An enqueue that is not accepted, and a dequeue of an empty queue, leave
/// the state exactly as it was.
pub open spec fn step<T>(q: QueueModel<T>, op: QueueOp<T>) -> QueueModel<T> {
    match op {
        QueueOp::Enqueue(item) => if q.can_enqueue() {
            q.after_enqueue(item)
        } else {
            q
        },
        QueueOp::Dequeue => if q.items.len() > 0 {
            q.after_dequeue()
        } else {
            q
        },
        QueueOp::Close => q.after_close(),
        QueueOp::DupProducer => q.after_dup_producer(),
        QueueOp::DropProducer => q.after_drop_producer(),
        QueueOp::DupConsumer => q.after_dup_consumer(),
        QueueOp::DropConsumer => q.after_drop_consumer(),
    }
}

/// The state after running a whole sequence of operations, first to last.
pub open spec fn run<T>(q: QueueModel<T>, ops: Seq<QueueOp<T>>) -> QueueModel<T>
    decreases ops.len(),
{
    if ops.len() == 0 {
        q
    } else {
        run(step(q, ops[0]), ops.drop_first())
    }
}

} // verus!

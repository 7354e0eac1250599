//! A fixed-capacity, closable, multi-producer/multi-consumer work queue.
//!
//! Items are delivered in FIFO order, each to exactly one consumer. A full
//! queue pushes back on producers; a closed queue is drained before consumers
//! observe the end of the stream.

use vstd::prelude::*;

pub mod laws;
pub mod model;
pub mod queue;
pub mod shared_map;

verus! {

/// Smallest capacity a queue may be created with.
pub open spec fn min_capacity() -> nat {
    1
}

} // verus!

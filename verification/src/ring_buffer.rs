//! The bounded event queue.
//!
//! A lock-free fixed-capacity queue bridging ingress and the single
//! consumer thread. A push onto a full queue fails fast — the caller's
//! backpressure signal — and neither push nor pop ever blocks. Clones
//! share one logical ring by reference counting, and the queue may be
//! touched by several threads at once; the contracts here therefore state
//! only what holds of each call in isolation, whatever the other handles
//! do concurrently.

use crate::error::ZenithError;
use crate::event::ZenithEvent;
use std::sync::Arc;
use vstd::prelude::*;

verus! {

/// The lock-free bounded queue the ring is built on.
#[verifier::external_type_specification]
#[verifier::external_body]
#[verifier::reject_recursive_types(T)]
pub struct ExArrayQueue<T>(crossbeam::queue::ArrayQueue<T>);

/// The bounded event queue. Clones share one logical ring.
pub struct ZenithRingBuffer {
    queue: Arc<crossbeam::queue::ArrayQueue<ZenithEvent>>,
}

/// The fixed capacity a ring was created with; it never changes over the
/// ring's lifetime, and every clone shares it.
pub uninterp spec fn ring_capacity(q: &ZenithRingBuffer) -> nat;

impl ZenithRingBuffer {
    /// Relies on `crossbeam::queue::ArrayQueue::new`: allocates a bounded
    /// queue of exactly the given capacity. It panics on a zero or
    /// outsized capacity, so those inputs are excluded here.
    #[verifier::external_body]
    pub fn new(capacity: usize) -> (r: Self)
        requires
            1 <= capacity <= 1073741824,
        ensures
            ring_capacity(&r) == capacity,
    {
        ZenithRingBuffer { queue: Arc::new(crossbeam::queue::ArrayQueue::new(capacity)) }
    }

    /// Relies on `crossbeam::queue::ArrayQueue::push`: hands the event to
    /// the queue, or returns it when the queue is at capacity at that
    /// moment. Under concurrency no more can be said of when each case
    /// occurs.
    #[verifier::external_body]
    pub fn push(&self, event: ZenithEvent) -> (r: Result<(), ZenithError>)
        ensures
            r matches Err(e) ==> e == ZenithError::BufferFull,
    {
        self.queue.push(event).map_err(|_| ZenithError::BufferFull)
    }

    /// Relies on `crossbeam::queue::ArrayQueue::pop`: takes the event at
    /// the head of the queue, or nothing when the queue is empty at that
    /// moment.
    #[verifier::external_body]
    pub fn pop(&self) -> (r: Option<ZenithEvent>) {
        self.queue.pop()
    }

    /// Relies on `crossbeam::queue::ArrayQueue::len`: a snapshot of the
    /// number of queued events, never above the capacity.
    #[verifier::external_body]
    pub fn len(&self) -> (r: usize)
        ensures
            r <= ring_capacity(self),
    {
        self.queue.len()
    }

    /// Relies on `crossbeam::queue::ArrayQueue::is_empty`: a snapshot of
    /// whether the queue holds no events.
    #[verifier::external_body]
    pub fn is_empty(&self) -> (r: bool) {
        self.queue.is_empty()
    }
}

impl Clone for ZenithRingBuffer {
    /// Relies on `Arc::clone`: a new handle onto the same logical ring,
    /// with the same capacity.
    #[verifier::external_body]
    fn clone(&self) -> (r: Self)
        ensures
            ring_capacity(&r) == ring_capacity(self),
    {
        ZenithRingBuffer { queue: self.queue.clone() }
    }
}

} // verus!

//! The bounded single-producer single-consumer queues that connect the control
//! side to the render side.
//!
//! The queues are `rtrb` ring buffers. Their two ends live on different
//! threads, so what a `pop` or a `push` returns depends on what the other end
//! has done in the meantime: nothing is promised about whether an element is
//! available or a slot is free.

use vstd::prelude::*;
use rtrb::{Consumer, PopError, Producer, PushError, RingBuffer};

verus! {

/// `rtrb::Producer`, the writing end of a ring buffer. It is carried through
/// as it is: nothing inside it is visible here.
#[verifier::external_type_specification]
#[verifier::external_body]
#[verifier::reject_recursive_types(T)]
pub struct ExProducer<T>(rtrb::Producer<T>);

/// `rtrb::Consumer`, the reading end of a ring buffer. It is carried through
/// as it is: nothing inside it is visible here.
#[verifier::external_type_specification]
#[verifier::external_body]
#[verifier::reject_recursive_types(T)]
pub struct ExConsumer<T>(rtrb::Consumer<T>);

/// The largest capacity that a queue is made with.
pub const MAX_CAPACITY: usize = 1024;

/// `rtrb::RingBuffer::new`: allocates a ring buffer with room for `capacity`
/// elements and hands out its two ends. Nothing is claimed about the ends.
/// The capacity is kept small, so that the size of the allocation can be
/// written down.
#[verifier::external_body]
pub(crate) fn ring_buffer<T>(capacity: usize) -> (ends: (Producer<T>, Consumer<T>))
    requires
        capacity <= MAX_CAPACITY,
{
    RingBuffer::new(capacity)
}

/// `rtrb::Producer::push`: moves `value` into the queue, or hands it back when
/// the queue is full. The claim is only that a rejected value comes back
/// unchanged; whether a slot is free is decided by the consuming thread.
#[verifier::external_body]
pub(crate) fn push<T>(producer: &mut Producer<T>, value: T) -> (rejected: Result<(), T>)
    ensures
        rejected matches Err(back) ==> back == value,
    no_unwind
{
    match producer.push(value) {
        Ok(()) => Ok(()),
        Err(PushError::Full(back)) => Err(back),
    }
}

/// `rtrb::Consumer::pop`: moves the oldest element out of the queue, or
/// reports that the queue is empty. Nothing is claimed about the result,
/// which is decided by the producing thread.
#[verifier::external_body]
pub(crate) fn pop<T>(consumer: &mut Consumer<T>) -> (popped: Option<T>)
    no_unwind
{
    match consumer.pop() {
        Ok(value) => Some(value),
        Err(PopError::Empty) => None,
    }
}

} // verus!

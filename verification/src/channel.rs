//! The bounded multi-producer queues (from `crossbeam_channel`) that connect
//! the stages of the pipeline, and what this crate assumes of them.

use vstd::prelude::*;

verus! {

#[verifier::external_type_specification]
#[verifier::external_body]
#[verifier::reject_recursive_types(T)]
pub struct ExSender<T>(crossbeam_channel::Sender<T>);

#[verifier::external_type_specification]
#[verifier::external_body]
#[verifier::reject_recursive_types(T)]
pub struct ExReceiver<T>(crossbeam_channel::Receiver<T>);

/// Largest queue capacity this crate asks for; `crossbeam_channel::bounded`
/// panics on capacities whose bookkeeping overflows, far above this bound.
pub const MAX_QUEUE_CAPACITY: usize = 0x1000_0000;

/// The two ends of a new bounded queue and the number of messages it holds
/// at most.
#[verifier::reject_recursive_types(T)]
pub(crate) struct QueueEnds<T> {
    pub(crate) tx: crossbeam_channel::Sender<T>,
    pub(crate) rx: crossbeam_channel::Receiver<T>,
    pub(crate) capacity: usize,
}

/// Calls `crossbeam_channel::bounded(cap)`, which creates a queue that holds
/// at most `cap` messages (a rendezvous queue when `cap` is zero) and returns
/// its sending and its receiving end; the capacity it was made with is
/// returned beside them.  Nothing else is claimed of the two ends: their
/// contents are shared with other threads.
#[verifier::external_body]
pub(crate) fn bounded_queue<T>(cap: usize) -> (ends: QueueEnds<T>)
    requires
        cap <= MAX_QUEUE_CAPACITY,
    ensures
        ends.capacity == cap,
{
    let (tx, rx) = crossbeam_channel::bounded(cap);
    QueueEnds { tx, rx, capacity: cap }
}

/// Calls `crossbeam_channel::Sender::send`, which blocks until the queue has
/// room and hands the message over; it fails, giving the message back, when
/// every receiving end has been dropped.  The result says whether the message
/// was handed over; which of the two happens depends on other threads, so no
/// clause states it.
#[verifier::external_body]
pub(crate) fn send_to_queue<T>(tx: &crossbeam_channel::Sender<T>, msg: T) -> (delivered: bool) {
    tx.send(msg).is_ok()
}

} // verus!

//! The lock-free FIFO queue (`crossbeam::queue::SegQueue`) that holds the
//! identifiers of idle connections, one queue per bucket. The pool only
//! touches a queue through an exclusive reference.

use vstd::prelude::*;
use crossbeam::queue::SegQueue;

verus! {

/// Declares `crossbeam::queue::SegQueue` to the verifier.
#[verifier::external_type_specification]
#[verifier::external_body]
#[verifier::reject_recursive_types(T)]
pub struct ExSegQueue<T>(SegQueue<T>);

/// The items of a queue, front first.
pub uninterp spec fn seg_queue_items(q: SegQueue<u64>) -> Seq<u64>;

/// Calls `SegQueue::new`: an empty queue.
#[verifier::external_body]
pub(crate) fn seg_queue_new() -> (q: SegQueue<u64>)
    ensures
        seg_queue_items(q) == Seq::<u64>::empty(),
{
    SegQueue::new()
}

/// Calls `SegQueue::push`: the value joins the back of the queue.
#[verifier::external_body]
pub(crate) fn seg_queue_push(q: &mut SegQueue<u64>, value: u64)
    ensures
        seg_queue_items(*final(q)) == seg_queue_items(*old(q)).push(value),
{
    q.push(value)
}

/// Calls `SegQueue::pop`: the front item leaves the queue and is returned;
/// an empty queue gives `None` and stays empty.
#[verifier::external_body]
pub(crate) fn seg_queue_pop(q: &mut SegQueue<u64>) -> (r: Option<u64>)
    ensures
        seg_queue_items(*old(q)).len() == 0 ==> r is None && seg_queue_items(*final(q))
            == seg_queue_items(*old(q)),
        seg_queue_items(*old(q)).len() > 0 ==> r == Some(seg_queue_items(*old(q))[0])
            && seg_queue_items(*final(q)) == seg_queue_items(*old(q)).drop_first(),
{
    q.pop()
}

} // verus!

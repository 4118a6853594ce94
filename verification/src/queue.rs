//! The bounded FIFO mailbox between the consumer thread and the worker.
//!
//! The ring itself is `heapless::spsc::Queue`. What it does is not proved
//! here: the four functions `queue_new`, `queue_len`, `queue_enqueue` and
//! `queue_dequeue` state it as that crate documents it, and everything else
//! is proved from their contracts.

use crate::event::{NetEvent, NetEventView};
use heapless::spsc::Queue;
use vstd::prelude::*;

verus! {

/// The most events that a mailbox holds at once.
pub const QUEUE_CAPACITY: usize = 1024;

/// `heapless::spsc::Queue`, a fixed ring of `N` slots, of which it always
/// keeps one free: a mailbox is a ring of 1025 slots, so that it holds
/// [`QUEUE_CAPACITY`] events. The ring is opaque here: the contracts speak of
/// what it holds through `queue_items`.
#[verifier::external_type_specification]
#[verifier::external_body]
#[verifier::reject_recursive_types(T)]
pub struct ExQueue<T, const N: usize>(Queue<T, N>);

/// The events that a queue holds, oldest first.
pub uninterp spec fn queue_items(q: Queue<NetEvent, 1025>) -> Seq<NetEventView>;

/// The most events that a mailbox holds at once.
pub open spec fn spec_capacity() -> nat {
    QUEUE_CAPACITY as nat
}

/// Assumed of `Queue::new`: the new queue holds nothing.
#[verifier::external_body]
fn queue_new() -> (q: Queue<NetEvent, 1025>)
    ensures
        queue_items(q) == Seq::<NetEventView>::empty(),
{
    Queue::new()
}

/// Assumed of `Queue::len`: it returns the number of events in the queue,
/// which is never more than the capacity of `N - 1`, here 1024.
#[verifier::external_body]
fn queue_len(q: &Queue<NetEvent, 1025>) -> (n: usize)
    ensures
        n == queue_items(*q).len(),
        n <= spec_capacity(),
{
    q.len()
}

/// Assumed of `Queue::enqueue`: it puts the event behind those in the queue
/// and returns `Ok`, or, when the queue holds `N - 1` events already, here
/// 1024, leaves the queue as it is and returns the event in `Err`.
#[verifier::external_body]
fn queue_enqueue(q: &mut Queue<NetEvent, 1025>, e: NetEvent) -> (r: Result<(), NetEvent>)
    ensures
        queue_items(*old(q)).len() < spec_capacity() ==> r is Ok && queue_items(*final(q))
            == queue_items(*old(q)).push(e@),
        queue_items(*old(q)).len() >= spec_capacity() ==> r is Err && r->Err_0 == e
            && queue_items(*final(q)) == queue_items(*old(q)),
{
    q.enqueue(e)
}

/// Assumed of `Queue::dequeue`: it takes the oldest event out of the queue
/// and returns it, or returns `None` and leaves the queue as it is when the
/// queue is empty.
#[verifier::external_body]
fn queue_dequeue(q: &mut Queue<NetEvent, 1025>) -> (r: Option<NetEvent>)
    ensures
        queue_items(*old(q)).len() == 0 ==> r is None && queue_items(*final(q))
            == queue_items(*old(q)),
        queue_items(*old(q)).len() > 0 ==> r is Some && r->0@ == queue_items(*old(q)).first()
            && queue_items(*final(q)) == queue_items(*old(q)).drop_first(),
{
    q.dequeue()
}

/// A mailbox of events: first in, first out, and never more than
/// [`spec_capacity`] at once.
pub struct EventQueue {
    inner: Queue<NetEvent, 1025>,
}

impl View for EventQueue {
    type V = Seq<NetEventView>;

    closed spec fn view(&self) -> Seq<NetEventView> {
        queue_items(self.inner)
    }
}

impl EventQueue {
    /// An empty mailbox.
    pub fn new() -> (q: EventQueue)
        ensures
            q@ == Seq::<NetEventView>::empty(),
    {
        EventQueue { inner: queue_new() }
    }

    /// The number of events waiting.
    pub fn len(&self) -> (n: usize)
        ensures
            n == self@.len(),
            n <= spec_capacity(),
    {
        queue_len(&self.inner)
    }

    /// Puts `e` at the back. A full mailbox refuses it, gives it back and
    /// stays as it was.
    pub fn enqueue(&mut self, e: NetEvent) -> (r: Result<(), NetEvent>)
        ensures
            old(self)@.len() < spec_capacity() ==> r is Ok && final(self)@ == old(self)@.push(e@),
            old(self)@.len() >= spec_capacity() ==> r is Err && r->Err_0 == e && final(self)@
                == old(self)@,
    {
        queue_enqueue(&mut self.inner, e)
    }

    /// Takes the oldest event, if there is one.
    pub fn dequeue(&mut self) -> (r: Option<NetEvent>)
        ensures
            old(self)@.len() == 0 ==> r is None && final(self)@ == old(self)@,
            old(self)@.len() > 0 ==> r is Some && r->0@ == old(self)@.first() && final(self)@
                == old(self)@.drop_first(),
    {
        queue_dequeue(&mut self.inner)
    }
}

} // verus!

use vstd::prelude::*;
use deadqueue::unlimited::Queue;
use crate::message::StdoutMessage;

verus! {

#[verifier::external_type_specification]
#[verifier::external_body]
#[verifier::reject_recursive_types(T)]
pub struct ExQueue<T>(Queue<T>);

/// The messages a queue currently holds, front first, each by its view
/// (`Some` payload for a line, `None` for the close sentinel).
pub uninterp spec fn queue_view(q: Queue<StdoutMessage>) -> Seq<Option<Seq<char>>>;

/// Relies on deadqueue's `Queue::new`: the fresh queue is empty.
#[verifier::external_body]
pub(crate) fn queue_new() -> (q: Queue<StdoutMessage>)
    ensures
        queue_view(q) == Seq::<Option<Seq<char>>>::empty(),
{
    Queue::new()
}

/// Relies on deadqueue's `Queue::push`: it appends the item at the back
/// of the FIFO and never blocks or fails.
#[verifier::external_body]
pub(crate) fn queue_push(q: &mut Queue<StdoutMessage>, message: StdoutMessage)
    ensures
        queue_view(*final(q)) == queue_view(*old(q)).push(message@),
{
    q.push(message)
}

/// Relies on deadqueue's `Queue::try_pop`: with exclusive access it
/// removes and returns the front item exactly when the queue is
/// non-empty (the internal semaphore holds one permit per queued item).
#[verifier::external_body]
pub(crate) fn queue_try_pop(q: &mut Queue<StdoutMessage>) -> (r: Option<StdoutMessage>)
    ensures
        queue_view(*old(q)).len() == 0 ==> r is None
            && queue_view(*final(q)) == queue_view(*old(q)),
        queue_view(*old(q)).len() > 0 ==> r is Some
            && (r->0)@ == queue_view(*old(q)).first()
            && queue_view(*final(q)) == queue_view(*old(q)).drop_first(),
{
    q.try_pop()
}

} // verus!

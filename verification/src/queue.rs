//! The bounded first-in first-out queue of encoded packets.

use vstd::prelude::*;

verus! {

/// The number of packets that a queue holds at most.
pub const QUEUE_CAPACITY: usize = 10;

/// `heapless::spsc::Queue`, a ring buffer of `N` slots that holds up to
/// `N - 1` items. Nothing of its inside is known here.
#[verifier::external_type_specification]
#[verifier::external_body]
#[verifier::reject_recursive_types(T)]
pub struct ExQueue<T, const N: usize>(heapless::spsc::Queue<T, N>);

/// The items that wait in a queue, the oldest first; each is the length of an
/// encoded packet and the buffer that holds it.
pub uninterp spec fn queue_items(q: heapless::spsc::Queue<(usize, [u8; 1024]), 11>) -> Seq<
    (usize, [u8; 1024]),
>;

/// `heapless::spsc::Queue::new`: the new queue is empty.
#[verifier::external_body]
pub(crate) fn queue_new() -> (q: heapless::spsc::Queue<(usize, [u8; 1024]), 11>)
    ensures
        queue_items(q) == Seq::<(usize, [u8; 1024])>::empty(),
{
    heapless::spsc::Queue::new()
}

/// `heapless::spsc::Queue::len`: the number of items that wait, which the
/// ring of eleven slots keeps at ten or fewer.
#[verifier::external_body]
pub(crate) fn queue_len(q: &heapless::spsc::Queue<(usize, [u8; 1024]), 11>) -> (n: usize)
    ensures
        n == queue_items(*q).len(),
        n <= QUEUE_CAPACITY,
{
    q.len()
}

/// `heapless::spsc::Queue::enqueue`: with fewer than ten items waiting the
/// item goes to the back; with ten the queue stays as it is and the item
/// comes back.
#[verifier::external_body]
pub(crate) fn queue_enqueue(
    q: &mut heapless::spsc::Queue<(usize, [u8; 1024]), 11>,
    item: (usize, [u8; 1024]),
) -> (r: Result<(), (usize, [u8; 1024])>)
    ensures
        queue_items(*old(q)).len() < QUEUE_CAPACITY ==> r is Ok && queue_items(*final(q))
            == queue_items(*old(q)).push(item),
        queue_items(*old(q)).len() >= QUEUE_CAPACITY ==> r is Err && r->Err_0 == item
            && queue_items(*final(q)) == queue_items(*old(q)),
{
    q.enqueue(item)
}

/// `heapless::spsc::Queue::dequeue`: the oldest item leaves, or nothing
/// happens to an empty queue.
#[verifier::external_body]
pub(crate) fn queue_dequeue(q: &mut heapless::spsc::Queue<(usize, [u8; 1024]), 11>) -> (r: Option<
    (usize, [u8; 1024]),
>)
    ensures
        queue_items(*old(q)).len() == 0 ==> r is None
            && queue_items(*final(q)) == queue_items(*old(q)),
        queue_items(*old(q)).len() > 0 ==> r == Some(queue_items(*old(q))[0])
            && queue_items(*final(q)) == queue_items(*old(q)).subrange(
            1,
            queue_items(*old(q)).len() as int,
        ),
{
    q.dequeue()
}

} // verus!

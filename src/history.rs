use crate::geometry::Cell;
use heapless::spsc::Queue;
use vstd::prelude::*;

verus! {

/// Most cells the body history holds.
pub const HISTORY_CAPACITY: usize = 64;

#[verifier::external_type_specification]
#[verifier::external_body]
#[verifier::reject_recursive_types(T)]
pub struct ExQueue<T, const N: usize>(Queue<T, N>);

/// The cells held by a body history queue, oldest first.
pub uninterp spec fn queued_cells(q: Queue<(i32, i32), 65>) -> Seq<(i32, i32)>;

/// Relies on `heapless::spsc::Queue::new`: a new queue is empty.
#[verifier::external_body]
pub(crate) fn empty_history() -> (r: Queue<Cell, 65>)
    ensures
        queued_cells(r) == Seq::<Cell>::empty(),
{
    Queue::new()
}

/// Relies on `heapless::spsc::Queue::len`: the number of queued items, which
/// never exceeds the capacity `N - 1`.
#[verifier::external_body]
pub(crate) fn history_len(q: &Queue<Cell, 65>) -> (r: usize)
    ensures
        r == queued_cells(*q).len(),
        r <= HISTORY_CAPACITY,
{
    q.len()
}

/// Relies on `heapless::spsc::Queue::enqueue`: below capacity the item is
/// added at the back; at capacity the queue is left as it was and the item
/// is handed back.
#[verifier::external_body]
pub(crate) fn push_back(q: &mut Queue<Cell, 65>, c: Cell) -> (r: Result<(), Cell>)
    ensures
        queued_cells(*old(q)).len() < HISTORY_CAPACITY ==> r is Ok
            && queued_cells(*final(q)) == queued_cells(*old(q)).push(c),
        queued_cells(*old(q)).len() >= HISTORY_CAPACITY ==> r is Err
            && queued_cells(*final(q)) == queued_cells(*old(q)),
{
    q.enqueue(c)
}

/// Relies on `heapless::spsc::Queue::dequeue`: the oldest item is removed and
/// returned, or `None` on an empty queue, which stays as it was.
#[verifier::external_body]
pub(crate) fn pop_front(q: &mut Queue<Cell, 65>) -> (r: Option<Cell>)
    ensures
        queued_cells(*old(q)).len() == 0 ==> r is None && queued_cells(*final(q))
            == queued_cells(*old(q)),
        queued_cells(*old(q)).len() > 0 ==> r == Some(queued_cells(*old(q))[0])
            && queued_cells(*final(q)) == queued_cells(*old(q)).drop_first(),
{
    q.dequeue()
}

/// Relies on `heapless::spsc::Queue::iter`, which walks the queue from the
/// oldest item to the newest, and on `Iterator::nth` over it: the item `i`
/// places after the oldest, or `None` when the queue holds no more than `i`.
#[verifier::external_body]
pub(crate) fn history_at(q: &Queue<Cell, 65>, i: usize) -> (r: Option<Cell>)
    ensures
        i < queued_cells(*q).len() ==> r == Some(queued_cells(*q)[i as int]),
        i >= queued_cells(*q).len() ==> r is None,
{
    q.iter().nth(i).copied()
}

} // verus!

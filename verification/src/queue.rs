//! The reservation queue: a bounded first-in first-out store with one
//! consumer. A full queue turns the entry away at once.

use std::collections::VecDeque;
use vstd::prelude::*;

verus! {

/// The entry that a saturated queue turned away, handed back to its owner.
#[derive(Debug, PartialEq, Eq)]
pub struct QueueFullError<T> {
    pub entry: T,
}

/// A bounded queue. Its view is the sequence of waiting entries, oldest
/// first.
pub struct ReservationQueue<T> {
    entries: VecDeque<T>,
    capacity: usize,
}

impl<T> ReservationQueue<T> {
    /// The waiting entries, oldest first.
    pub closed spec fn view(&self) -> Seq<T> {
        self.entries@
    }

    /// The most entries that may wait at once.
    pub closed spec fn capacity(&self) -> nat {
        self.capacity as nat
    }

    /// No more entries wait than the capacity allows. A new queue is so, and
    /// no operation ends it.
    pub open spec fn well_formed(&self) -> bool {
        self@.len() <= self.capacity()
    }

    /// An empty queue with room for `capacity` entries.
    pub fn new(capacity: usize) -> (queue: Self)
        ensures
            queue@ == Seq::<T>::empty(),
            queue.capacity() == capacity,
            queue.well_formed(),
    {
        ReservationQueue { entries: VecDeque::new(), capacity }
    }

    /// The number of waiting entries.
    pub fn len(&self) -> (count: usize)
        ensures
            count == self@.len(),
    {
        self.entries.len()
    }

    /// Whether the next entry would be turned away.
    pub fn is_full(&self) -> (full: bool)
        ensures
            full == (self@.len() >= self.capacity()),
    {
        self.entries.len() >= self.capacity
    }

    /// Accepts the entry behind those that wait, or hands it back untouched
    /// when the queue is full. The waiting entries are never disturbed.
    pub fn enqueue(&mut self, entry: T) -> (accepted: Result<(), QueueFullError<T>>)
        ensures
            final(self).capacity() == old(self).capacity(),
            old(self).well_formed() ==> final(self).well_formed(),
            final(self)@ == contents_after_op(
                old(self)@,
                old(self).capacity(),
                (QueueOp::Enqueue { entry }),
            ),
            old(self)@.len() < old(self).capacity() ==> accepted is Ok
                && final(self)@ == old(self)@.push(entry),
            old(self)@.len() >= old(self).capacity() ==> accepted == Err::<(), QueueFullError<T>>(
                QueueFullError { entry },
            ) && final(self)@ == old(self)@,
    {
        if self.entries.len() >= self.capacity {
            return Err(QueueFullError { entry });
        }
        self.entries.push_back(entry);
        Ok(())
    }

    /// Takes the oldest waiting entry, if there is one; the others keep
    /// their order.
    pub fn dequeue(&mut self) -> (oldest: Option<T>)
        ensures
            final(self).capacity() == old(self).capacity(),
            old(self).well_formed() ==> final(self).well_formed(),
            final(self)@ == contents_after_op(
                old(self)@,
                old(self).capacity(),
                QueueOp::<T>::Dequeue,
            ),
            old(self)@.len() == 0 ==> oldest is None && final(self)@ == old(self)@,
            old(self)@.len() > 0 ==> oldest == Some(old(self)@[0])
                && final(self)@ == old(self)@.drop_first(),
    {
        self.entries.pop_front()
    }
}

/// One use of a queue.
pub enum QueueOp<T> {
    Enqueue { entry: T },
    Dequeue,
}

/// The waiting entries after one use: an entry joins at the back if there
/// is room, the oldest leaves from the front if there is one.
pub open spec fn contents_after_op<T>(contents: Seq<T>, capacity: nat, op: QueueOp<T>) -> Seq<T> {
    match op {
        QueueOp::Enqueue { entry } => if contents.len() < capacity {
            contents.push(entry)
        } else {
            contents
        },
        QueueOp::Dequeue => if contents.len() > 0 {
            contents.drop_first()
        } else {
            contents
        },
    }
}

/// The waiting entries after the uses, taken in order.
pub open spec fn contents_after<T>(start: Seq<T>, capacity: nat, ops: Seq<QueueOp<T>>) -> Seq<T>
    decreases ops.len(),
{
    if ops.len() == 0 {
        start
    } else {
        contents_after_op(contents_after(start, capacity, ops.drop_last()), capacity, ops.last())
    }
}

/// The entries that the queue accepted during the uses, in order.
pub open spec fn accepted_entries<T>(start: Seq<T>, capacity: nat, ops: Seq<QueueOp<T>>) -> Seq<T>
    decreases ops.len(),
{
    if ops.len() == 0 {
        Seq::empty()
    } else {
        let earlier = accepted_entries(start, capacity, ops.drop_last());
        let waiting = contents_after(start, capacity, ops.drop_last());
        match ops.last() {
            QueueOp::Enqueue { entry } => if waiting.len() < capacity {
                earlier.push(entry)
            } else {
                earlier
            },
            QueueOp::Dequeue => earlier,
        }
    }
}

/// The entries that the queue handed to its consumer during the uses, in
/// order.
pub open spec fn delivered_entries<T>(start: Seq<T>, capacity: nat, ops: Seq<QueueOp<T>>) -> Seq<T>
    decreases ops.len(),
{
    if ops.len() == 0 {
        Seq::empty()
    } else {
        let earlier = delivered_entries(start, capacity, ops.drop_last());
        let waiting = contents_after(start, capacity, ops.drop_last());
        match ops.last() {
            QueueOp::Enqueue { .. } => earlier,
            QueueOp::Dequeue => if waiting.len() > 0 {
                earlier.push(waiting[0])
            } else {
                earlier
            },
        }
    }
}

/// First in, first out: whatever the uses, the entries handed out followed
/// by those still waiting are the entries that waited at the start followed
/// by those accepted since, in that order. Nothing is lost, repeated or
/// reordered, and a queue within its capacity stays within it.
pub proof fn law_first_in_first_out<T>(start: Seq<T>, capacity: nat, ops: Seq<QueueOp<T>>)
    ensures
        delivered_entries(start, capacity, ops) + contents_after(start, capacity, ops) == start
            + accepted_entries(start, capacity, ops),
        start.len() <= capacity ==> contents_after(start, capacity, ops).len() <= capacity,
    decreases ops.len(),
{
    if ops.len() == 0 {
        assert(Seq::<T>::empty() + start =~= start + Seq::<T>::empty());
    } else {
        let before = ops.drop_last();
        law_first_in_first_out(start, capacity, before);
        let waiting = contents_after(start, capacity, before);
        let given = delivered_entries(start, capacity, before);
        let taken = accepted_entries(start, capacity, before);
        assert(given + waiting == start + taken);
        match ops.last() {
            QueueOp::Enqueue { entry } => {
                if waiting.len() < capacity {
                    assert(given + waiting.push(entry) =~= (given + waiting).push(entry));
                    assert(start + taken.push(entry) =~= (start + taken).push(entry));
                }
            },
            QueueOp::Dequeue => {
                if waiting.len() > 0 {
                    assert(given.push(waiting[0]) + waiting.drop_first() =~= given + waiting);
                }
            },
        }
    }
}

} // verus!

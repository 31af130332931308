//! What a bounded queue is, mathematically: the values it holds, oldest first,
//! and the number of values it can hold. Every operation of the queue is a
//! function on this model, and the laws of the queue are proved of it here.
use vstd::prelude::*;

verus! {

/// A bounded queue as a value: its contents from front to back and its fixed
/// capacity.
#[verifier::ext_equal]
pub struct QueueModel<T> {
    pub contents: Seq<T>,
    pub max_len: nat,
}

impl<T> QueueModel<T> {
    /// The queue that was just made: nothing in it.
    pub open spec fn fresh(max_len: nat) -> Self {
        QueueModel { contents: Seq::empty(), max_len }
    }

    /// The number of values in the queue.
    pub open spec fn len(self) -> nat {
        self.contents.len()
    }

    /// No queue holds more than its capacity.
    pub open spec fn well_formed(self) -> bool {
        self.contents.len() <= self.max_len
    }

    /// Whether one more value fits.
    pub open spec fn has_room(self) -> bool {
        self.contents.len() < self.max_len
    }

    /// How many more values fit.
    pub open spec fn room(self) -> nat {
        if self.has_room() {
            (self.max_len - self.contents.len()) as nat
        } else {
            0
        }
    }

    /// What an attempt to put `item` into the queue answers, at either end:
    /// success where there is room, the item itself where there is none.
    pub open spec fn offer_outcome(self, item: T) -> Result<(), T> {
        if self.has_room() {
            Ok(())
        } else {
            Err(item)
        }
    }

    /// The queue after an attempt to put `item` at its back.
    pub open spec fn append(self, item: T) -> Self {
        if self.has_room() {
            QueueModel { contents: self.contents.push(item), max_len: self.max_len }
        } else {
            self
        }
    }

    /// The queue after an attempt to put `item` at its front.
    pub open spec fn prepend(self, item: T) -> Self {
        if self.has_room() {
            QueueModel { contents: seq![item] + self.contents, max_len: self.max_len }
        } else {
            self
        }
    }

    /// The value at the front, if the queue holds any.
    pub open spec fn front(self) -> Option<T> {
        if self.contents.len() > 0 {
            Some(self.contents[0])
        } else {
            None
        }
    }

    /// The queue after an attempt to receive: without its front value, if it
    /// had one.
    pub open spec fn receive(self) -> Self {
        if self.contents.len() > 0 {
            QueueModel { contents: self.contents.skip(1), max_len: self.max_len }
        } else {
            self
        }
    }

    /// The queue after it was cleared.
    pub open spec fn clear(self) -> Self {
        QueueModel { contents: Seq::empty(), max_len: self.max_len }
    }

    /// The queue after an attempt to append each of `items`, first to last.
    pub open spec fn append_all(self, items: Seq<T>) -> Self
        decreases items.len(),
    {
        if items.len() == 0 {
            self
        } else {
            self.append_all(items.drop_last()).append(items.last())
        }
    }

    /// The queue after `count` attempts to receive.
    pub open spec fn receive_n(self, count: nat) -> Self
        decreases count,
    {
        if count == 0 {
            self
        } else {
            self.receive().receive_n((count - 1) as nat)
        }
    }
}

/// Receiving as often as there are values, or less often, removes that many
/// values from the front and leaves the others as they were.
pub proof fn receiving_removes_from_the_front<T>(queue: QueueModel<T>, count: nat)
    requires
        count <= queue.len(),
    ensures
        queue.receive_n(count).contents == queue.contents.skip(count as int),
        queue.receive_n(count).max_len == queue.max_len,
    decreases count,
{
    if count > 0 {
        receiving_removes_from_the_front(queue.receive(), (count - 1) as nat);
        assert(queue.contents.skip(1).skip(count - 1) == queue.contents.skip(count as int));
    } else {
        assert(queue.contents.skip(0) == queue.contents);
    }
}

/// A fresh queue is empty and has the capacity it was made with.
pub proof fn fresh_queue_is_empty<T>(max_len: nat)
    ensures
        QueueModel::<T>::fresh(max_len).len() == 0,
        QueueModel::<T>::fresh(max_len).max_len == max_len,
        QueueModel::<T>::fresh(max_len).well_formed(),
        QueueModel::<T>::fresh(max_len).front() is None,
{
}

/// A value that was appended with success is counted, and it is received,
/// exactly as it was given, once the values that were queued before it have
/// been received: at once where the queue was empty. Receiving it brings the
/// count back to what it was.
pub proof fn appended_value_is_received<T>(queue: QueueModel<T>, value: T)
    requires
        queue.offer_outcome(value) is Ok,
    ensures
        queue.append(value).len() == queue.len() + 1,
        queue.append(value).receive_n(queue.len()).front() == Some(value),
        queue.append(value).receive_n(queue.len() + 1).len() == 0,
        queue.len() == 0 ==> queue.append(value).front() == Some(value),
        queue.append(value).receive().len() == queue.len(),
        queue.len() == 0 ==> queue.append(value).receive() == queue,
{
    let after = queue.append(value);
    receiving_removes_from_the_front(after, queue.len());
    receiving_removes_from_the_front(after, queue.len() + 1);
    if queue.len() == 0 {
        assert(after.contents.skip(1) == queue.contents);
    }
}

/// A queue without room gives a value offered at either end back as it came
/// and stays as it was.
pub proof fn full_queue_returns_value<T>(queue: QueueModel<T>, value: T)
    requires
        !queue.has_room(),
    ensures
        queue.offer_outcome(value) == Err::<(), T>(value),
        queue.append(value) == queue,
        queue.prepend(value) == queue,
        queue.append(value).len() == queue.len(),
        queue.prepend(value).len() == queue.len(),
{
}

/// An empty queue gives nothing and stays as it was.
pub proof fn empty_queue_gives_nothing<T>(queue: QueueModel<T>)
    requires
        queue.len() == 0,
    ensures
        queue.front() is None,
        queue.receive() == queue,
        queue.receive().len() == 0,
{
}

/// Appending values for which there is room puts them behind what the queue
/// holds, in the order in which they were appended.
pub proof fn appended_values_are_queued_in_order<T>(queue: QueueModel<T>, items: Seq<T>)
    requires
        queue.len() + items.len() <= queue.max_len,
    ensures
        queue.append_all(items).contents == queue.contents + items,
        queue.append_all(items).max_len == queue.max_len,
    decreases items.len(),
{
    if items.len() > 0 {
        appended_values_are_queued_in_order(queue, items.drop_last());
        assert((queue.contents + items.drop_last()).push(items.last()) == queue.contents + items);
    } else {
        assert(queue.contents + items == queue.contents);
    }
}

/// First in, first out: of values appended to a queue that has room for them
/// all, the one appended at place `index` is received at place `index` after
/// the values that the queue held before, and so first of all where the
/// queue was empty.
pub proof fn appended_values_are_received_in_order<T>(
    queue: QueueModel<T>,
    items: Seq<T>,
    index: nat,
)
    requires
        queue.len() + items.len() <= queue.max_len,
        index < items.len(),
    ensures
        queue.append_all(items).receive_n(queue.len() + index).front() == Some(
            items[index as int],
        ),
        QueueModel::<T>::fresh(queue.max_len).append_all(items).receive_n(index).front() == Some(
            items[index as int],
        ),
{
    let fresh = QueueModel::<T>::fresh(queue.max_len);
    appended_values_are_queued_in_order(queue, items);
    appended_values_are_queued_in_order(fresh, items);
    receiving_removes_from_the_front(queue.append_all(items), queue.len() + index);
    receiving_removes_from_the_front(fresh.append_all(items), index);
}

/// A value that was prepended with success is received before every value
/// that was in the queue, and receiving it leaves the queue as it was.
pub proof fn prepended_value_is_received_first<T>(queue: QueueModel<T>, value: T)
    requires
        queue.offer_outcome(value) is Ok,
    ensures
        queue.prepend(value).len() == queue.len() + 1,
        queue.prepend(value).front() == Some(value),
        queue.prepend(value).receive() == queue,
{
    assert(queue.prepend(value).contents.skip(1) == queue.contents);
}

/// Clearing empties a queue whatever it held, keeps its capacity, and is what
/// receiving every value in turn comes to.
pub proof fn clearing_empties_the_queue<T>(queue: QueueModel<T>)
    ensures
        queue.clear().len() == 0,
        queue.clear().max_len == queue.max_len,
        queue.clear() == queue.receive_n(queue.len()),
{
    receiving_removes_from_the_front(queue, queue.len());
    assert(queue.contents.skip(queue.len() as int) == Seq::<T>::empty());
}

/// No operation lets a queue grow beyond its capacity or changes the capacity.
pub proof fn capacity_is_kept<T>(queue: QueueModel<T>, value: T)
    requires
        queue.well_formed(),
    ensures
        queue.append(value).well_formed() && queue.append(value).max_len == queue.max_len,
        queue.prepend(value).well_formed() && queue.prepend(value).max_len == queue.max_len,
        queue.receive().well_formed() && queue.receive().max_len == queue.max_len,
        queue.clear().well_formed() && queue.clear().max_len == queue.max_len,
{
}

} // verus!

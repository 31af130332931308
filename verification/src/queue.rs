//! A bounded queue of typed values that owns what it holds: a value moves into
//! the queue when it is sent and out of it when it is received, and an attempt
//! that finds no room hands the value back.
//!
//! Whoever calls an operation holds the queue exclusively, so nobody makes
//! room or adds a value while the call waits. A wait with a bound therefore
//! ends as it began, and a wait without bound is only allowed where it has
//! nothing to wait for.
use vstd::prelude::*;
use vstd::layout::size_of;
use vstd::pervasive::unreached;
use std::collections::VecDeque;
use core::time::Duration;
use crate::queue_model::QueueModel;
use crate::stream::{
    DuplexStream,
    DuplexTimeoutStream,
    MessageStreamCreator,
    ReceiveStream,
    ReceiveTimeoutStream,
    SendStream,
    SendTimeoutStream,
};

verus! {

/// `Duration::from_millis` of std: the duration of so many milliseconds. It
/// never fails. Nothing is claimed of the value: no contract of this library
/// depends on how long a timeout is.
pub assume_specification[ Duration::from_millis ](millis: u64) -> (timeout: Duration)
;

/// A queue that holds up to a fixed number of values of type `T`.
#[derive(Debug)]
pub struct Queue<T> where T: 'static + Send {
    items: VecDeque<T>,
    max_length: u32,
}

impl<T> View for Queue<T> where T: 'static + Send {
    type V = QueueModel<T>;

    closed spec fn view(&self) -> QueueModel<T> {
        QueueModel { contents: self.items@, max_len: self.max_length as nat }
    }
}

impl<T> Queue<T> where T: 'static + Send {
    #[verifier::type_invariant]
    spec fn within_capacity(&self) -> bool {
        self.items@.len() <= self.max_length
    }

    /// Takes the stored values out for a change and leaves none behind.
    fn take_items(&mut self) -> (items: VecDeque<T>)
        ensures
            items@ == old(self).items@,
            final(self).items@ == Seq::<T>::empty(),
            final(self).max_length == old(self).max_length,
    {
        let mut items = VecDeque::new();
        core::mem::swap(&mut self.items, &mut items);
        items
    }

    /// Creates a queue that can store up to `max_length` values.
    pub fn new(max_length: u32) -> (queue: Self)
        ensures
            queue@ == QueueModel::<T>::fresh(max_length as nat),
    {
        Queue { items: VecDeque::new(), max_length }
    }

    /// Puts `item` at the front of the queue, ahead of what it holds.
    /// `timeout` bounds the wait for room, and `None` asks for a wait without
    /// bound, which is only allowed where there is room. Answers `Ok` where
    /// the queue took the item and hands the item back, as it came, where the
    /// queue has no room.
    pub fn prepend(&mut self, item: T, timeout: Option<Duration>) -> (outcome: Result<(), T>)
        requires
            timeout is Some || old(self)@.has_room(),
        ensures
            outcome == old(self)@.offer_outcome(item),
            final(self)@ == old(self)@.prepend(item),
            final(self)@.well_formed(),
    {
        proof {
            use_type_invariant(&*self);
        }
        if self.items.len() < self.max_length as usize {
            let mut items = self.take_items();
            items.push_front(item);
            self.items = items;
            Ok(())
        } else {
            Err(item)
        }
    }

    /// Puts `item` at the back of the queue, behind what it holds. `timeout`
    /// bounds the wait for room, and `None` asks for a wait without bound,
    /// which is only allowed where there is room. Answers `Ok` where the
    /// queue took the item and hands the item back, as it came, where the
    /// queue has no room.
    pub fn append(&mut self, item: T, timeout: Option<Duration>) -> (outcome: Result<(), T>)
        requires
            timeout is Some || old(self)@.has_room(),
        ensures
            outcome == old(self)@.offer_outcome(item),
            final(self)@ == old(self)@.append(item),
            final(self)@.well_formed(),
    {
        proof {
            use_type_invariant(&*self);
        }
        if self.items.len() < self.max_length as usize {
            let mut items = self.take_items();
            items.push_back(item);
            self.items = items;
            Ok(())
        } else {
            Err(item)
        }
    }

    /// Takes the value at the front out of the queue. `timeout` bounds the
    /// wait for a value, and `None` asks for a wait without bound, which is
    /// only allowed where the queue holds a value. Answers `None`, and leaves
    /// the queue as it is, where the queue is empty.
    pub fn queue_receive(&mut self, timeout: Option<Duration>) -> (received: Option<T>)
        requires
            timeout is Some || old(self)@.len() > 0,
        ensures
            received == old(self)@.front(),
            final(self)@ == old(self)@.receive(),
            final(self)@.well_formed(),
    {
        proof {
            use_type_invariant(&*self);
        }
        let mut items = self.take_items();
        let received = items.pop_front();
        self.items = items;
        received
    }

    /// The number of values in the queue, which is never more than it can
    /// hold.
    pub fn len(&self) -> (count: u32)
        ensures
            count == self@.len(),
            self@.well_formed(),
    {
        proof {
            use_type_invariant(self);
        }
        self.items.len() as u32
    }

    /// The number of values the queue can hold.
    pub fn max_len(&self) -> (limit: u32)
        ensures
            limit == self@.max_len,
    {
        self.max_length
    }

    /// Takes every value out of the queue, one receive without a wait after
    /// the other, and drops each.
    pub fn clear(&mut self)
        ensures
            final(self)@ == old(self)@.clear(),
            final(self)@.well_formed(),
    {
        loop
            invariant
                self@.max_len == old(self)@.max_len,
            ensures
                self@ == old(self)@.clear(),
                self@.well_formed(),
            decreases self@.len(),
        {
            match self.queue_receive(Some(Duration::from_millis(0))) {
                Some(_dropped) => {},
                None => {
                    break ;
                },
            }
        }
    }
}

impl<T> Queue<T> where T: 'static + Send + Copy {
    /// Copies the value at the front of the queue without taking it out.
    /// `timeout` bounds the wait for a value, and `None` asks for a wait
    /// without bound, which is only allowed where the queue holds a value.
    /// Answers `None` where the queue is empty.
    pub fn peek(&self, timeout: Option<Duration>) -> (copied: Option<T>)
        requires
            timeout is Some || self@.len() > 0,
        ensures
            copied == self@.front(),
    {
        if self.items.len() > 0 {
            Some(self.items[0])
        } else {
            None
        }
    }
}

impl<T> SendStream for Queue<T> where T: 'static + Send {
    type SData = T;

    open spec fn outgoing(&self) -> Seq<T> {
        self@.contents
    }

    open spec fn room(&self) -> nat {
        self@.room()
    }

    /// Sending keeps the capacity, and the contents within it.
    open spec fn send_keeps(&self, later: &Self) -> bool {
        &&& later@.max_len == self@.max_len
        &&& self@.well_formed() ==> later@.well_formed()
    }

    proof fn send_keeps_reflexive(&self) {
    }

    proof fn send_keeps_transitive(&self, mid: &Self, later: &Self) {
    }

    fn send(&mut self, val: T)
        ensures
            final(self)@ == old(self)@.append(val),
    {
        match self.append(val, None) {
            Ok(_) => {},
            Err(_) => unreached(),
        }
    }
}

impl<T> SendTimeoutStream for Queue<T> where T: 'static + Send {
    fn send_timeout(&mut self, val: T, timeout: Duration) -> (rejected: Option<T>)
        ensures
            final(self)@ == old(self)@.append(val),
    {
        match self.append(val, Some(timeout)) {
            Ok(_) => None,
            Err(error) => Some(error),
        }
    }
}

impl<T> ReceiveStream for Queue<T> where T: 'static + Send {
    type RData = T;

    open spec fn incoming(&self) -> Seq<T> {
        self@.contents
    }

    /// Receiving keeps the capacity, and the contents within it.
    open spec fn receive_keeps(&self, later: &Self) -> bool {
        &&& later@.max_len == self@.max_len
        &&& self@.well_formed() ==> later@.well_formed()
    }

    proof fn receive_keeps_reflexive(&self) {
    }

    proof fn receive_keeps_transitive(&self, mid: &Self, later: &Self) {
    }

    fn try_receive(&mut self) -> (received: Option<T>)
        ensures
            final(self)@ == old(self)@.receive(),
    {
        self.queue_receive(Some(Duration::from_millis(0)))
    }

    fn receive(&mut self) -> (received: T)
        ensures
            final(self)@ == old(self)@.receive(),
    {
        match self.queue_receive(None) {
            None => unreached(),
            Some(val) => val,
        }
    }
}

impl<T> ReceiveTimeoutStream for Queue<T> where T: 'static + Send {
    fn receive_timeout(&mut self, timeout: Duration) -> (received: Option<T>)
        ensures
            final(self)@ == old(self)@.receive(),
    {
        self.queue_receive(Some(timeout))
    }
}

impl<T> DuplexStream for Queue<T> where T: 'static + Send {

}

impl<T> DuplexTimeoutStream for Queue<T> where T: 'static + Send {

}

/// The storage, in bytes, that the small preset sets aside for a queue.
pub const SMALL_STORAGE: u32 = 1024;

/// The storage, in bytes, that the large preset sets aside for a queue.
pub const LARGE_STORAGE: u32 = 16384;

/// The capacity of a queue with `storage` bytes for values of `element_size`
/// bytes each: as many values as fit, and one more, so that it is never zero.
pub open spec fn preset_capacity(storage: nat, element_size: nat) -> nat
    recommends
        element_size > 0,
{
    storage / element_size + 1
}

/// Computes `preset_capacity`.
pub fn capacity_for(storage: u32, element_size: usize) -> (capacity: u32)
    requires
        element_size > 0,
        storage < u32::MAX,
    ensures
        capacity == preset_capacity(storage as nat, element_size as nat),
        1 <= capacity <= storage + 1,
{
    let fit = storage as usize / element_size;
    assert(fit <= storage) by (nonlinear_arith)
        requires
            fit == storage as int / element_size as int,
            element_size > 0,
            storage >= 0,
    ;
    fit as u32 + 1
}

/// Makes queues with at least 1 KiB of storage.
#[derive(Copy, Clone, Debug)]
pub struct QueueCreator1k();

impl<T> MessageStreamCreator<T> for QueueCreator1k where T: 'static + Send {
    type Stream = Queue<T>;

    open spec fn can_create(&self) -> bool {
        size_of::<T>() > 0
    }

    open spec fn capacity(&self) -> nat {
        preset_capacity(SMALL_STORAGE as nat, size_of::<T>())
    }

    fn create_stream(&self) -> (stream: Queue<T>) {
        Queue::<T>::new(capacity_for(SMALL_STORAGE, core::mem::size_of::<T>()))
    }
}

/// Makes queues with at least 16 KiB of storage.
#[derive(Copy, Clone, Debug)]
pub struct QueueCreator16k();

impl<T> MessageStreamCreator<T> for QueueCreator16k where T: 'static + Send {
    type Stream = Queue<T>;

    open spec fn can_create(&self) -> bool {
        size_of::<T>() > 0
    }

    open spec fn capacity(&self) -> nat {
        preset_capacity(LARGE_STORAGE as nat, size_of::<T>())
    }

    fn create_stream(&self) -> (stream: Queue<T>) {
        Queue::<T>::new(capacity_for(LARGE_STORAGE, core::mem::size_of::<T>()))
    }
}

/// What the self-test of the queue found wrong.
#[derive(Debug, PartialEq, Eq)]
pub enum QueueTestFailure {
    /// The queue reports a capacity other than the one it was made with.
    MaxLength { expected: u32, actual: u32 },
    /// The queue reports a number of values other than the number put in and
    /// not yet taken out.
    Length { expected: u32, actual: u32 },
    /// The queue did not take a value although it had room.
    Insert { value: i32 },
    /// The queue gave nothing although it held a value.
    Receive,
    /// The queue gave a value other than the one put in.
    Value { sent: i32, received: i32 },
}

/// Puts a queue through one round: makes it, checks its capacity and that it
/// is empty, appends a value, checks the count, receives the value, and checks
/// the value and the count. It finds nothing wrong.
pub fn queue_test() -> (outcome: Result<(), QueueTestFailure>)
    ensures
        outcome is Ok,
{
    let queue_length: u32 = 100;
    let mut queue: Queue<i32> = Queue::new(queue_length);
    if queue.max_len() != 100 {
        return Err(
            QueueTestFailure::MaxLength { expected: queue_length, actual: queue.max_len() },
        );
    }
    if queue.len() != 0 {
        return Err(QueueTestFailure::Length { expected: 0, actual: queue.len() });
    }
    let insert_val: i32 = 1424;
    if queue.append(insert_val, Some(Duration::from_millis(100))).is_err() {
        return Err(QueueTestFailure::Insert { value: insert_val });
    }
    if queue.len() != 1 {
        return Err(QueueTestFailure::Length { expected: 1, actual: queue.len() });
    }
    match queue.queue_receive(Some(Duration::from_millis(100))) {
        None => {
            return Err(QueueTestFailure::Receive);
        },
        Some(received) => {
            if received != insert_val {
                return Err(QueueTestFailure::Value { sent: insert_val, received });
            }
        },
    }
    if queue.len() != 0 {
        return Err(QueueTestFailure::Length { expected: 0, actual: queue.len() });
    }
    Ok(())
}

} // verus!

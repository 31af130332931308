//! The capabilities of a stream: what it means to take values in and to hand
//! values out, one at a time or in batches, with or without a bound on the wait.
//!
//! A stream is held exclusively while it is used, so nothing but the caller
//! changes it during a call. A bounded wait for room or for a value can then
//! only end the way it began: it succeeds at once or not at all. The contracts
//! below say which, and an unbounded wait is only allowed where it ends.
use vstd::prelude::*;
use core::time::Duration;

verus! {

/// How many of `offered` values find a place among `available` ones: the
/// smaller of the two.
pub open spec fn fitting(available: nat, offered: nat) -> nat {
    if offered <= available {
        offered
    } else {
        available
    }
}

/// A stream that takes values in.
pub trait SendStream: Sized {
    type SData;

    /// The values taken in and not yet handed out, oldest first.
    spec fn outgoing(&self) -> Seq<Self::SData>;

    /// How many more values the stream takes before a sender has to wait.
    spec fn room(&self) -> nat;

    /// What sending never touches: holds of a stream and of what it has
    /// become when nothing but sending happened to it in between.
    spec fn send_keeps(&self, later: &Self) -> bool;

    /// A stream to which nothing happened has kept everything.
    proof fn send_keeps_reflexive(&self)
        ensures
            self.send_keeps(self),
    ;

    /// What two runs of sending keep, one after the other, both keep together.
    proof fn send_keeps_transitive(&self, mid: &Self, later: &Self)
        requires
            self.send_keeps(mid),
            mid.send_keeps(later),
        ensures
            self.send_keeps(later),
    ;

    /// Hands `val` to the stream, waiting for room without bound. The wait has
    /// to end, so there must be room.
    fn send(&mut self, val: Self::SData)
        requires
            old(self).room() > 0,
        ensures
            final(self).outgoing() == old(self).outgoing().push(val),
            final(self).room() == old(self).room() - 1,
            old(self).send_keeps(final(self)),
    ;

    /// Sends a copy of every element of `slice`, first to last.
    fn send_slice(&mut self, slice: &[Self::SData]) where Self::SData: Copy
        requires
            old(self).room() >= slice@.len(),
        ensures
            final(self).outgoing() == old(self).outgoing() + slice@,
            final(self).room() == old(self).room() - slice@.len(),
            old(self).send_keeps(final(self)),
    {
        proof {
            self.send_keeps_reflexive();
        }
        let mut index: usize = 0;
        while index < slice.len()
            invariant
                index <= slice@.len(),
                old(self).room() >= slice@.len(),
                self.outgoing() == old(self).outgoing() + slice@.take(index as int),
                self.room() == old(self).room() - index,
                old(self).send_keeps(self),
            decreases slice@.len() - index,
        {
            let ghost before = *self;
            self.send(slice[index]);
            proof {
                old(self).send_keeps_transitive(&before, self);
                assert(slice@.take(index + 1) == slice@.take(index as int).push(
                    slice@[index as int],
                ));
            }
            index += 1;
        }
        proof {
            assert(slice@.take(index as int) == slice@);
        }
    }

    /// Sends every element of `data`, first to last.
    fn send_vec(&mut self, data: Vec<Self::SData>)
        requires
            old(self).room() >= data@.len(),
        ensures
            final(self).outgoing() == old(self).outgoing() + data@,
            final(self).room() == old(self).room() - data@.len(),
            old(self).send_keeps(final(self)),
    {
        proof {
            self.send_keeps_reflexive();
        }
        let ghost all = data@;
        for val in it: data
            invariant
                it.seq() == all,
                old(self).room() >= all.len(),
                self.outgoing() == old(self).outgoing() + all.take(it.index() as int),
                self.room() == old(self).room() - it.index(),
                old(self).send_keeps(self),
        {
            let ghost before = *self;
            self.send(val);
            proof {
                old(self).send_keeps_transitive(&before, self);
                assert(all.take(it.index() + 1) == all.take(it.index() as int).push(val));
            }
        }
        proof {
            assert(all.take(all.len() as int) == all);
        }
    }
}

/// A stream that takes values in and lets the sender bound the wait.
pub trait SendTimeoutStream: SendStream {
    /// Offers `val` to the stream and waits for room no longer than `timeout`.
    /// Where there is room the stream takes the value and `None` comes back;
    /// where there is none the value comes back and the stream is as before.
    fn send_timeout(&mut self, val: Self::SData, timeout: Duration) -> (rejected: Option<
        Self::SData,
    >)
        ensures
            old(self).send_keeps(final(self)),
            old(self).room() > 0 ==> rejected is None && final(self).outgoing() == old(
                self,
            ).outgoing().push(val) && final(self).room() == old(self).room() - 1,
            old(self).room() == 0 ==> rejected == Some(val) && final(self).outgoing() == old(
                self,
            ).outgoing() && final(self).room() == 0,
    ;

    /// Sends copies of the elements of `slice`, first to last, until one finds
    /// no room. Returns how many were not taken.
    fn send_slice_timeout(&mut self, slice: &[Self::SData], timeout: Duration) -> (unsent:
        usize) where Self::SData: Copy
        ensures
            unsent == slice@.len() - fitting(old(self).room(), slice@.len()),
            final(self).outgoing() == old(self).outgoing() + slice@.take(
                fitting(old(self).room(), slice@.len()) as int,
            ),
            final(self).room() == old(self).room() - fitting(old(self).room(), slice@.len()),
            old(self).send_keeps(final(self)),
    {
        proof {
            self.send_keeps_reflexive();
        }
        let mut index: usize = 0;
        while index < slice.len()
            invariant
                index <= slice@.len(),
                index <= old(self).room(),
                self.outgoing() == old(self).outgoing() + slice@.take(index as int),
                self.room() == old(self).room() - index,
                old(self).send_keeps(self),
            decreases slice@.len() - index,
        {
            let ghost before = *self;
            let rejected = self.send_timeout(slice[index], timeout);
            proof {
                old(self).send_keeps_transitive(&before, self);
            }
            if rejected.is_some() {
                return slice.len() - index;
            }
            proof {
                assert(slice@.take(index + 1) == slice@.take(index as int).push(
                    slice@[index as int],
                ));
            }
            index += 1;
        }
        0
    }

    /// Sends the elements of `data`, first to last, until one finds no room.
    /// Returns those that were not taken, in their order, or `None` where all
    /// were.
    fn send_vec_timeout(&mut self, data: Vec<Self::SData>, timeout: Duration) -> (unsent: Option<
        Vec<Self::SData>,
    >)
        ensures
            data@.len() <= old(self).room() ==> unsent is None,
            data@.len() > old(self).room() ==> unsent is Some && unsent->0@ == data@.skip(
                old(self).room() as int,
            ),
            final(self).outgoing() == old(self).outgoing() + data@.take(
                fitting(old(self).room(), data@.len()) as int,
            ),
            final(self).room() == old(self).room() - fitting(old(self).room(), data@.len()),
            old(self).send_keeps(final(self)),
    {
        proof {
            self.send_keeps_reflexive();
        }
        let ghost all = data@;
        let mut rest: Vec<Self::SData> = Vec::new();
        for val in it: data
            invariant
                it.seq() == all,
                rest@.len() <= it.index(),
                it.index() - rest@.len() <= old(self).room(),
                rest@.len() > 0 ==> it.index() - rest@.len() == old(self).room(),
                rest@ == all.subrange(it.index() - rest@.len(), it.index() as int),
                self.outgoing() == old(self).outgoing() + all.take(it.index() - rest@.len()),
                self.room() == old(self).room() - (it.index() - rest@.len()),
                old(self).send_keeps(self),
        {
            let ghost sent = it.index() - rest@.len();
            if rest.len() == 0 {
                let ghost before = *self;
                match self.send_timeout(val, timeout) {
                    None => {
                        proof {
                            assert(all.take(sent + 1) == all.take(sent).push(val));
                        }
                    },
                    Some(back) => {
                        rest.push(back);
                    },
                }
                proof {
                    old(self).send_keeps_transitive(&before, self);
                }
            } else {
                rest.push(val);
            }
            proof {
                assert(rest@ == all.subrange(it.index() + 1 - rest@.len(), it.index() + 1));
            }
        }
        if rest.len() == 0 {
            None
        } else {
            proof {
                assert(all.subrange(old(self).room() as int, all.len() as int) == all.skip(
                    old(self).room() as int,
                ));
            }
            Some(rest)
        }
    }
}

/// A stream that hands values out.
pub trait ReceiveStream: Sized {
    type RData;

    /// The values that wait to be received, in the order in which they will be.
    spec fn incoming(&self) -> Seq<Self::RData>;

    /// What receiving never touches: holds of a stream and of what it has
    /// become when nothing but receiving happened to it in between.
    spec fn receive_keeps(&self, later: &Self) -> bool;

    /// A stream to which nothing happened has kept everything.
    proof fn receive_keeps_reflexive(&self)
        ensures
            self.receive_keeps(self),
    ;

    /// What two runs of receiving keep, one after the other, both keep together.
    proof fn receive_keeps_transitive(&self, mid: &Self, later: &Self)
        requires
            self.receive_keeps(mid),
            mid.receive_keeps(later),
        ensures
            self.receive_keeps(later),
    ;

    /// Takes the first waiting value, if there is one, without waiting.
    fn try_receive(&mut self) -> (received: Option<Self::RData>)
        ensures
            old(self).receive_keeps(final(self)),
            old(self).incoming().len() > 0 ==> received == Some(old(self).incoming()[0])
                && final(self).incoming() == old(self).incoming().skip(1),
            old(self).incoming().len() == 0 ==> received is None && final(self).incoming() == old(
                self,
            ).incoming(),
    ;

    /// Takes the first waiting value, waiting for one without bound. The wait
    /// has to end, so a value must be waiting.
    fn receive(&mut self) -> (received: Self::RData)
        requires
            old(self).incoming().len() > 0,
        ensures
            received == old(self).incoming()[0],
            final(self).incoming() == old(self).incoming().skip(1),
            old(self).receive_keeps(final(self)),
    ;

    /// Moves waiting values into `buffer` from its start, as many as wait and
    /// fit, without waiting. Returns how many; the rest of `buffer` stays.
    fn receive_slice(&mut self, buffer: &mut [Self::RData]) -> (count: usize)
        ensures
            count == fitting(old(self).incoming().len(), old(buffer)@.len()),
            final(buffer)@ == old(self).incoming().take(count as int) + old(buffer)@.skip(
                count as int,
            ),
            final(self).incoming() == old(self).incoming().skip(count as int),
            old(self).receive_keeps(final(self)),
    {
        proof {
            self.receive_keeps_reflexive();
        }
        let mut index: usize = 0;
        while index < buffer.len()
            invariant
                buffer@.len() == old(buffer)@.len(),
                index <= buffer@.len(),
                index <= old(self).incoming().len(),
                buffer@ == old(self).incoming().take(index as int) + old(buffer)@.skip(
                    index as int,
                ),
                self.incoming() == old(self).incoming().skip(index as int),
                old(self).receive_keeps(self),
            decreases buffer@.len() - index,
        {
            let ghost before = *self;
            let received = self.try_receive();
            proof {
                old(self).receive_keeps_transitive(&before, self);
            }
            match received {
                Some(val) => {
                    buffer[index] = val;
                    proof {
                        assert(self.incoming() == old(self).incoming().skip(index + 1));
                        assert(buffer@ == old(self).incoming().take(index + 1) + old(buffer)@.skip(
                            index + 1,
                        ));
                    }
                    index += 1;
                },
                None => {
                    return index;
                },
            }
        }
        index
    }

    /// Fills `buffer` with the first waiting values, waiting without bound for
    /// each. The wait has to end, so enough values must be waiting.
    fn receive_all(&mut self, buffer: &mut [Self::RData])
        requires
            old(self).incoming().len() >= old(buffer)@.len(),
        ensures
            final(buffer)@ == old(self).incoming().take(old(buffer)@.len() as int),
            final(self).incoming() == old(self).incoming().skip(old(buffer)@.len() as int),
            old(self).receive_keeps(final(self)),
    {
        proof {
            self.receive_keeps_reflexive();
        }
        let mut index: usize = 0;
        while index < buffer.len()
            invariant
                buffer@.len() == old(buffer)@.len(),
                index <= buffer@.len(),
                old(self).incoming().len() >= buffer@.len(),
                buffer@ == old(self).incoming().take(index as int) + old(buffer)@.skip(
                    index as int,
                ),
                self.incoming() == old(self).incoming().skip(index as int),
                old(self).receive_keeps(self),
            decreases buffer@.len() - index,
        {
            let ghost before = *self;
            let val = self.receive();
            buffer[index] = val;
            proof {
                old(self).receive_keeps_transitive(&before, self);
                assert(self.incoming() == old(self).incoming().skip(index + 1));
                assert(buffer@ == old(self).incoming().take(index + 1) + old(buffer)@.skip(
                    index + 1,
                ));
            }
            index += 1;
        }
        proof {
            assert(buffer@ == old(self).incoming().take(index as int));
        }
    }

    /// Takes waiting values, first to last, as many as wait but no more than
    /// `limit`, without waiting.
    fn receive_vec(&mut self, limit: usize) -> (received: Vec<Self::RData>)
        ensures
            received@ == old(self).incoming().take(
                fitting(old(self).incoming().len(), limit as nat) as int,
            ),
            final(self).incoming() == old(self).incoming().skip(received@.len() as int),
            old(self).receive_keeps(final(self)),
    {
        proof {
            self.receive_keeps_reflexive();
        }
        let mut out: Vec<Self::RData> = Vec::new();
        while out.len() < limit
            invariant
                out@.len() <= limit,
                out@.len() <= old(self).incoming().len(),
                out@ == old(self).incoming().take(out@.len() as int),
                self.incoming() == old(self).incoming().skip(out@.len() as int),
                old(self).receive_keeps(self),
            decreases limit - out@.len(),
        {
            let ghost before = *self;
            let ghost count = out@.len() as int;
            let received = self.try_receive();
            proof {
                old(self).receive_keeps_transitive(&before, self);
            }
            match received {
                Some(val) => {
                    out.push(val);
                    proof {
                        assert(self.incoming() == old(self).incoming().skip(count + 1));
                        assert(out@ == old(self).incoming().take(count + 1));
                    }
                },
                None => {
                    return out;
                },
            }
        }
        out
    }
}

/// A stream that hands values out and lets the receiver bound the wait.
pub trait ReceiveTimeoutStream: ReceiveStream {
    /// Takes the first waiting value and waits for one no longer than
    /// `timeout`. Where none waits, none comes and the stream is as before.
    fn receive_timeout(&mut self, timeout: Duration) -> (received: Option<Self::RData>)
        ensures
            old(self).receive_keeps(final(self)),
            old(self).incoming().len() > 0 ==> received == Some(old(self).incoming()[0])
                && final(self).incoming() == old(self).incoming().skip(1),
            old(self).incoming().len() == 0 ==> received is None && final(self).incoming() == old(
                self,
            ).incoming(),
    ;

    /// Moves waiting values into `buffer` from its start until it is full or a
    /// wait of `timeout` brings none. Returns how many; the rest of `buffer`
    /// stays.
    fn receive_slice_timeout(&mut self, buffer: &mut [Self::RData], timeout: Duration) -> (count:
        usize)
        ensures
            count == fitting(old(self).incoming().len(), old(buffer)@.len()),
            final(buffer)@ == old(self).incoming().take(count as int) + old(buffer)@.skip(
                count as int,
            ),
            final(self).incoming() == old(self).incoming().skip(count as int),
            old(self).receive_keeps(final(self)),
    {
        proof {
            self.receive_keeps_reflexive();
        }
        let mut index: usize = 0;
        while index < buffer.len()
            invariant
                buffer@.len() == old(buffer)@.len(),
                index <= buffer@.len(),
                index <= old(self).incoming().len(),
                buffer@ == old(self).incoming().take(index as int) + old(buffer)@.skip(
                    index as int,
                ),
                self.incoming() == old(self).incoming().skip(index as int),
                old(self).receive_keeps(self),
            decreases buffer@.len() - index,
        {
            let ghost before = *self;
            let received = self.receive_timeout(timeout);
            proof {
                old(self).receive_keeps_transitive(&before, self);
            }
            match received {
                Some(val) => {
                    buffer[index] = val;
                    proof {
                        assert(self.incoming() == old(self).incoming().skip(index + 1));
                        assert(buffer@ == old(self).incoming().take(index + 1) + old(buffer)@.skip(
                            index + 1,
                        ));
                    }
                    index += 1;
                },
                None => {
                    return index;
                },
            }
        }
        index
    }

    /// Takes waiting values, first to last, until there are `limit` of them or
    /// a wait of `timeout` brings none.
    fn receive_vec_timeout(&mut self, limit: usize, timeout: Duration) -> (received: Vec<
        Self::RData,
    >)
        ensures
            received@ == old(self).incoming().take(
                fitting(old(self).incoming().len(), limit as nat) as int,
            ),
            final(self).incoming() == old(self).incoming().skip(received@.len() as int),
            old(self).receive_keeps(final(self)),
    {
        proof {
            self.receive_keeps_reflexive();
        }
        let mut out: Vec<Self::RData> = Vec::new();
        while out.len() < limit
            invariant
                out@.len() <= limit,
                out@.len() <= old(self).incoming().len(),
                out@ == old(self).incoming().take(out@.len() as int),
                self.incoming() == old(self).incoming().skip(out@.len() as int),
                old(self).receive_keeps(self),
            decreases limit - out@.len(),
        {
            let ghost before = *self;
            let ghost count = out@.len() as int;
            let received = self.receive_timeout(timeout);
            proof {
                old(self).receive_keeps_transitive(&before, self);
            }
            match received {
                Some(val) => {
                    out.push(val);
                    proof {
                        assert(self.incoming() == old(self).incoming().skip(count + 1));
                        assert(out@ == old(self).incoming().take(count + 1));
                    }
                },
                None => {
                    return out;
                },
            }
        }
        out
    }
}

/// A stream that both takes in and hands out values of one type.
pub trait DuplexStream: SendStream + ReceiveStream<RData = <Self as SendStream>::SData> {

}

/// A duplex stream on which both the sender and the receiver can bound the wait.
pub trait DuplexTimeoutStream: SendTimeoutStream + ReceiveTimeoutStream<
    RData = <Self as SendStream>::SData,
> {

}

/// A factory of streams for values of type `T`, with a capacity that the
/// creator sets.
pub trait MessageStreamCreator<T>: Sized {
    /// The stream that is made: one object that is both of its ends.
    type Stream: SendStream<SData = T> + ReceiveStream<RData = T>;

    /// Whether the creator can size a stream for values of type `T`.
    spec fn can_create(&self) -> bool;

    /// How many values a stream that the creator makes can hold.
    spec fn capacity(&self) -> nat;

    /// Makes a stream that holds nothing yet and has room for `capacity()`
    /// values, which is at least one.
    fn create_stream(&self) -> (stream: Self::Stream)
        requires
            self.can_create(),
        ensures
            stream.outgoing() == Seq::<T>::empty(),
            stream.incoming() == Seq::<T>::empty(),
            stream.room() == self.capacity(),
            self.capacity() >= 1,
    ;
}

/// `after` is `before` once it has taken in `values`, first to last, and
/// nothing else has happened to it: what every sending operation ensures of
/// the values that it hands over.
pub open spec fn has_sent<S: SendStream>(before: &S, values: Seq<S::SData>, after: &S) -> bool {
    &&& values.len() <= before.room()
    &&& after.outgoing() =~= before.outgoing() + values
    &&& after.room() == before.room() - values.len()
    &&& before.send_keeps(after)
}

/// `after` is `before` once it has handed out the first `count` of its
/// waiting values, and nothing else has happened to it: what every receiving
/// operation ensures of the number of values that it hands out.
pub open spec fn has_received<R: ReceiveStream>(before: &R, count: nat, after: &R) -> bool {
    &&& count <= before.incoming().len()
    &&& after.incoming() =~= before.incoming().skip(count as int)
    &&& before.receive_keeps(after)
}

/// Sending one batch and then another is sending the two as one.
pub proof fn sending_adds_up<S: SendStream>(
    before: &S,
    first: Seq<S::SData>,
    mid: &S,
    second: Seq<S::SData>,
    after: &S,
)
    requires
        has_sent(before, first, mid),
        has_sent(mid, second, after),
    ensures
        has_sent(before, first + second, after),
{
    before.send_keeps_transitive(mid, after);
    assert(before.outgoing() + (first + second) == (before.outgoing() + first) + second);
}

/// Receiving some values and then some more is receiving them all at once.
pub proof fn receiving_adds_up<R: ReceiveStream>(
    before: &R,
    first: nat,
    mid: &R,
    second: nat,
    after: &R,
)
    requires
        has_received(before, first, mid),
        has_received(mid, second, after),
    ensures
        has_received(before, first + second, after),
{
    before.receive_keeps_transitive(mid, after);
    assert(before.incoming().skip(first as int).skip(second as int) == before.incoming().skip(
        (first + second) as int,
    ));
}

} // verus!

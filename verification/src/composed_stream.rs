//! Two streams as one: a stream to send into and a stream to receive from,
//! joined into an object that offers both ends. It holds nothing of its own and
//! changes nothing on the way: each operation is the operation of one leg.
use vstd::prelude::*;
use core::time::Duration;
use crate::stream::{
    fitting,
    has_received,
    has_sent,
    DuplexStream,
    DuplexTimeoutStream,
    ReceiveStream,
    ReceiveTimeoutStream,
    SendStream,
    SendTimeoutStream,
};

verus! {

/// A sending leg and a receiving leg for values of one type.
#[derive(Debug)]
pub struct ComposedStream<S, R> where S: SendStream, R: ReceiveStream<RData = S::SData> {
    pub send_stream: S,
    pub receive_stream: R,
}

impl<S, R> ComposedStream<S, R> where S: SendStream, R: ReceiveStream<RData = S::SData> {
    /// Joins the two legs.
    pub fn new(send_stream: S, receive_stream: R) -> (composed: Self)
        ensures
            composed.send_stream == send_stream,
            composed.receive_stream == receive_stream,
    {
        Self { send_stream, receive_stream }
    }
}

impl<S, R> SendStream for ComposedStream<S, R> where
    S: SendStream,
    R: ReceiveStream<RData = S::SData>,
 {
    type SData = S::SData;

    open spec fn outgoing(&self) -> Seq<Self::SData> {
        self.send_stream.outgoing()
    }

    open spec fn room(&self) -> nat {
        self.send_stream.room()
    }

    /// Sending keeps what the sending leg keeps, and keeps the receiving leg
    /// as it is.
    open spec fn send_keeps(&self, later: &Self) -> bool {
        &&& self.send_stream.send_keeps(&later.send_stream)
        &&& later.receive_stream == self.receive_stream
    }

    proof fn send_keeps_reflexive(&self) {
        self.send_stream.send_keeps_reflexive();
    }

    proof fn send_keeps_transitive(&self, mid: &Self, later: &Self) {
        self.send_stream.send_keeps_transitive(&mid.send_stream, &later.send_stream);
    }

    fn send(&mut self, val: Self::SData)
        ensures
            has_sent(&old(self).send_stream, seq![val], &final(self).send_stream),
            final(self).receive_stream == old(self).receive_stream,
    {
        self.send_stream.send(val)
    }

    fn send_slice(&mut self, slice: &[Self::SData]) where Self::SData: Copy
        ensures
            has_sent(&old(self).send_stream, slice@, &final(self).send_stream),
            final(self).receive_stream == old(self).receive_stream,
    {
        self.send_stream.send_slice(slice)
    }

    fn send_vec(&mut self, data: Vec<Self::SData>)
        ensures
            has_sent(&old(self).send_stream, data@, &final(self).send_stream),
            final(self).receive_stream == old(self).receive_stream,
    {
        self.send_stream.send_vec(data)
    }
}

impl<S, R> SendTimeoutStream for ComposedStream<S, R> where
    S: SendTimeoutStream,
    R: ReceiveStream<RData = S::SData>,
 {
    fn send_timeout(&mut self, val: Self::SData, timeout: Duration) -> (rejected: Option<
        Self::SData,
    >)
        ensures
            has_sent(
                &old(self).send_stream,
                seq![val].take(fitting(old(self).send_stream.room(), 1) as int),
                &final(self).send_stream,
            ),
            final(self).receive_stream == old(self).receive_stream,
    {
        self.send_stream.send_timeout(val, timeout)
    }

    fn send_slice_timeout(&mut self, slice: &[Self::SData], timeout: Duration) -> (unsent:
        usize) where Self::SData: Copy
        ensures
            has_sent(
                &old(self).send_stream,
                slice@.take(slice@.len() - unsent),
                &final(self).send_stream,
            ),
            final(self).receive_stream == old(self).receive_stream,
    {
        self.send_stream.send_slice_timeout(slice, timeout)
    }

    fn send_vec_timeout(&mut self, data: Vec<Self::SData>, timeout: Duration) -> (unsent: Option<
        Vec<Self::SData>,
    >)
        ensures
            has_sent(
                &old(self).send_stream,
                data@.take(fitting(old(self).send_stream.room(), data@.len()) as int),
                &final(self).send_stream,
            ),
            final(self).receive_stream == old(self).receive_stream,
    {
        self.send_stream.send_vec_timeout(data, timeout)
    }
}

impl<S, R> ReceiveStream for ComposedStream<S, R> where
    S: SendStream,
    R: ReceiveStream<RData = S::SData>,
 {
    type RData = R::RData;

    open spec fn incoming(&self) -> Seq<Self::RData> {
        self.receive_stream.incoming()
    }

    /// Receiving keeps what the receiving leg keeps, and keeps the sending leg
    /// as it is.
    open spec fn receive_keeps(&self, later: &Self) -> bool {
        &&& self.receive_stream.receive_keeps(&later.receive_stream)
        &&& later.send_stream == self.send_stream
    }

    proof fn receive_keeps_reflexive(&self) {
        self.receive_stream.receive_keeps_reflexive();
    }

    proof fn receive_keeps_transitive(&self, mid: &Self, later: &Self) {
        self.receive_stream.receive_keeps_transitive(&mid.receive_stream, &later.receive_stream);
    }

    fn try_receive(&mut self) -> (received: Option<Self::RData>)
        ensures
            has_received(
                &old(self).receive_stream,
                fitting(old(self).receive_stream.incoming().len(), 1),
                &final(self).receive_stream,
            ),
            final(self).send_stream == old(self).send_stream,
    {
        self.receive_stream.try_receive()
    }

    fn receive(&mut self) -> (received: Self::RData)
        ensures
            has_received(&old(self).receive_stream, 1, &final(self).receive_stream),
            final(self).send_stream == old(self).send_stream,
    {
        self.receive_stream.receive()
    }

    fn receive_slice(&mut self, buffer: &mut [Self::RData]) -> (count: usize)
        ensures
            has_received(&old(self).receive_stream, count as nat, &final(self).receive_stream),
            final(self).send_stream == old(self).send_stream,
    {
        self.receive_stream.receive_slice(buffer)
    }

    fn receive_all(&mut self, buffer: &mut [Self::RData])
        ensures
            has_received(
                &old(self).receive_stream,
                old(buffer)@.len(),
                &final(self).receive_stream,
            ),
            final(self).send_stream == old(self).send_stream,
    {
        self.receive_stream.receive_all(buffer)
    }

    fn receive_vec(&mut self, limit: usize) -> (received: Vec<Self::RData>)
        ensures
            has_received(&old(self).receive_stream, received@.len(), &final(self).receive_stream),
            final(self).send_stream == old(self).send_stream,
    {
        self.receive_stream.receive_vec(limit)
    }
}

impl<S, R> ReceiveTimeoutStream for ComposedStream<S, R> where
    S: SendStream,
    R: ReceiveTimeoutStream<RData = S::SData>,
 {
    fn receive_timeout(&mut self, timeout: Duration) -> (received: Option<Self::RData>)
        ensures
            has_received(
                &old(self).receive_stream,
                fitting(old(self).receive_stream.incoming().len(), 1),
                &final(self).receive_stream,
            ),
            final(self).send_stream == old(self).send_stream,
    {
        self.receive_stream.receive_timeout(timeout)
    }

    fn receive_slice_timeout(&mut self, buffer: &mut [Self::RData], timeout: Duration) -> (count:
        usize)
        ensures
            has_received(&old(self).receive_stream, count as nat, &final(self).receive_stream),
            final(self).send_stream == old(self).send_stream,
    {
        self.receive_stream.receive_slice_timeout(buffer, timeout)
    }

    fn receive_vec_timeout(&mut self, limit: usize, timeout: Duration) -> (received: Vec<
        Self::RData,
    >)
        ensures
            has_received(&old(self).receive_stream, received@.len(), &final(self).receive_stream),
            final(self).send_stream == old(self).send_stream,
    {
        self.receive_stream.receive_vec_timeout(limit, timeout)
    }
}

impl<S, R> DuplexStream for ComposedStream<S, R> where
    S: SendStream,
    R: ReceiveStream<RData = S::SData>,
 {

}

impl<S, R> DuplexTimeoutStream for ComposedStream<S, R> where
    S: SendTimeoutStream,
    R: ReceiveTimeoutStream<RData = S::SData>,
 {

}

/// Delegation is transparent: to send values through a composed stream is to
/// send them through its sending leg and to leave the receiving leg exactly as
/// it is; to receive through it is to receive from its receiving leg and to
/// leave the sending leg exactly as it is. What waits, what was taken in and
/// how much room there is are those of the legs.
pub proof fn composed_stream_is_its_legs<S, R>(
    composed: ComposedStream<S, R>,
    values: Seq<S::SData>,
    count: nat,
    later: ComposedStream<S, R>,
) where S: SendStream, R: ReceiveStream<RData = S::SData>
    ensures
        composed.outgoing() == composed.send_stream.outgoing(),
        composed.room() == composed.send_stream.room(),
        composed.incoming() == composed.receive_stream.incoming(),
        has_sent(&composed, values, &later) <==> has_sent(
            &composed.send_stream,
            values,
            &later.send_stream,
        ) && later.receive_stream == composed.receive_stream,
        has_received(&composed, count, &later) <==> has_received(
            &composed.receive_stream,
            count,
            &later.receive_stream,
        ) && later.send_stream == composed.send_stream,
{
}

} // verus!

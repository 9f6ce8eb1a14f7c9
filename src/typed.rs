use core::marker::PhantomData;
use vstd::prelude::*;

use crate::channel::{
    decode_outcome, frame_view, incoming_frame, outgoing_frame, send_outcome,
    UnreliableBincodeChannel,
};
use crate::error::{
    recv_result_in_range, send_result_in_range, RecvError, SendError, TransportRecvError,
    TransportSendError,
};
use crate::MAX_MESSAGE_LEN;

verus! {

/// An `UnreliableBincodeChannel` that carries messages of the single type `T` only.
pub struct UnreliableTypedChannel<T> {
    channel: UnreliableBincodeChannel,
    _phantom: PhantomData<T>,
}

impl<T> View for UnreliableTypedChannel<T> {
    type V = Seq<u8>;

    closed spec fn view(&self) -> Seq<u8> {
        self.channel@
    }
}

impl<T> UnreliableTypedChannel<T> {
    /// The buffer keeps its fixed capacity.
    pub open spec fn wf(&self) -> bool {
        self@.len() == MAX_MESSAGE_LEN
    }

    /// A channel whose buffer holds `MAX_MESSAGE_LEN` zero bytes.
    pub fn new() -> (r: Self)
        ensures
            r.wf(),
            r@ == Seq::new(MAX_MESSAGE_LEN as nat, |i: int| 0u8),
    {
        UnreliableTypedChannel { channel: UnreliableBincodeChannel::new(), _phantom: PhantomData }
    }

    /// The whole buffer, for the encoder or the transport to write a message into.
    pub fn buffer_mut(&mut self) -> (b: &mut [u8; MAX_MESSAGE_LEN])
        requires
            old(self).wf(),
        ensures
            b@ == old(self)@,
            final(self)@ == final(b)@,
            final(self).wf(),
    {
        self.channel.buffer_mut()
    }

    /// The bytes to hand to the transport after encoding a `T` into `buffer_mut`;
    /// as `UnreliableBincodeChannel::outgoing`.
    pub fn outgoing(&self, encoded: Result<usize, bincode::Error>) -> (r: Result<&[u8], SendError>)
        requires
            self.wf(),
            encoded is Ok ==> encoded->Ok_0 <= self@.len(),
        ensures
            frame_view(r) == outgoing_frame(self@, encoded),
            r is Ok <==> encoded is Ok,
            r is Ok ==> r->Ok_0@.len() <= MAX_MESSAGE_LEN,
    {
        self.channel.outgoing(encoded)
    }

    /// Reports the transport's answer to a send.
    pub fn finish_send(sent: Result<(), TransportSendError>) -> (r: Result<(), SendError>)
        requires
            send_result_in_range(sent),
        ensures
            r == send_outcome(sent),
    {
        UnreliableBincodeChannel::finish_send(sent)
    }

    /// Reports the transport's answer to a flush.
    pub fn finish_flush(flushed: Result<(), TransportSendError>) -> (r: Result<(), SendError>)
        requires
            send_result_in_range(flushed),
        ensures
            r == send_outcome(flushed),
    {
        UnreliableBincodeChannel::finish_flush(flushed)
    }

    /// The message bytes to decode as a `T` after the transport received into `buffer_mut`.
    pub fn incoming(&self, received: Result<usize, TransportRecvError>) -> (r: Result<
        &[u8],
        RecvError,
    >)
        requires
            self.wf(),
            recv_result_in_range(received),
            received is Ok ==> received->Ok_0 <= self@.len(),
        ensures
            frame_view(r) == incoming_frame(self@, received),
    {
        self.channel.incoming(received)
    }

    /// Reports the decoder's result for a received `T`.
    pub fn finish_recv(decoded: Result<T, bincode::Error>) -> (r: Result<T, RecvError>)
        ensures
            r == decode_outcome(decoded),
    {
        UnreliableBincodeChannel::finish_recv(decoded)
    }
}

} // verus!

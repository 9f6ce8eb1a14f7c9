use vstd::prelude::*;

use crate::error::{
    recv_error_of, recv_result_in_range, send_error_of, send_result_in_range, RecvError,
    SendError, TransportRecvError, TransportSendError,
};
use crate::MAX_MESSAGE_LEN;

verus! {

/// The bytes of a message whose encoding left the last `remaining` bytes of `buf` untouched:
/// exactly the written prefix.
pub open spec fn frame_of(buf: Seq<u8>, remaining: int) -> Seq<u8> {
    buf.subrange(0, buf.len() - remaining)
}

/// What `send` hands on, given the buffer after encoding and the encoder's outcome
/// (how many bytes of the buffer it left unused, or its error).
pub open spec fn outgoing_frame(buf: Seq<u8>, encoded: Result<usize, bincode::Error>) -> Result<
    Seq<u8>,
    SendError,
> {
    match encoded {
        Ok(remaining) => Ok(frame_of(buf, remaining as int)),
        Err(e) => Err(SendError::BincodeError(e)),
    }
}

/// What `recv` hands to the decoder, given the buffer after the transport filled it and
/// the transport's outcome.
pub open spec fn incoming_frame(buf: Seq<u8>, received: Result<usize, TransportRecvError>) -> Result<
    Seq<u8>,
    RecvError,
> {
    match received {
        Ok(len) => Ok(buf.subrange(0, len as int)),
        Err(e) => Err(recv_error_of(e)),
    }
}

/// The outcome of a transport send or flush, as this layer reports it.
pub open spec fn send_outcome(sent: Result<(), TransportSendError>) -> Result<(), SendError> {
    match sent {
        Ok(()) => Ok(()),
        Err(e) => Err(send_error_of(e)),
    }
}

/// The outcome of decoding a received message, as this layer reports it.
pub open spec fn decode_outcome<T>(decoded: Result<T, bincode::Error>) -> Result<T, RecvError> {
    match decoded {
        Ok(v) => Ok(v),
        Err(e) => Err(RecvError::BincodeError(e)),
    }
}

/// The contents of a borrowed frame, with the error kept as it is.
pub open spec fn frame_view<E>(r: Result<&[u8], E>) -> Result<Seq<u8>, E> {
    match r {
        Ok(s) => Ok(s@),
        Err(e) => Err(e),
    }
}

/// Message framing over an unreliable channel, with one reusable buffer of
/// `MAX_MESSAGE_LEN` bytes for both encoding and decoding.
///
/// Messages are not guaranteed to arrive, nor to arrive in order. Each operation is split
/// in steps around the transport: the encoder or the transport writes into `buffer_mut`,
/// and the channel decides what is handed on and what is reported.
pub struct UnreliableBincodeChannel {
    buffer: Box<[u8; MAX_MESSAGE_LEN]>,
}

impl View for UnreliableBincodeChannel {
    type V = Seq<u8>;

    closed spec fn view(&self) -> Seq<u8> {
        self.buffer@
    }
}

impl UnreliableBincodeChannel {
    /// The buffer keeps its fixed capacity.
    pub open spec fn wf(&self) -> bool {
        self@.len() == MAX_MESSAGE_LEN
    }

    /// A channel whose buffer holds `MAX_MESSAGE_LEN` zero bytes.
    pub fn new() -> (r: Self)
        ensures
            r.wf(),
            r@ == Seq::new(MAX_MESSAGE_LEN as nat, |i: int| 0u8),
    {
        let r = UnreliableBincodeChannel { buffer: Box::new([0u8; MAX_MESSAGE_LEN]) };
        assert(r@ =~= Seq::new(MAX_MESSAGE_LEN as nat, |i: int| 0u8));
        r
    }

    /// The number of bytes the buffer holds.
    pub fn capacity(&self) -> (r: usize)
        requires
            self.wf(),
        ensures
            r == self@.len(),
            r == MAX_MESSAGE_LEN,
    {
        MAX_MESSAGE_LEN
    }

    /// The whole buffer, for the encoder or the transport to write a message into.
    pub fn buffer_mut(&mut self) -> (b: &mut [u8; MAX_MESSAGE_LEN])
        requires
            old(self).wf(),
        ensures
            b@ == old(self)@,
            final(self)@ == final(b)@,
            final(self).wf(),
    {
        &mut *self.buffer
    }

    /// The bytes to hand to the transport after encoding a message into `buffer_mut`.
    /// `encoded` is how many bytes of the buffer the encoder left unused, or its error;
    /// on an error nothing is handed on.
    pub fn outgoing(&self, encoded: Result<usize, bincode::Error>) -> (r: Result<&[u8], SendError>)
        requires
            self.wf(),
            encoded is Ok ==> encoded->Ok_0 <= self@.len(),
        ensures
            frame_view(r) == outgoing_frame(self@, encoded),
            r is Ok <==> encoded is Ok,
            r is Ok ==> r->Ok_0@.len() == self@.len() - encoded->Ok_0,
            r is Ok ==> r->Ok_0@.len() <= MAX_MESSAGE_LEN,
    {
        match encoded {
            Ok(remaining) => {
                let written: usize = MAX_MESSAGE_LEN - remaining;
                Ok(&vstd::array::array_as_slice(&*self.buffer)[0..written])
            },
            Err(e) => Err(SendError::BincodeError(e)),
        }
    }

    /// Reports the transport's answer to a send.
    pub fn finish_send(sent: Result<(), TransportSendError>) -> (r: Result<(), SendError>)
        requires
            send_result_in_range(sent),
        ensures
            r == send_outcome(sent),
            r is Ok <==> sent is Ok,
    {
        match sent {
            Ok(()) => Ok(()),
            Err(e) => Err(crate::error::from_inner_send_err(e)),
        }
    }

    /// Reports the transport's answer to a flush, as for a send.
    pub fn finish_flush(flushed: Result<(), TransportSendError>) -> (r: Result<(), SendError>)
        requires
            send_result_in_range(flushed),
        ensures
            r == send_outcome(flushed),
            r is Ok <==> flushed is Ok,
    {
        Self::finish_send(flushed)
    }

    /// The message bytes to decode after the transport received into `buffer_mut`.
    /// `received` is the length it wrote, or its error.
    pub fn incoming(&self, received: Result<usize, TransportRecvError>) -> (r: Result<
        &[u8],
        RecvError,
    >)
        requires
            self.wf(),
            recv_result_in_range(received),
            received is Ok ==> received->Ok_0 <= self@.len(),
        ensures
            frame_view(r) == incoming_frame(self@, received),
            r is Ok <==> received is Ok,
    {
        match received {
            Ok(len) => Ok(&vstd::array::array_as_slice(&*self.buffer)[0..len]),
            Err(e) => Err(crate::error::from_inner_recv_err(e)),
        }
    }

    /// Reports the decoder's result for a received message.
    pub fn finish_recv<T>(decoded: Result<T, bincode::Error>) -> (r: Result<T, RecvError>)
        ensures
            r == decode_outcome(decoded),
            r is Ok <==> decoded is Ok,
    {
        match decoded {
            Ok(v) => Ok(v),
            Err(e) => Err(RecvError::BincodeError(e)),
        }
    }
}

} // verus!

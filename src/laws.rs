use vstd::prelude::*;

use crate::channel::{frame_of, incoming_frame, outgoing_frame, send_outcome};
use crate::error::{RecvError, SendError, TransportRecvError, TransportSendError};
use crate::typed::UnreliableTypedChannel;
use crate::UnreliableBincodeChannel;

verus! {

/// Framing round trip: when the transport delivers the frame that one channel handed
/// on into another channel's buffer, the receiving channel hands exactly those bytes
/// to the decoder.
pub proof fn lemma_frame_round_trip(
    sent: Seq<u8>,
    remaining: usize,
    received: Seq<u8>,
    received_len: usize,
)
    requires
        remaining <= sent.len(),
        received_len == sent.len() - remaining,
        received_len <= received.len(),
        received.subrange(0, received_len as int) == frame_of(sent, remaining as int),
    ensures
        outgoing_frame(sent, Ok(remaining)) == Ok::<Seq<u8>, SendError>(
            frame_of(sent, remaining as int),
        ),
        incoming_frame(received, Ok(received_len)) == Ok::<Seq<u8>, RecvError>(
            frame_of(sent, remaining as int),
        ),
{
}

/// Buffer reuse, sending side: the frame handed on depends only on the bytes the last
/// encoding wrote, never on bytes that an earlier message left in the buffer.
pub proof fn lemma_stale_bytes_never_sent(a: Seq<u8>, b: Seq<u8>, remaining: usize)
    requires
        a.len() == b.len(),
        remaining <= a.len(),
        a.subrange(0, a.len() - remaining) == b.subrange(0, b.len() - remaining),
    ensures
        outgoing_frame(a, Ok(remaining)) == outgoing_frame(b, Ok(remaining)),
{
}

/// Buffer reuse, receiving side: the bytes handed to the decoder depend only on what the
/// transport just wrote, never on bytes that an earlier message left in the buffer.
pub proof fn lemma_stale_bytes_never_decoded(a: Seq<u8>, b: Seq<u8>, len: usize)
    requires
        len <= a.len(),
        len <= b.len(),
        a.subrange(0, len as int) == b.subrange(0, len as int),
    ensures
        incoming_frame(a, Ok(len)) == incoming_frame(b, Ok(len)),
{
}

/// Size bound: an encoding that fails, for instance because the message exceeds
/// `MAX_MESSAGE_LEN`, is reported as a serialization error and leaves no frame to send.
pub proof fn lemma_encode_failure_sends_nothing(buf: Seq<u8>, e: bincode::Error)
    ensures
        outgoing_frame(buf, Err(e)) == Err::<Seq<u8>, SendError>(SendError::BincodeError(e)),
{
}

/// Disconnection propagates: a disconnected outgoing stream fails a send or flush with
/// `SendError::Disconnected`, and a disconnected incoming stream fails a receive with
/// `RecvError::Disconnected`.
pub proof fn lemma_disconnection_propagates(buf: Seq<u8>)
    ensures
        send_outcome(Err(TransportSendError::Disconnected)) == Err::<(), SendError>(
            SendError::Disconnected,
        ),
        incoming_frame(buf, Err(TransportRecvError::Disconnected)) == Err::<Seq<u8>, RecvError>(
            RecvError::Disconnected,
        ),
{
}

/// A channel restricted to one message type `T` behaves as the general channel used with
/// `T` alone: from the same buffer and the same encoder or transport result, it hands on
/// the same frame. (The completion steps of both channels share `send_outcome` and
/// `decode_outcome` in their contracts.)
pub proof fn lemma_typed_channel_equivalence<T>(
    typed: UnreliableTypedChannel<T>,
    general: UnreliableBincodeChannel,
    encoded: Result<usize, bincode::Error>,
    received: Result<usize, TransportRecvError>,
)
    requires
        typed@ == general@,
    ensures
        outgoing_frame(typed@, encoded) == outgoing_frame(general@, encoded),
        incoming_frame(typed@, received) == incoming_frame(general@, received),
{
}

} // verus!

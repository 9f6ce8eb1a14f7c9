use vstd::prelude::*;

verus! {

/// Relies on `bincode::ErrorKind` (boxed as `bincode::Error`) as an opaque value: the
/// encoder's and decoder's errors are carried through unchanged, never inspected.
#[verifier::external_type_specification]
#[verifier::external_body]
pub struct ExErrorKind(bincode::ErrorKind);

/// Why sending a message (or flushing) failed.
#[derive(Debug)]
pub enum SendError {
    /// The outgoing packet stream has been disconnected.
    Disconnected,
    /// The encoder rejected the message, for instance one longer than `MAX_MESSAGE_LEN`.
    BincodeError(bincode::Error),
}

/// Why receiving a message failed.
#[derive(Debug)]
pub enum RecvError {
    /// The incoming packet stream has been disconnected.
    Disconnected,
    /// The incoming packet does not hold a well-formed message.
    BadFormat,
    /// The message bytes could not be decoded as the requested type.
    BincodeError(bincode::Error),
}

/// Failure reported by the underlying unreliable channel when sending or flushing.
#[derive(Debug, Clone, Copy, PartialEq, Eq, Structural)]
pub enum TransportSendError {
    Disconnected,
    TooBig,
}

/// Failure reported by the underlying unreliable channel when receiving.
#[derive(Debug, Clone, Copy, PartialEq, Eq, Structural)]
pub enum TransportRecvError {
    Disconnected,
    BadFormat,
    TooBig,
}

/// Whether a transport send result can be observed here: the encoder's size limit
/// equals the transport's, so the transport never reports an oversized message.
pub open spec fn send_result_in_range(r: Result<(), TransportSendError>) -> bool {
    !(r matches Err(TransportSendError::TooBig))
}

/// As `send_result_in_range`, for a transport receive result.
pub open spec fn recv_result_in_range(r: Result<usize, TransportRecvError>) -> bool {
    !(r matches Err(TransportRecvError::TooBig))
}

/// The send-side error that a transport send error stands for.
pub open spec fn send_error_of(err: TransportSendError) -> SendError
    recommends
        err != TransportSendError::TooBig,
{
    match err {
        TransportSendError::Disconnected => SendError::Disconnected,
        // outside the recommended domain
        TransportSendError::TooBig => SendError::Disconnected,
    }
}

/// The receive-side error that a transport receive error stands for.
pub open spec fn recv_error_of(err: TransportRecvError) -> RecvError
    recommends
        err != TransportRecvError::TooBig,
{
    match err {
        TransportRecvError::Disconnected => RecvError::Disconnected,
        TransportRecvError::BadFormat => RecvError::BadFormat,
        // outside the recommended domain
        TransportRecvError::TooBig => RecvError::BadFormat,
    }
}

/// Translates a transport send error. An oversized message cannot reach the transport,
/// since encoding is bounded by the same limit, so `TooBig` is excluded.
pub fn from_inner_send_err(err: TransportSendError) -> (r: SendError)
    requires
        err != TransportSendError::TooBig,
    ensures
        r == send_error_of(err),
        r is Disconnected,
{
    match err {
        TransportSendError::Disconnected => SendError::Disconnected,
        // excluded by the precondition
        TransportSendError::TooBig => SendError::Disconnected,
    }
}

/// Translates a transport receive error; `TooBig` is excluded as for sending.
pub fn from_inner_recv_err(err: TransportRecvError) -> (r: RecvError)
    requires
        err != TransportRecvError::TooBig,
    ensures
        r == recv_error_of(err),
        err == TransportRecvError::Disconnected ==> r is Disconnected,
        err == TransportRecvError::BadFormat ==> r is BadFormat,
{
    match err {
        TransportRecvError::Disconnected => RecvError::Disconnected,
        TransportRecvError::BadFormat => RecvError::BadFormat,
        // excluded by the precondition
        TransportRecvError::TooBig => RecvError::BadFormat,
    }
}

} // verus!

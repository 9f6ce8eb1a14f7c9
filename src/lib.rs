use vstd::prelude::*;

pub mod channel;
pub mod error;
pub mod laws;
pub mod typed;

pub use channel::UnreliableBincodeChannel;
pub use typed::UnreliableTypedChannel;

pub use error::{
    from_inner_recv_err, from_inner_send_err, RecvError, SendError, TransportRecvError,
    TransportSendError,
};

verus! {

/// Largest encoded message, in bytes, that a channel carries. The transport below
/// assembles messages up to the same length.
pub const MAX_MESSAGE_LEN: usize = 65535;

} // verus!

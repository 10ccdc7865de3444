//! The wrappers that the bus returns for senders and receivers.
use vstd::prelude::*;
use crate::error::SendError;

pub mod receiver;
pub mod sender;

verus! {

/// What a receiver that can fall behind reports in place of a message.
#[derive(Clone, Copy, Debug, PartialEq, Eq, Structural)]
pub enum RecvError {
    /// The channel is closed for good.
    Closed,
    /// The receiver fell behind and missed this many messages. The channel is still open.
    Lagged(u64),
}

/// What a receive on the bus makes of one answer of the channel.
#[derive(Debug)]
pub enum Received<T> {
    /// The next message.
    Message(T),
    /// The receiver fell behind: the channel is asked again.
    Retry,
    /// The channel is closed: there are no more messages.
    Closed,
}

/// Decides what becomes of `answer`, the answer of a channel whose receivers can fall
/// behind. A message is passed on and the end of the channel is reported, but a lag is never
/// taken for the end: the channel is asked again.
pub fn receive<T>(answer: Result<T, RecvError>) -> (out: Received<T>)
    ensures
        out == match answer {
            Ok(message) => Received::Message(message),
            Err(RecvError::Closed) => Received::Closed,
            Err(RecvError::Lagged(_)) => Received::Retry,
        },
{
    match answer {
        Ok(message) => Received::Message(message),
        Err(RecvError::Closed) => Received::Closed,
        Err(RecvError::Lagged(_)) => Received::Retry,
    }
}

impl<T> SendError<T> {
    /// The message that could not be sent, if the channel returned it.
    pub fn take_message(self) -> (message: Option<T>)
        ensures
            message == match self {
                SendError::Return(value) => Some(value),
                SendError::Closed => None,
            },
    {
        match self {
            SendError::Return(value) => Some(value),
            SendError::Closed => None,
        }
    }
}

} // verus!

//! What the two halves of a channel report when an operation cannot complete.

use vstd::prelude::*;

verus! {

/// Why [`try_recv`](crate::Receiver::try_recv) returned no message.
#[derive(PartialEq, Eq, Structural, Clone, Copy, Debug)]
pub enum TryRecvError {
    /// The channel holds no message, but more may still arrive.
    Empty,
    /// The channel holds no message and none will ever arrive.
    Closed,
}

/// Returned by [`send`](crate::Sender::send) when the channel is closed.
/// It carries the message that could not be sent.
#[derive(Debug)]
pub struct SendError<T>(pub T);

impl<T> SendError<T> {
    /// The text shown for this error.
    pub fn description(&self) -> (text: &'static str)
        ensures
            text@ == "channel closed"@,
    {
        "channel closed"
    }
}

/// Why [`try_send`](crate::Sender::try_send) rejected a message. Either way
/// the message comes back to the caller.
#[derive(Debug)]
pub enum TrySendError<T> {
    /// The buffer is at capacity; the send may succeed later.
    Full(T),
    /// The channel is closed; the send can never succeed.
    Closed(T),
}

impl<T> TrySendError<T> {
    /// The message that was rejected.
    pub open spec fn rejected(self) -> T {
        match self {
            TrySendError::Full(message) => message,
            TrySendError::Closed(message) => message,
        }
    }

    /// The text shown for this error.
    pub fn description(&self) -> (text: &'static str)
        ensures
            self is Full ==> text@ == "no available capacity"@,
            self is Closed ==> text@ == "channel closed"@,
    {
        match self {
            TrySendError::Full(_) => "no available capacity",
            TrySendError::Closed(_) => "channel closed",
        }
    }

    /// Gives the rejected message back.
    pub fn into_inner(self) -> (message: T)
        ensures
            message == self.rejected(),
    {
        match self {
            TrySendError::Full(message) => message,
            TrySendError::Closed(message) => message,
        }
    }
}

} // verus!

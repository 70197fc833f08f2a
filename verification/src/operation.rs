//! The steps that the handles of a channel ask of its state, and the
//! answers they get.

use crate::error::{SendError, TryRecvError, TrySendError};
use core::task::{Poll, Waker};
use vstd::pervasive::unreached;
use vstd::prelude::*;

verus! {

/// `core::task::Poll`, with its two variants `Ready` and `Pending`.
#[verifier::external_type_specification]
#[verifier::reject_recursive_types(T)]
pub struct ExPoll<T>(core::task::Poll<T>);

/// What one poll of a pending send produced.
pub enum SendPoll<T> {
    /// The send is over: the message was accepted, or the channel is closed
    /// and the message comes back inside the error.
    Ready(Result<(), SendError<T>>),
    /// The buffer is full. The message comes back so that it can be offered
    /// again at the next poll.
    Pending(T),
}

impl<T> SendPoll<T> {
    /// The message that the sender keeps for its next poll.
    pub open spec fn kept(self) -> Option<T> {
        match self {
            SendPoll::Ready(_) => None,
            SendPoll::Pending(message) => Some(message),
        }
    }

    /// What the future of the send reports to its executor.
    pub open spec fn reported(self) -> Poll<Result<(), SendError<T>>> {
        match self {
            SendPoll::Ready(result) => Poll::Ready(result),
            SendPoll::Pending(_) => Poll::Pending,
        }
    }
}

/// One atomic step that a handle asks of the shared channel state.
pub enum Operation<T> {
    /// Offer a message without waiting.
    TrySend(T),
    /// Take a message without waiting.
    TryRecv,
    /// Begin an orderly shutdown.
    Close,
    /// Ask whether shutdown has begun.
    IsClosed,
    /// Announce the receiver and the first sender, unless a receiver is
    /// there already.
    Split,
    /// Withdraw the receiver.
    DeregisterReceiver,
    /// Announce one more sender.
    RegisterSender,
    /// Withdraw one sender.
    DeregisterSender,
    /// Take a message, or park the receiver's waker.
    PollRecv(Waker),
    /// Offer a message, or park the sender's waker.
    PollSend(T, Waker),
    /// Ask whether shutdown has begun, or park the sender's waker.
    PollClosed(Waker),
}

/// The answer to an [`Operation`].
#[verifier::reject_recursive_types(T)]
pub enum Outcome<T> {
    /// Answer to `TrySend`.
    Sent(Result<(), TrySendError<T>>),
    /// Answer to `TryRecv`.
    Received(Result<T, TryRecvError>),
    /// Answer to `Close`.
    CloseRequested,
    /// Answer to `DeregisterReceiver`.
    ReceiverWithdrawn,
    /// Answer to `DeregisterSender`.
    SenderWithdrawn,
    /// Answer to `IsClosed`.
    Closed(bool),
    /// Answer to `Split`: whether the receiver and the first sender were
    /// registered.
    Split(bool),
    /// Answer to `RegisterSender`: whether the sender was registered.
    Registered(bool),
    /// Answer to `PollRecv`.
    RecvPolled(Poll<Option<T>>),
    /// Answer to `PollSend`.
    SendPolled(SendPoll<T>),
    /// Answer to `PollClosed`.
    ClosedPolled(Poll<()>),
}

impl<T> Outcome<T> {
    /// The answer to `TrySend`.
    pub fn sent(self) -> (result: Result<(), TrySendError<T>>)
        requires
            self is Sent,
        ensures
            self == Outcome::Sent(result),
    {
        match self {
            Outcome::Sent(result) => result,
            _ => unreached(),
        }
    }

    /// The answer to `TryRecv`.
    pub fn received(self) -> (result: Result<T, TryRecvError>)
        requires
            self is Received,
        ensures
            self == Outcome::Received(result),
    {
        match self {
            Outcome::Received(result) => result,
            _ => unreached(),
        }
    }

    /// Confirms the answer to `Close`.
    pub fn close_requested(self)
        requires
            self is CloseRequested,
    {
    }

    /// Confirms the answer to `DeregisterReceiver`.
    pub fn receiver_withdrawn(self)
        requires
            self is ReceiverWithdrawn,
    {
    }

    /// Confirms the answer to `DeregisterSender`.
    pub fn sender_withdrawn(self)
        requires
            self is SenderWithdrawn,
    {
    }

    /// The answer to `IsClosed`.
    pub fn closed(self) -> (closed: bool)
        requires
            self is Closed,
        ensures
            self == Outcome::<T>::Closed(closed),
    {
        match self {
            Outcome::Closed(closed) => closed,
            _ => unreached(),
        }
    }

    /// The answer to `Split`.
    pub fn split(self) -> (registered: bool)
        requires
            self is Split,
        ensures
            self == Outcome::<T>::Split(registered),
    {
        match self {
            Outcome::Split(registered) => registered,
            _ => unreached(),
        }
    }

    /// The answer to `RegisterSender`.
    pub fn registered(self) -> (registered: bool)
        requires
            self is Registered,
        ensures
            self == Outcome::<T>::Registered(registered),
    {
        match self {
            Outcome::Registered(registered) => registered,
            _ => unreached(),
        }
    }

    /// The answer to `PollRecv`.
    pub fn recv_polled(self) -> (poll: Poll<Option<T>>)
        requires
            self is RecvPolled,
        ensures
            self == Outcome::RecvPolled(poll),
    {
        match self {
            Outcome::RecvPolled(poll) => poll,
            _ => unreached(),
        }
    }

    /// The answer to `PollSend`.
    pub fn send_polled(self) -> (poll: SendPoll<T>)
        requires
            self is SendPolled,
        ensures
            self == Outcome::SendPolled(poll),
    {
        match self {
            Outcome::SendPolled(poll) => poll,
            _ => unreached(),
        }
    }

    /// The answer to `PollClosed`.
    pub fn closed_polled(self) -> (poll: Poll<()>)
        requires
            self is ClosedPolled,
        ensures
            self == Outcome::<T>::ClosedPolled(poll),
    {
        match self {
            Outcome::ClosedPolled(poll) => poll,
            _ => unreached(),
        }
    }

    /// The message that the channel accepted, if this is the answer to
    /// `operation` and says that one was accepted.
    pub open spec fn accepted(self, operation: Operation<T>) -> Seq<T> {
        match (operation, self) {
            (Operation::TrySend(message), Outcome::Sent(Ok(()))) => seq![message],
            (Operation::PollSend(message, _), Outcome::SendPolled(SendPoll::Ready(Ok(())))) => seq![
                message,
            ],
            _ => Seq::empty(),
        }
    }

    /// The message that the channel handed out, if this answer holds one.
    pub open spec fn delivered(self) -> Seq<T> {
        match self {
            Outcome::Received(Ok(message)) => seq![message],
            Outcome::RecvPolled(Poll::Ready(Some(message))) => seq![message],
            _ => Seq::empty(),
        }
    }
}

} // verus!

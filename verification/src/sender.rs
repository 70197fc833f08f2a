//! The sending half of a channel.

use crate::channel::Channel;
use crate::error::{SendError, TrySendError};
use crate::model::ChannelModel;
use crate::mutex::Exclusion;
use crate::operation::{Operation, Outcome, SendPoll};
use crate::receiver::pinned;
use core::pin::Pin;
use core::task::{Context, Poll, Waker};
use futures::Future;
use vstd::prelude::*;

verus! {

/// Sends messages to the [`Receiver`](crate::Receiver) of a channel.
///
/// [`split`](crate::split) makes the first sender of a channel, and cloning a
/// sender makes another one for the same channel.
///
/// A sender stays registered with its channel until it is given up with
/// [`release`](Self::release); going out of scope does not do that. A channel
/// counts its senders up to `u32::MAX`; senders cloned beyond that are not
/// counted, and the channel may start closing before they are given up.
#[verifier::reject_recursive_types(M)]
#[verifier::reject_recursive_types(T)]
pub struct Sender<'ch, M, T, const N: usize> where M: Exclusion<T, N> {
    channel: &'ch Channel<M, T, N>,
}

impl<'ch, M, T, const N: usize> Sender<'ch, M, T, N> where M: Exclusion<T, N> {
    /// The channel that this sender belongs to.
    pub closed spec fn channel(&self) -> &'ch Channel<M, T, N> {
        self.channel
    }

    /// A sender belongs to a channel that is open to handles.
    #[verifier::type_invariant]
    spec fn attached(self) -> bool {
        self.channel.shared()
    }

    /// A sender of `channel`, which must have registered it.
    pub(crate) fn attach(channel: &'ch Channel<M, T, N>) -> (sender: Self)
        requires
            channel.shared(),
        ensures
            sender.channel() == channel,
    {
        Sender { channel }
    }

    /// Sends a message, waiting until there is capacity.
    ///
    /// The result is a future. It resolves to `Ok` once the message is in the
    /// buffer, which does not mean that it will be received: the receiver may
    /// go away right after. It resolves to an error, which holds the message,
    /// if the channel is closed.
    pub fn send<'a>(&'a self, message: T) -> (future: SendFuture<'a, 'ch, M, T, N>)
        ensures
            future.sender() == self,
            future.message() == Some(message),
    {
        SendFuture { sender: self, message: Some(message) }
    }

    /// Sends a message if there is capacity, without waiting.
    ///
    /// The message is rejected with `Full` if the buffer is at capacity and
    /// with `Closed` if the channel is closed. The error holds the message.
    pub fn try_send(&self, message: T) -> (result: Result<(), TrySendError<T>>)
        ensures
            ChannelModel::answers(N as nat, Operation::TrySend(message), Outcome::Sent(result)),
            result matches Err(error) ==> error.rejected() == message,
    {
        proof {
            use_type_invariant(self);
        }
        self.channel.try_send(message)
    }

    /// Waits until the channel is closed or closing.
    ///
    /// The result is a future. A producer can use it to learn that nobody is
    /// interested in its messages any more.
    pub fn closed<'a>(&'a self) -> (future: CloseFuture<'a, 'ch, M, T, N>)
        ensures
            future.sender() == self,
    {
        CloseFuture { sender: self }
    }

    /// Whether the channel is closed or closing. This happens when the
    /// receiver closes the channel or is given up, and when the last sender is
    /// given up.
    pub fn is_closed(&self) -> (closed: bool)
        ensures
            ChannelModel::<T>::answers(N as nat, Operation::IsClosed, Outcome::Closed(closed)),
    {
        proof {
            use_type_invariant(self);
        }
        self.channel.is_closed()
    }

    /// Gives up the sender. When the last sender of a channel is given up,
    /// the channel starts closing: the receiver still gets what is buffered
    /// and then sees the end of the stream.
    pub fn release(self) {
        proof {
            use_type_invariant(&self);
        }
        self.channel.deregister_sender()
    }
}

impl<'ch, M, T, const N: usize> Clone for Sender<'ch, M, T, N> where M: Exclusion<T, N> {
    /// Another sender for the same channel.
    fn clone(&self) -> (sender: Self)
        ensures
            sender.channel() == self.channel(),
    {
        proof {
            use_type_invariant(self);
        }
        let _ = self.channel.register_sender();
        Sender { channel: self.channel }
    }
}

/// The future of [`Sender::send`].
#[verifier::reject_recursive_types(M)]
#[verifier::reject_recursive_types(T)]
pub struct SendFuture<'a, 'ch, M, T, const N: usize> where M: Exclusion<T, N> {
    sender: &'a Sender<'ch, M, T, N>,
    message: Option<T>,
}

impl<'a, 'ch, M, T, const N: usize> Unpin for SendFuture<'a, 'ch, M, T, N> where
    M: Exclusion<T, N>,
{
}

/// `Pin::get_mut` lends the target of a pin for writing, which is allowed
/// because a `SendFuture` may be moved while it is pinned.
#[verifier::external_body]
fn pinned_send<'p, 'a, 'ch, M, T, const N: usize>(
    pin: Pin<&'p mut SendFuture<'a, 'ch, M, T, N>>,
) -> (target: &'p mut SendFuture<'a, 'ch, M, T, N>) where M: Exclusion<T, N> {
    pin.get_mut()
}

impl<'a, 'ch, M, T, const N: usize> SendFuture<'a, 'ch, M, T, N> where M: Exclusion<T, N> {
    /// The sender that sends the message.
    pub closed spec fn sender(&self) -> &'a Sender<'ch, M, T, N> {
        self.sender
    }

    /// The message that is still to be sent, if the send is not over.
    pub closed spec fn message(&self) -> Option<T> {
        self.message
    }

    /// Takes in the channel's answer to a poll: a message that was not
    /// accepted yet is kept for the next poll, and anything else ends the
    /// send.
    pub fn settle(&mut self, answer: SendPoll<T>) -> (poll: Poll<Result<(), SendError<T>>>)
        ensures
            final(self).sender() == old(self).sender(),
            final(self).message() == answer.kept(),
            poll == answer.reported(),
    {
        match answer {
            SendPoll::Ready(result) => {
                self.message = None;
                Poll::Ready(result)
            },
            SendPoll::Pending(rejected) => {
                self.message = Some(rejected);
                Poll::Pending
            },
        }
    }

    /// One poll of the send. The message is offered to the channel, with
    /// `waker` to park if the buffer is full, and the answer is taken in by
    /// [`settle`](Self::settle). Once the send is over, further polls do
    /// nothing and report `Pending`.
    pub fn poll_send(&mut self, waker: Waker) -> (poll: Poll<Result<(), SendError<T>>>)
        ensures
            final(self).sender() == old(self).sender(),
            old(self).message() is None ==> poll is Pending && final(self).message() is None,
            old(self).message() matches Some(message) ==> exists|answer: SendPoll<T>|
                {
                    &&& #[trigger] ChannelModel::answers(
                        N as nat,
                        Operation::PollSend(message, waker),
                        Outcome::SendPolled(answer),
                    )
                    &&& final(self).message() == answer.kept()
                    &&& poll == answer.reported()
                },
            poll matches Poll::Ready(Err(SendError(rejected))) ==> old(self).message() == Some(
                rejected,
            ),
            poll is Pending ==> final(self).message() == old(self).message(),
    {
        match self.message.take() {
            Some(message) => {
                proof {
                    use_type_invariant(self.sender);
                }
                let answer = self.sender.channel.poll_send(message, waker);
                self.settle(answer)
            },
            None => Poll::Pending,
        }
    }
}

impl<'a, 'ch, M, T, const N: usize> Future for SendFuture<'a, 'ch, M, T, N> where
    M: Exclusion<T, N>,
{
    type Output = Result<(), SendError<T>>;

    fn poll(self: Pin<&mut Self>, cx: &mut Context<'_>) -> Poll<Result<(), SendError<T>>> {
        let waker = cx.waker().clone();
        pinned_send(self).poll_send(waker)
    }
}

/// The future of [`Sender::closed`].
#[verifier::reject_recursive_types(M)]
#[verifier::reject_recursive_types(T)]
pub struct CloseFuture<'a, 'ch, M, T, const N: usize> where M: Exclusion<T, N> {
    sender: &'a Sender<'ch, M, T, N>,
}

impl<'a, 'ch, M, T, const N: usize> CloseFuture<'a, 'ch, M, T, N> where M: Exclusion<T, N> {
    /// The sender that waits.
    pub closed spec fn sender(&self) -> &'a Sender<'ch, M, T, N> {
        self.sender
    }

    /// One poll of the wait: ready if the channel is closed or closing, and
    /// otherwise `waker` is parked.
    pub fn poll_closed(&self, waker: Waker) -> (poll: Poll<()>)
        ensures
            ChannelModel::<T>::answers(
                N as nat,
                Operation::PollClosed(waker),
                Outcome::ClosedPolled(poll),
            ),
    {
        proof {
            use_type_invariant(self.sender);
        }
        self.sender.channel.poll_closed(waker)
    }
}

impl<'a, 'ch, M, T, const N: usize> Future for CloseFuture<'a, 'ch, M, T, N> where
    M: Exclusion<T, N>,
{
    type Output = ();

    fn poll(self: Pin<&mut Self>, cx: &mut Context<'_>) -> Poll<()> {
        let waker = cx.waker().clone();
        pinned(&self).poll_closed(waker)
    }
}

} // verus!

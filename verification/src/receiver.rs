//! The receiving half of a channel.

use crate::channel::Channel;
use crate::error::TryRecvError;
use crate::model::ChannelModel;
use crate::mutex::Exclusion;
use crate::operation::{Operation, Outcome};
use core::pin::Pin;
use core::task::{Context, Poll, Waker};
use futures::Future;
use vstd::prelude::*;

verus! {

/// `core::task::Context`, what an executor hands to a future that it polls.
#[verifier::external_type_specification]
#[verifier::external_body]
pub struct ExContext<'a>(core::task::Context<'a>);

/// `core::pin::Pin`, a pointer whose target will not move.
#[verifier::external_type_specification]
#[verifier::external_body]
#[verifier::reject_recursive_types(Ptr)]
pub struct ExPin<Ptr>(core::pin::Pin<Ptr>);

/// `Context::waker` lends the waker of the task that is being polled.
pub assume_specification<'a>[ core::task::Context::<'a>::waker ](
    cx: &core::task::Context<'a>,
) -> (waker: &'a core::task::Waker);

/// `Pin::deref` lends the target of a pin for reading.
#[verifier::external_body]
pub(crate) fn pinned<'a, F>(pin: &'a Pin<&mut F>) -> (target: &'a F) {
    core::ops::Deref::deref(pin)
}

/// Receives the messages that the [`Sender`](crate::Sender)s of a channel
/// send. There is one receiver per channel; [`split`](crate::split) makes it.
///
/// A receiver is itself the future of its next message: awaiting it gives
/// `Some(message)`, or `None` once the channel is closed and drained.
///
/// A receiver stays registered with its channel until it is given up with
/// [`release`](Self::release); going out of scope does not do that.
#[verifier::reject_recursive_types(M)]
#[verifier::reject_recursive_types(T)]
pub struct Receiver<'ch, M, T, const N: usize> where M: Exclusion<T, N> {
    channel: &'ch Channel<M, T, N>,
}

impl<'ch, M, T, const N: usize> Receiver<'ch, M, T, N> where M: Exclusion<T, N> {
    /// The channel that this receiver belongs to.
    pub closed spec fn channel(&self) -> &'ch Channel<M, T, N> {
        self.channel
    }

    /// A receiver belongs to a channel that is open to handles.
    #[verifier::type_invariant]
    spec fn attached(self) -> bool {
        self.channel.shared()
    }

    /// The receiver of `channel`, which must have registered it.
    pub(crate) fn attach(channel: &'ch Channel<M, T, N>) -> (receiver: Self)
        requires
            channel.shared(),
        ensures
            receiver.channel() == channel,
    {
        Receiver { channel }
    }

    /// Receives the next message.
    ///
    /// The result is a future. It resolves to `None` once the channel is
    /// closed and holds no message, which means that nothing can be received
    /// any more. While the channel is open and empty the task sleeps until a
    /// message is sent or the channel is closed. Messages that were buffered
    /// before [`close`](Self::close) are still delivered.
    pub fn recv(&mut self) -> (next: &mut Self)
        ensures
            *next == *old(self),
            *final(self) == *final(next),
    {
        self
    }

    /// Receives a message if one is buffered, without waiting.
    ///
    /// The answer is `Empty` if the channel holds no message but may get
    /// some, and `Closed` if it holds none and never will. Which one it is
    /// depends on what the other handles have done by now.
    pub fn try_recv(&self) -> (result: Result<T, TryRecvError>)
        ensures
            ChannelModel::answers(N as nat, Operation::TryRecv, Outcome::Received(result)),
    {
        proof {
            use_type_invariant(self);
        }
        self.channel.try_recv()
    }

    /// Closes the channel without giving up the receiver.
    ///
    /// Buffered messages can still be received. To lose none of them, call
    /// `recv` until it gives `None`.
    pub fn close(&mut self)
        ensures
            *final(self) == *old(self),
    {
        proof {
            use_type_invariant(&*self);
        }
        self.channel.close()
    }

    /// Gives up the receiver. The channel is closed immediately, whatever it
    /// still holds, and a sender that waits for capacity is woken to find it
    /// closed.
    pub fn release(self) {
        proof {
            use_type_invariant(&self);
        }
        self.channel.deregister_receiver()
    }

    /// One poll of the receive future: `waker` is parked if there is nothing
    /// to report yet.
    pub fn poll_recv(&self, waker: Waker) -> (poll: Poll<Option<T>>)
        ensures
            ChannelModel::answers(N as nat, Operation::PollRecv(waker), Outcome::RecvPolled(poll)),
    {
        proof {
            use_type_invariant(self);
        }
        self.channel.poll_recv(waker)
    }
}

impl<'ch, M, T, const N: usize> Future for Receiver<'ch, M, T, N> where M: Exclusion<T, N> {
    type Output = Option<T>;

    fn poll(self: Pin<&mut Self>, cx: &mut Context<'_>) -> Poll<Option<T>> {
        let waker = cx.waker().clone();
        pinned(&self).poll_recv(waker)
    }
}

} // verus!

//! The channel itself: one state behind one exclusion primitive.

use crate::error::{SendError, TryRecvError, TrySendError};
use crate::model::ChannelModel;
use crate::mutex::{CriticalSectionMutex, Exclusion, ThreadModeMutex};
use crate::operation::{Operation, Outcome, SendPoll};
use crate::state::ChannelState;
use core::marker::PhantomData;
use core::task::{Poll, Waker};
use vstd::prelude::*;

verus! {

/// A bounded channel for passing messages between asynchronous tasks, with
/// backpressure.
///
/// The channel buffers up to `N` messages. Once the buffer is full, sending
/// waits until a message has been received. Messages are received in the
/// order in which they were sent.
///
/// A channel is used through the handles that [`split`](crate::split) makes.
#[verifier::reject_recursive_types(M)]
#[verifier::reject_recursive_types(T)]
pub struct Channel<M, T, const N: usize> where M: Exclusion<T, N> {
    mutex: M,
    message: PhantomData<T>,
}

/// The exclusion primitive of a channel that uses critical sections.
pub type WithCriticalSections<T, const N: usize> = CriticalSectionMutex<T, N>;

/// The exclusion primitive of a channel that is used from one context only.
pub type WithThreadModeOnly<T, const N: usize> = ThreadModeMutex<T, N>;

impl<T, const N: usize> Channel<CriticalSectionMutex<T, N>, T, N> {
    /// A new, empty channel that is guarded by critical sections.
    ///
    /// Critical sections suit single-core targets on which the channel is
    /// also used from interrupt handlers.
    pub fn with_critical_sections() -> (channel: Self)
        requires
            N > 0,
        ensures
            channel.wf(),
            channel.sole() == Some(ChannelModel::<T>::fresh(N as nat)),
            !channel.shared(),
    {
        Channel { mutex: CriticalSectionMutex::new(ChannelState::new()), message: PhantomData }
    }
}

impl<T, const N: usize> Channel<ThreadModeMutex<T, N>, T, N> {
    /// A new, empty channel that takes no lock.
    ///
    /// It suits a channel whose handles are all used by the tasks of one
    /// thread, with no interrupt handler among them.
    pub fn with_thread_mode_only() -> (channel: Self)
        requires
            N > 0,
        ensures
            channel.wf(),
            channel.sole() == Some(ChannelModel::<T>::fresh(N as nat)),
            !channel.shared(),
    {
        Channel { mutex: ThreadModeMutex::new(ChannelState::new()), message: PhantomData }
    }
}

impl<M, T, const N: usize> Channel<M, T, N> where M: Exclusion<T, N> {
    /// What the channel stands for, while no handle has been made for it.
    /// The handles change the state of a channel behind the exclusion
    /// primitive, where no contract can follow it.
    pub closed spec fn sole(&self) -> Option<ChannelModel<T>> {
        self.mutex.sole()
    }

    /// A channel either is still held alone or has been opened to handles.
    pub closed spec fn wf(&self) -> bool {
        self.mutex.shared() || self.mutex.sole() is Some
    }

    /// Whether the channel has been opened to handles.
    pub closed spec fn shared(&self) -> bool {
        self.mutex.shared()
    }

    /// A new, empty channel behind the exclusion primitive `M`.
    pub fn new() -> (channel: Self)
        requires
            N > 0,
        ensures
            channel.wf(),
            channel.sole() == Some(ChannelModel::<T>::fresh(N as nat)),
            !channel.shared(),
    {
        Channel { mutex: M::new(ChannelState::new()), message: PhantomData }
    }

    /// Takes a message if one is buffered.
    pub(crate) fn try_recv(&self) -> (result: Result<T, TryRecvError>)
        requires
            self.shared(),
        ensures
            ChannelModel::answers(N as nat, Operation::TryRecv, Outcome::Received(result)),
    {
        self.mutex.lock(Operation::TryRecv).received()
    }

    /// Offers a message, which comes back if it is rejected.
    pub(crate) fn try_send(&self, message: T) -> (result: Result<(), TrySendError<T>>)
        requires
            self.shared(),
        ensures
            ChannelModel::answers(N as nat, Operation::TrySend(message), Outcome::Sent(result)),
            result matches Err(error) ==> error.rejected() == message,
    {
        self.mutex.lock(Operation::TrySend(message)).sent()
    }

    /// Requests shutdown.
    pub(crate) fn close(&self)
        requires
            self.shared(),
    {
        self.mutex.lock(Operation::Close).close_requested()
    }

    /// Whether shutdown has begun.
    pub(crate) fn is_closed(&self) -> (closed: bool)
        requires
            self.shared(),
        ensures
            ChannelModel::<T>::answers(N as nat, Operation::IsClosed, Outcome::Closed(closed)),
    {
        self.mutex.lock(Operation::IsClosed).closed()
    }

    /// Announces the receiver and the first sender, unless a receiver is
    /// registered already, and opens the channel to handles. While no handle
    /// has been made for the channel, what it stands for decides.
    pub(crate) fn share(&mut self) -> (registered: bool)
        requires
            old(self).wf(),
        ensures
            final(self).shared(),
            final(self).wf(),
            ChannelModel::<T>::answers(N as nat, Operation::Split, Outcome::Split(registered)),
            old(self).sole() matches Some(model) ==> registered == !model.receiver_registered,
    {
        self.mutex.share(Operation::Split).split()
    }

    /// Withdraws the receiver.
    pub(crate) fn deregister_receiver(&self)
        requires
            self.shared(),
    {
        self.mutex.lock(Operation::DeregisterReceiver).receiver_withdrawn()
    }

    /// Announces one more sender, unless the limit is reached.
    pub(crate) fn register_sender(&self) -> (registered: bool)
        requires
            self.shared(),
        ensures
            ChannelModel::<T>::answers(
                N as nat,
                Operation::RegisterSender,
                Outcome::Registered(registered),
            ),
    {
        self.mutex.lock(Operation::RegisterSender).registered()
    }

    /// Withdraws one sender.
    pub(crate) fn deregister_sender(&self)
        requires
            self.shared(),
    {
        self.mutex.lock(Operation::DeregisterSender).sender_withdrawn()
    }

    /// Takes a message, or parks `waker` as the receiver.
    pub(crate) fn poll_recv(&self, waker: Waker) -> (poll: Poll<Option<T>>)
        requires
            self.shared(),
        ensures
            ChannelModel::answers(N as nat, Operation::PollRecv(waker), Outcome::RecvPolled(poll)),
    {
        self.mutex.lock(Operation::PollRecv(waker)).recv_polled()
    }

    /// Offers a message, or parks `waker` as a sender and gives the message
    /// back.
    pub(crate) fn poll_send(&self, message: T, waker: Waker) -> (poll: SendPoll<T>)
        requires
            self.shared(),
        ensures
            ChannelModel::answers(
                N as nat,
                Operation::PollSend(message, waker),
                Outcome::SendPolled(poll),
            ),
            poll matches SendPoll::Pending(rejected) ==> rejected == message,
            poll matches SendPoll::Ready(Err(SendError(rejected))) ==> rejected == message,
    {
        self.mutex.lock(Operation::PollSend(message, waker)).send_polled()
    }

    /// Reports that shutdown has begun, or parks `waker` as a sender.
    pub(crate) fn poll_closed(&self, waker: Waker) -> (poll: Poll<()>)
        requires
            self.shared(),
        ensures
            ChannelModel::<T>::answers(
                N as nat,
                Operation::PollClosed(waker),
                Outcome::ClosedPolled(poll),
            ),
    {
        self.mutex.lock(Operation::PollClosed(waker)).closed_polled()
    }
}

} // verus!

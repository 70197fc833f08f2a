//! The channel as a mathematical object.
//!
//! A [`ChannelModel`] is a plain value: a queue of messages with the two
//! cursors of its ring buffer, the lifecycle flags, the registrations and the
//! two parked wakers. Every operation on a channel is a function from one
//! model to the next, and the executable code is specified against these
//! functions. What an operation leaves to be woken and dropped is a
//! [`Due`].

use crate::error::{SendError, TryRecvError, TrySendError};
use crate::operation::{Operation, Outcome, SendPoll};
use crate::slot::Due;
use core::task::{Poll, Waker};
use vstd::prelude::*;

verus! {

/// The largest number of senders that can be registered at once.
pub open spec fn max_senders() -> nat {
    0xffff_ffff
}

/// The abstract state of a channel.
#[verifier::ext_equal]
pub struct ChannelModel<T> {
    /// How many messages the buffer can hold.
    pub capacity: nat,
    /// The buffered messages, oldest first.
    pub queue: Seq<T>,
    /// The slot of the ring buffer that holds the oldest message.
    pub read_pos: nat,
    /// The slot of the ring buffer that the next message goes to.
    pub write_pos: nat,
    /// Shutdown has been requested; buffered messages can still be received.
    pub closing: bool,
    /// Nothing will ever be sent or received again.
    pub closed: bool,
    /// A receiver exists.
    pub receiver_registered: bool,
    /// How many senders exist.
    pub senders_registered: nat,
    /// The waker of the parked receiver.
    pub receiver_waker: Option<Waker>,
    /// The waker of the parked sender.
    pub senders_waker: Option<Waker>,
    /// How many wake-ups have been issued for the receiver.
    pub receiver_wakes: nat,
    /// How many wake-ups have been issued for parked senders because the
    /// channel changed.
    pub senders_wakes: nat,
}

impl<T> ChannelModel<T> {
    /// A channel that was just created: empty, open, nobody registered.
    pub open spec fn fresh(capacity: nat) -> Self {
        ChannelModel {
            capacity,
            queue: Seq::empty(),
            read_pos: 0,
            write_pos: 0,
            closing: false,
            closed: false,
            receiver_registered: false,
            senders_registered: 0,
            receiver_waker: None,
            senders_waker: None,
            receiver_wakes: 0,
            senders_wakes: 0,
        }
    }

    /// The invariant of every channel: the buffer is never over capacity,
    /// the read cursor is inside the buffer, the write cursor is as many
    /// slots ahead of it as there are messages, wrapping at the end, and a
    /// closed channel is also closing.
    pub open spec fn wf(self) -> bool {
        &&& self.capacity > 0
        &&& self.queue.len() <= self.capacity
        &&& self.read_pos < self.capacity
        &&& self.write_pos == if self.read_pos + self.queue.len() < self.capacity {
            self.read_pos + self.queue.len()
        } else {
            (self.read_pos + self.queue.len() - self.capacity) as nat
        }
        &&& self.closed ==> self.closing
        &&& self.senders_registered <= max_senders()
    }

    /// The slot after `pos`, wrapping at the end of the buffer.
    pub open spec fn advance(self, pos: nat) -> nat {
        if pos + 1 == self.capacity {
            0
        } else {
            pos + 1
        }
    }

    /// What is due after a step from `self` to `next` that takes in no
    /// waker: a wake-up for the receiver if one was issued, and the sender
    /// that was parked if it was woken.
    pub open spec fn due(self, next: Self) -> Due {
        Due {
            receiver: next.receiver_wakes > self.receiver_wakes,
            sender: if next.senders_wakes > self.senders_wakes {
                self.senders_waker
            } else {
                None
            },
            spare: None,
        }
    }

    /// What is due when `waker` takes the place of the parked sender. The
    /// sender that was parked is woken, unless it is the `same` task.
    pub open spec fn park_sender_due(self, same: bool) -> Due {
        Due {
            receiver: false,
            sender: if same {
                None
            } else {
                self.senders_waker
            },
            spare: if same {
                self.senders_waker
            } else {
                None
            },
        }
    }

    /// What is due after one poll of a receive. The waker that the poll
    /// brought is spare unless it was parked, and then the waker it
    /// displaced is.
    pub open spec fn poll_recv_due(self, waker: Waker) -> Due {
        let (next, poll) = self.poll_recv(waker);
        Due {
            spare: if poll is Pending {
                self.receiver_waker
            } else {
                Some(waker)
            },
            ..self.due(next)
        }
    }

    /// What is due after one poll of a send, given whether the parked
    /// sender is the `same` task as the one that polls.
    pub open spec fn poll_send_due(self, message: T, waker: Waker, same: bool) -> Due {
        let (next, poll) = self.poll_send(message, waker);
        if poll is Pending {
            self.park_sender_due(same)
        } else {
            Due { spare: Some(waker), ..self.due(next) }
        }
    }

    /// What is due after one poll of a wait for shutdown, given whether the
    /// parked sender is the `same` task as the one that polls.
    pub open spec fn poll_closed_due(self, waker: Waker, same: bool) -> Due {
        if self.is_closed() {
            Due { receiver: false, sender: None, spare: Some(waker) }
        } else {
            self.park_sender_due(same)
        }
    }

    /// What is due after one operation, given whether the parked sender is
    /// the `same` task as the one that brings a waker.
    pub open spec fn apply_due(self, operation: Operation<T>, same: bool) -> Due {
        match operation {
            Operation::PollRecv(waker) => self.poll_recv_due(waker),
            Operation::PollSend(message, waker) => self.poll_send_due(message, waker, same),
            Operation::PollClosed(waker) => self.poll_closed_due(waker, same),
            _ => self.due(self.apply(operation).0),
        }
    }

    /// The buffer holds as many messages as it can.
    pub open spec fn is_full(self) -> bool {
        self.queue.len() == self.capacity
    }

    /// The buffer holds no message.
    pub open spec fn is_empty(self) -> bool {
        self.queue.len() == 0
    }

    /// Shutdown has begun or is complete.
    pub open spec fn is_closed(self) -> bool {
        self.closing || self.closed
    }

    /// Issues a wake-up for the parked receiver, if there is one. It stays
    /// parked.
    pub open spec fn wake_receiver(self) -> Self {
        if self.receiver_waker is Some {
            ChannelModel { receiver_wakes: self.receiver_wakes + 1, ..self }
        } else {
            self
        }
    }

    /// Issues a wake-up for the parked sender, if there is one, and forgets
    /// it.
    pub open spec fn wake_senders(self) -> Self {
        if self.senders_waker is Some {
            ChannelModel { senders_waker: None, senders_wakes: self.senders_wakes + 1, ..self }
        } else {
            self
        }
    }

    /// Parks the receiver.
    pub open spec fn set_receiver_waker(self, waker: Waker) -> Self {
        ChannelModel { receiver_waker: Some(waker), ..self }
    }

    /// Parks a sender in place of whichever sender was parked before.
    pub open spec fn set_senders_waker(self, waker: Waker) -> Self {
        ChannelModel { senders_waker: Some(waker), ..self }
    }

    /// Requests shutdown: a wake-up is issued for the receiver and the
    /// channel is closing.
    pub open spec fn close(self) -> Self {
        ChannelModel { closing: true, ..self.wake_receiver() }
    }

    /// Ends the channel for good and issues a wake-up for the parked sender.
    pub open spec fn shut(self) -> Self {
        ChannelModel { closing: true, closed: true, ..self.wake_senders() }
    }

    /// Offers `message` to the channel.
    pub open spec fn try_send(self, message: T) -> (Self, Result<(), TrySendError<T>>) {
        if self.closed {
            (self, Err(TrySendError::Closed(message)))
        } else if self.is_full() {
            (self, Err(TrySendError::Full(message)))
        } else {
            (
                ChannelModel {
                    queue: self.queue.push(message),
                    write_pos: self.advance(self.write_pos),
                    ..self
                }.wake_receiver(),
                Ok(()),
            )
        }
    }

    /// Takes the oldest message from the channel. An empty channel that is
    /// closing becomes closed.
    pub open spec fn try_recv(self) -> (Self, Result<T, TryRecvError>) {
        if self.closed {
            (self, Err(TryRecvError::Closed))
        } else if !self.is_empty() {
            (
                ChannelModel {
                    queue: self.queue.drop_first(),
                    read_pos: self.advance(self.read_pos),
                    ..self
                }.wake_senders(),
                Ok(self.queue.first()),
            )
        } else if !self.closing {
            (self, Err(TryRecvError::Empty))
        } else {
            (self.shut(), Err(TryRecvError::Closed))
        }
    }

    /// Announces the receiver.
    pub open spec fn register_receiver(self) -> Self {
        ChannelModel { receiver_registered: true, ..self }
    }

    /// Withdraws the receiver. If there was one, the channel is closed at
    /// once, whatever it still holds.
    pub open spec fn deregister_receiver(self) -> Self {
        if self.receiver_registered {
            ChannelModel { receiver_registered: false, ..self.shut() }
        } else {
            self
        }
    }

    /// Announces one more sender.
    pub open spec fn register_sender(self) -> Self {
        ChannelModel { senders_registered: self.senders_registered + 1, ..self }
    }

    /// Withdraws one sender. When the last one goes, shutdown is requested.
    pub open spec fn deregister_sender(self) -> Self {
        let rest = ChannelModel {
            senders_registered: (self.senders_registered - 1) as nat,
            ..self
        };
        if rest.senders_registered == 0 {
            rest.close()
        } else {
            rest
        }
    }

    /// Makes the channel ready for its first handles: the receiver and one
    /// sender are registered, unless a receiver is registered already. The
    /// answer says whether they were.
    pub open spec fn split(self) -> (Self, bool) {
        if self.receiver_registered {
            (self, false)
        } else if self.senders_registered < max_senders() {
            (self.register_receiver().register_sender(), true)
        } else {
            (self.register_receiver(), true)
        }
    }

    /// One poll of a receive: a message if there is one, the end of the
    /// stream if the channel is closed or drained, else the receiver parks.
    pub open spec fn poll_recv(self, waker: Waker) -> (Self, Poll<Option<T>>) {
        match self.try_recv() {
            (next, Ok(message)) => (next, Poll::Ready(Some(message))),
            (next, Err(TryRecvError::Closed)) => (next, Poll::Ready(None)),
            (next, Err(TryRecvError::Empty)) => (next.set_receiver_waker(waker), Poll::Pending),
        }
    }

    /// One poll of a send: done if the message was accepted or the channel is
    /// closed, else the sender parks and keeps the message.
    pub open spec fn poll_send(self, message: T, waker: Waker) -> (Self, SendPoll<T>) {
        match self.try_send(message) {
            (next, Ok(())) => (next, SendPoll::Ready(Ok(()))),
            (next, Err(TrySendError::Closed(rejected))) => (
                next,
                SendPoll::Ready(Err(SendError(rejected))),
            ),
            (next, Err(TrySendError::Full(rejected))) => (
                next.set_senders_waker(waker),
                SendPoll::Pending(rejected),
            ),
        }
    }

    /// One poll of a wait for shutdown: done if shutdown has begun, else the
    /// sender parks.
    pub open spec fn poll_closed(self, waker: Waker) -> (Self, Poll<()>) {
        if self.is_closed() {
            (self, Poll::Ready(()))
        } else {
            (self.set_senders_waker(waker), Poll::Pending)
        }
    }

    /// The effect of one operation: the next state and the answer. A sender
    /// that cannot be registered, and the withdrawal of a sender when none is
    /// registered, leave the state as it is.
    pub open spec fn apply(self, operation: Operation<T>) -> (Self, Outcome<T>) {
        match operation {
            Operation::TrySend(message) => {
                let (next, result) = self.try_send(message);
                (next, Outcome::Sent(result))
            },
            Operation::TryRecv => {
                let (next, result) = self.try_recv();
                (next, Outcome::Received(result))
            },
            Operation::Close => (self.close(), Outcome::CloseRequested),
            Operation::IsClosed => (self, Outcome::Closed(self.is_closed())),
            Operation::Split => {
                let (next, registered) = self.split();
                (next, Outcome::Split(registered))
            },
            Operation::DeregisterReceiver => (
                self.deregister_receiver(),
                Outcome::ReceiverWithdrawn,
            ),
            Operation::RegisterSender => if self.senders_registered < max_senders() {
                (self.register_sender(), Outcome::Registered(true))
            } else {
                (self, Outcome::Registered(false))
            },
            Operation::DeregisterSender => if self.senders_registered > 0 {
                (self.deregister_sender(), Outcome::SenderWithdrawn)
            } else {
                (self, Outcome::SenderWithdrawn)
            },
            Operation::PollRecv(waker) => {
                let (next, poll) = self.poll_recv(waker);
                (next, Outcome::RecvPolled(poll))
            },
            Operation::PollSend(message, waker) => {
                let (next, poll) = self.poll_send(message, waker);
                (next, Outcome::SendPolled(poll))
            },
            Operation::PollClosed(waker) => {
                let (next, poll) = self.poll_closed(waker);
                (next, Outcome::ClosedPolled(poll))
            },
        }
    }

    /// The state after `operations` have been performed one after another.
    pub open spec fn run(self, operations: Seq<Operation<T>>) -> Self
        decreases operations.len(),
    {
        if operations.len() == 0 {
            self
        } else {
            self.apply(operations.first()).0.run(operations.drop_first())
        }
    }

    /// The messages that the channel accepts while `operations` are performed,
    /// in the order in which it accepts them.
    pub open spec fn accepted(self, operations: Seq<Operation<T>>) -> Seq<T>
        decreases operations.len(),
    {
        if operations.len() == 0 {
            Seq::empty()
        } else {
            let (next, outcome) = self.apply(operations.first());
            outcome.accepted(operations.first()) + next.accepted(operations.drop_first())
        }
    }

    /// The messages that the channel hands out while `operations` are
    /// performed, in the order in which it hands them out.
    pub open spec fn delivered(self, operations: Seq<Operation<T>>) -> Seq<T>
        decreases operations.len(),
    {
        if operations.len() == 0 {
            Seq::empty()
        } else {
            let (next, outcome) = self.apply(operations.first());
            outcome.delivered() + next.delivered(operations.drop_first())
        }
    }

    /// The state after `count` receive attempts in a row.
    pub open spec fn drain(self, count: nat) -> Self
        decreases count,
    {
        if count == 0 {
            self
        } else {
            self.try_recv().0.drain((count - 1) as nat)
        }
    }

    /// Whether `outcome` is an answer that some well-formed channel of the
    /// given capacity gives to `operation`.
    pub open spec fn answers(capacity: nat, operation: Operation<T>, outcome: Outcome<T>) -> bool {
        exists|before: Self|
            before.wf() && before.capacity == capacity && (#[trigger] before.apply(operation)).1
                == outcome
    }
}

} // verus!

//! The ring buffer, flags and counters behind a channel.

use crate::error::{SendError, TryRecvError, TrySendError};
use crate::model::{max_senders, ChannelModel};
use crate::operation::{Operation, Outcome, SendPoll};
use crate::slot::{Due, WakerSlot, Wakeups};
use core::task::{Poll, Waker};
use vstd::arithmetic::div_mod::{lemma_mod_self_0, lemma_small_mod};
use vstd::prelude::*;

verus! {

/// What every slot of a new buffer holds.
fn empty_slot<T>(_index: usize) -> (slot: Option<T>)
    ensures
        slot is None,
{
    None
}

/// `core::array::from_fn` fills an array by calling its argument once for
/// each index. The argument is [`empty_slot`], so every element is `None`.
#[verifier::external_body]
fn empty_buffer<T, const N: usize>() -> (buf: [Option<T>; N])
    ensures
        forall|i: int| 0 <= i < N ==> (#[trigger] buf@[i]) is None,
{
    core::array::from_fn(empty_slot::<T>)
}

/// The state that all handles of one channel share: a ring buffer of `N`
/// slots with its two cursors, the lifecycle flags, the registrations and the
/// two waker slots.
///
/// Its meaning is the [`ChannelModel`] given by its view. Every method needs
/// a well-formed state and leaves one.
///
/// No method wakes a task or drops a waker. The wakers that are to be woken
/// or dropped are handed back as [`Wakeups`], for the caller to
/// [`deliver`](Wakeups::deliver) when the state is no longer in use.
pub struct ChannelState<T, const N: usize> {
    buf: [Option<T>; N],
    read_pos: usize,
    write_pos: usize,
    full: bool,
    closing: bool,
    closed: bool,
    receiver_registered: bool,
    senders_registered: u32,
    receiver_waker: WakerSlot,
    senders_waker: WakerSlot,
}

impl<T, const N: usize> View for ChannelState<T, N> {
    type V = ChannelModel<T>;

    closed spec fn view(&self) -> ChannelModel<T> {
        ChannelModel {
            capacity: N as nat,
            queue: Seq::new(self.count(), |i: int| self.buf@[self.slot_of(i)]->0),
            read_pos: self.read_pos as nat,
            write_pos: self.write_pos as nat,
            closing: self.closing,
            closed: self.closed,
            receiver_registered: self.receiver_registered,
            senders_registered: self.senders_registered as nat,
            receiver_waker: self.receiver_waker.parked(),
            senders_waker: self.senders_waker.parked(),
            receiver_wakes: self.receiver_waker.notified(),
            senders_wakes: self.senders_waker.notified(),
        }
    }
}

impl<T, const N: usize> ChannelState<T, N> {
    /// How many slots hold a message.
    spec fn count(&self) -> nat {
        if self.full {
            N as nat
        } else if self.write_pos >= self.read_pos {
            (self.write_pos - self.read_pos) as nat
        } else {
            (N - self.read_pos + self.write_pos) as nat
        }
    }

    /// The slot that holds the message at position `i` of the queue.
    spec fn slot_of(&self, i: int) -> int {
        if self.read_pos + i < N {
            self.read_pos + i
        } else {
            self.read_pos + i - N
        }
    }

    /// The position in the queue that slot `j` stands for.
    spec fn position_of(&self, j: int) -> int {
        if j >= self.read_pos {
            j - self.read_pos
        } else {
            j + N - self.read_pos
        }
    }

    /// The representation invariant: both cursors are inside the buffer,
    /// `full` can only be set where they meet, a closed channel is closing,
    /// and exactly the slots between the read cursor and the write cursor
    /// hold a message.
    pub closed spec fn wf(&self) -> bool {
        &&& N > 0
        &&& self.read_pos < N
        &&& self.write_pos < N
        &&& self.full ==> self.read_pos == self.write_pos
        &&& self.closed ==> self.closing
        &&& forall|j: int|
            0 <= j < N ==> ((#[trigger] self.buf@[j]) is Some <==> self.position_of(j)
                < self.count())
    }

    /// A well-formed state stands for a well-formed model of capacity `N`.
    pub proof fn lemma_view_wf(&self)
        requires
            self.wf(),
        ensures
            self@.wf(),
            self@.capacity == N,
    {
    }

    /// The cursor that follows `pos`, wrapping at the end of the buffer.
    fn advance(pos: usize) -> (next: usize)
        requires
            N > 0,
            pos < N,
        ensures
            next < N,
            next == if pos + 1 == N {
                0
            } else {
                pos + 1
            },
    {
        proof {
            if pos + 1 == N {
                lemma_mod_self_0(N as int);
            } else {
                lemma_small_mod((pos + 1) as nat, N as nat);
            }
        }
        (pos + 1) % N
    }

    /// An empty, open channel state with nobody registered.
    pub fn new() -> (state: Self)
        requires
            N > 0,
        ensures
            state.wf(),
            state@ == ChannelModel::<T>::fresh(N as nat),
    {
        let buf = empty_buffer();
        let read_pos: usize = 0;
        let write_pos: usize = 0;
        let full = false;
        let closing = false;
        let closed = false;
        let receiver_registered = false;
        let senders_registered: u32 = 0;
        let receiver_waker = WakerSlot::new();
        let senders_waker = WakerSlot::new();
        let state = ChannelState {
            buf,
            read_pos,
            write_pos,
            full,
            closing,
            closed,
            receiver_registered,
            senders_registered,
            receiver_waker,
            senders_waker,
        };
        state
    }

    /// How many messages the buffer can hold.
    pub fn capacity(&self) -> (capacity: usize)
        ensures
            capacity == N,
    {
        N
    }

    /// How many messages the buffer holds.
    pub fn len(&self) -> (len: usize)
        requires
            self.wf(),
        ensures
            len == self@.queue.len(),
    {
        if self.full {
            N
        } else if self.write_pos >= self.read_pos {
            self.write_pos - self.read_pos
        } else {
            N - self.read_pos + self.write_pos
        }
    }

    /// The slot that holds the oldest message.
    pub fn read_pos(&self) -> (pos: usize)
        ensures
            pos == self@.read_pos,
    {
        self.read_pos
    }

    /// The slot that the next message goes to.
    pub fn write_pos(&self) -> (pos: usize)
        ensures
            pos == self@.write_pos,
    {
        self.write_pos
    }

    /// Whether the buffer holds no message.
    pub fn is_empty(&self) -> (empty: bool)
        requires
            self.wf(),
        ensures
            empty == self@.is_empty(),
    {
        self.read_pos == self.write_pos && !self.full
    }

    /// Whether the buffer holds as many messages as it can.
    pub fn is_full(&self) -> (full: bool)
        requires
            self.wf(),
        ensures
            full == self@.is_full(),
    {
        self.full
    }

    /// Whether a receiver is registered.
    pub fn receiver_registered(&self) -> (registered: bool)
        ensures
            registered == self@.receiver_registered,
    {
        self.receiver_registered
    }

    /// How many senders are registered.
    pub fn senders_registered(&self) -> (registered: u32)
        ensures
            registered == self@.senders_registered,
    {
        self.senders_registered
    }

    /// Whether a receiver is parked.
    pub fn receiver_parked(&self) -> (parked: bool)
        ensures
            parked == self@.receiver_waker is Some,
    {
        self.receiver_waker.is_parked()
    }

    /// Whether a sender is parked.
    pub fn senders_parked(&self) -> (parked: bool)
        ensures
            parked == self@.senders_waker is Some,
    {
        self.senders_waker.is_parked()
    }

    /// Issues a wake-up for the parked receiver, if there is one. It stays
    /// parked.
    pub fn wake_receiver(&mut self) -> (wakeups: Wakeups)
        requires
            old(self).wf(),
        ensures
            final(self).wf(),
            final(self)@ == old(self)@.wake_receiver(),
            wakeups@ == old(self)@.due(final(self)@),
    {
        Wakeups::new(self.receiver_waker.notify(), None, None)
    }

    /// Issues a wake-up for the parked sender, if there is one, and forgets
    /// it.
    pub fn wake_senders(&mut self) -> (wakeups: Wakeups)
        requires
            old(self).wf(),
        ensures
            final(self).wf(),
            final(self)@ == old(self)@.wake_senders(),
            wakeups@ == old(self)@.due(final(self)@),
    {
        Wakeups::new(None, self.senders_waker.release(), None)
    }

    /// Offers `message` to the channel without waiting.
    ///
    /// A closed channel rejects it with `Closed`, a full one with `Full`, and
    /// both give the message back and change nothing. Otherwise the message
    /// goes into the slot at the write cursor, the cursor moves on, and a
    /// wake-up is issued for the parked receiver.
    pub fn try_send(&mut self, message: T) -> (sent: (Result<(), TrySendError<T>>, Wakeups))
        requires
            old(self).wf(),
        ensures
            final(self).wf(),
            (final(self)@, sent.0) == old(self)@.try_send(message),
            sent.1@ == old(self)@.due(final(self)@),
    {
        if !self.closed {
            if !self.full {
                self.buf[self.write_pos] = Some(message);
                self.write_pos = Self::advance(self.write_pos);
                if self.write_pos == self.read_pos {
                    self.full = true;
                }
                let wakeups = self.wake_receiver();
                (Ok(()), wakeups)
            } else {
                (Err(TrySendError::Full(message)), Wakeups::none())
            }
        } else {
            (Err(TrySendError::Closed(message)), Wakeups::none())
        }
    }

    /// Takes the oldest message from the channel without waiting.
    ///
    /// A closed channel answers `Closed`. A channel that holds messages hands
    /// out the one at the read cursor, moves the cursor on and issues a
    /// wake-up for the parked sender, since a slot is now free. An empty
    /// channel answers `Empty` while it is open; once it is closing it
    /// becomes closed, issues a wake-up for the parked sender and answers
    /// `Closed`.
    pub fn try_recv(&mut self) -> (received: (Result<T, TryRecvError>, Wakeups))
        requires
            old(self).wf(),
        ensures
            final(self).wf(),
            (final(self)@, received.0) == old(self)@.try_recv(),
            received.1@ == old(self)@.due(final(self)@),
    {
        if !self.closed {
            if self.read_pos != self.write_pos || self.full {
                if self.full {
                    self.full = false;
                }
                let taken = self.buf[self.read_pos].take();
                self.read_pos = Self::advance(self.read_pos);
                let wakeups = self.wake_senders();
                (Ok(taken.unwrap()), wakeups)
            } else if !self.closing {
                (Err(TryRecvError::Empty), Wakeups::none())
            } else {
                let wakeups = self.shut();
                (Err(TryRecvError::Closed), wakeups)
            }
        } else {
            (Err(TryRecvError::Closed), Wakeups::none())
        }
    }

    /// Ends the channel for good and issues a wake-up for the parked sender.
    fn shut(&mut self) -> (wakeups: Wakeups)
        requires
            old(self).wf(),
        ensures
            final(self).wf(),
            final(self)@ == old(self)@.shut(),
            wakeups@ == old(self)@.due(final(self)@),
    {
        self.closing = true;
        self.closed = true;
        self.wake_senders()
    }

    /// Requests shutdown. A wake-up is issued for the parked receiver and the
    /// channel is closing from now on; what it holds can still be received.
    pub fn close(&mut self) -> (wakeups: Wakeups)
        requires
            old(self).wf(),
        ensures
            final(self).wf(),
            final(self)@ == old(self)@.close(),
            wakeups@ == old(self)@.due(final(self)@),
    {
        let wakeups = self.wake_receiver();
        self.closing = true;
        wakeups
    }

    /// Whether shutdown has begun or is complete.
    pub fn is_closed(&self) -> (closed: bool)
        requires
            self.wf(),
        ensures
            closed == self@.is_closed(),
    {
        self.closing || self.closed
    }

    /// Announces the receiver. There can be only one at a time.
    pub fn register_receiver(&mut self)
        requires
            old(self).wf(),
            !old(self)@.receiver_registered,
        ensures
            final(self).wf(),
            final(self)@ == old(self)@.register_receiver(),
    {
        self.receiver_registered = true;
    }

    /// Withdraws the receiver. If one was registered the channel is closed at
    /// once, whatever it still holds, and a wake-up is issued for the parked
    /// sender.
    pub fn deregister_receiver(&mut self) -> (wakeups: Wakeups)
        requires
            old(self).wf(),
        ensures
            final(self).wf(),
            final(self)@ == old(self)@.deregister_receiver(),
            wakeups@ == old(self)@.due(final(self)@),
    {
        if self.receiver_registered {
            let wakeups = self.shut();
            self.receiver_registered = false;
            wakeups
        } else {
            Wakeups::none()
        }
    }

    /// Announces one more sender.
    pub fn register_sender(&mut self)
        requires
            old(self).wf(),
            old(self)@.senders_registered < max_senders(),
        ensures
            final(self).wf(),
            final(self)@ == old(self)@.register_sender(),
    {
        self.senders_registered = self.senders_registered + 1;
    }

    /// Withdraws one sender. When the last one goes, shutdown is requested as
    /// by [`close`](Self::close).
    pub fn deregister_sender(&mut self) -> (wakeups: Wakeups)
        requires
            old(self).wf(),
            old(self)@.senders_registered > 0,
        ensures
            final(self).wf(),
            final(self)@ == old(self)@.deregister_sender(),
            wakeups@ == old(self)@.due(final(self)@),
    {
        self.senders_registered = self.senders_registered - 1;
        if self.senders_registered == 0 {
            self.close()
        } else {
            Wakeups::none()
        }
    }

    /// Makes the channel ready for its first handles: registers the receiver
    /// and one sender, and says so, unless a receiver is registered already.
    /// A sender beyond the limit of [`max_senders`] is not counted.
    pub fn split(&mut self) -> (registered: bool)
        requires
            old(self).wf(),
        ensures
            final(self).wf(),
            (final(self)@, registered) == old(self)@.split(),
    {
        if self.receiver_registered {
            false
        } else {
            self.register_receiver();
            if self.senders_registered < u32::MAX {
                self.register_sender();
            }
            true
        }
    }

    /// Parks the receiver: `waker` is what [`wake_receiver`](Self::wake_receiver)
    /// issues wake-ups for from now on. The waker that was parked before is
    /// spare.
    pub fn set_receiver_waker(&mut self, waker: Waker) -> (wakeups: Wakeups)
        requires
            old(self).wf(),
        ensures
            final(self).wf(),
            final(self)@ == old(self)@.set_receiver_waker(waker),
            wakeups@ == (Due { receiver: false, sender: None, spare: old(self)@.receiver_waker }),
    {
        Wakeups::new(None, None, self.receiver_waker.park(waker))
    }

    /// Whether `waker` wakes the same task as the parked sender's waker, as
    /// far as the executor can tell. With no sender parked the answer is no.
    pub fn same_sender(&self, waker: &Waker) -> (same: bool)
        ensures
            self@.senders_waker is None ==> !same,
    {
        self.senders_waker.same_task(waker)
    }

    /// Parks a sender, given whether `waker` wakes the `same` task as the
    /// sender that is parked. All senders share one slot, so the sender that
    /// was parked loses its place; it is woken to poll again unless it is the
    /// same task, and then its old waker is spare.
    pub fn replace_senders_waker(&mut self, waker: Waker, same: bool) -> (wakeups: Wakeups)
        requires
            old(self).wf(),
        ensures
            final(self).wf(),
            final(self)@ == old(self)@.set_senders_waker(waker),
            wakeups@ == old(self)@.park_sender_due(same),
    {
        let displaced = self.senders_waker.replace(waker, same);
        Wakeups::new(None, displaced.0, displaced.1)
    }

    /// Parks a sender. Whether `waker` wakes the same task as the sender
    /// that is parked is the executor's answer; the rest is
    /// [`replace_senders_waker`](Self::replace_senders_waker).
    pub fn set_senders_waker(&mut self, waker: Waker) -> (wakeups: Wakeups)
        requires
            old(self).wf(),
        ensures
            final(self).wf(),
            final(self)@ == old(self)@.set_senders_waker(waker),
            exists|same: bool| wakeups@ == #[trigger] old(self)@.park_sender_due(same),
    {
        let same = self.same_sender(&waker);
        self.replace_senders_waker(waker, same)
    }

    /// One poll of a receive, as a single step: the oldest message if there
    /// is one, the end of the stream if the channel is closed or has been
    /// drained while closing, and otherwise the receiver parks with `waker`.
    pub fn poll_recv(&mut self, waker: Waker) -> (polled: (Poll<Option<T>>, Wakeups))
        requires
            old(self).wf(),
        ensures
            final(self).wf(),
            (final(self)@, polled.0) == old(self)@.poll_recv(waker),
            polled.1@ == old(self)@.poll_recv_due(waker),
    {
        let (received, wakeups) = self.try_recv();
        match received {
            Ok(message) => (Poll::Ready(Some(message)), wakeups.with_spare(Some(waker))),
            Err(TryRecvError::Closed) => (Poll::Ready(None), wakeups.with_spare(Some(waker))),
            Err(TryRecvError::Empty) => {
                let displaced = self.receiver_waker.park(waker);
                (Poll::Pending, wakeups.with_spare(displaced))
            },
        }
    }

    /// One poll of a send, as a single step, given whether `waker` wakes the
    /// `same` task as the sender that is parked: done if the message was
    /// accepted or the channel is closed, and otherwise the sender parks
    /// with `waker` and gets the message back.
    pub fn poll_send_as(&mut self, message: T, waker: Waker, same: bool) -> (polled: (
        SendPoll<T>,
        Wakeups,
    ))
        requires
            old(self).wf(),
        ensures
            final(self).wf(),
            (final(self)@, polled.0) == old(self)@.poll_send(message, waker),
            polled.1@ == old(self)@.poll_send_due(message, waker, same),
    {
        let (sent, wakeups) = self.try_send(message);
        match sent {
            Ok(()) => (SendPoll::Ready(Ok(())), wakeups.with_spare(Some(waker))),
            Err(TrySendError::Closed(rejected)) => (
                SendPoll::Ready(Err(SendError(rejected))),
                wakeups.with_spare(Some(waker)),
            ),
            Err(TrySendError::Full(rejected)) => {
                let wakeups = self.replace_senders_waker(waker, same);
                (SendPoll::Pending(rejected), wakeups)
            },
        }
    }

    /// One poll of a send, as a single step. Whether `waker` wakes the same
    /// task as the sender that is parked is the executor's answer; the rest
    /// is [`poll_send_as`](Self::poll_send_as).
    pub fn poll_send(&mut self, message: T, waker: Waker) -> (polled: (SendPoll<T>, Wakeups))
        requires
            old(self).wf(),
        ensures
            final(self).wf(),
            (final(self)@, polled.0) == old(self)@.poll_send(message, waker),
            exists|same: bool|
                polled.1@ == #[trigger] old(self)@.poll_send_due(message, waker, same),
    {
        let same = self.same_sender(&waker);
        self.poll_send_as(message, waker, same)
    }

    /// One poll of a wait for shutdown, as a single step, given whether
    /// `waker` wakes the `same` task as the sender that is parked: done if
    /// shutdown has begun, and otherwise the sender parks with `waker`.
    pub fn poll_closed_as(&mut self, waker: Waker, same: bool) -> (polled: (Poll<()>, Wakeups))
        requires
            old(self).wf(),
        ensures
            final(self).wf(),
            (final(self)@, polled.0) == old(self)@.poll_closed(waker),
            polled.1@ == old(self)@.poll_closed_due(waker, same),
    {
        if self.is_closed() {
            (Poll::Ready(()), Wakeups::new(None, None, Some(waker)))
        } else {
            let wakeups = self.replace_senders_waker(waker, same);
            (Poll::Pending, wakeups)
        }
    }

    /// One poll of a wait for shutdown, as a single step. Whether `waker`
    /// wakes the same task as the sender that is parked is the executor's
    /// answer; the rest is [`poll_closed_as`](Self::poll_closed_as).
    pub fn poll_closed(&mut self, waker: Waker) -> (polled: (Poll<()>, Wakeups))
        requires
            old(self).wf(),
        ensures
            final(self).wf(),
            (final(self)@, polled.0) == old(self)@.poll_closed(waker),
            exists|same: bool| polled.1@ == #[trigger] old(self)@.poll_closed_due(waker, same),
    {
        let same = self.same_sender(&waker);
        self.poll_closed_as(waker, same)
    }

    /// Performs one operation, given whether the waker it brings wakes the
    /// `same` task as the sender that is parked, and gives its answer and
    /// the wake-ups that are due.
    ///
    /// A sender is registered only below the limit of [`max_senders`], and a
    /// sender is withdrawn only if one is registered.
    pub fn apply_as(&mut self, operation: Operation<T>, same: bool) -> (applied: (
        Outcome<T>,
        Wakeups,
    ))
        requires
            old(self).wf(),
        ensures
            final(self).wf(),
            (final(self)@, applied.0) == old(self)@.apply(operation),
            applied.1@ == old(self)@.apply_due(operation, same),
    {
        match operation {
            Operation::TrySend(message) => {
                let (sent, wakeups) = self.try_send(message);
                (Outcome::Sent(sent), wakeups)
            },
            Operation::TryRecv => {
                let (received, wakeups) = self.try_recv();
                (Outcome::Received(received), wakeups)
            },
            Operation::Close => (Outcome::CloseRequested, self.close()),
            Operation::IsClosed => (Outcome::Closed(self.is_closed()), Wakeups::none()),
            Operation::Split => (Outcome::Split(self.split()), Wakeups::none()),
            Operation::DeregisterReceiver => (
                Outcome::ReceiverWithdrawn,
                self.deregister_receiver(),
            ),
            Operation::RegisterSender => {
                if self.senders_registered < u32::MAX {
                    self.register_sender();
                    (Outcome::Registered(true), Wakeups::none())
                } else {
                    (Outcome::Registered(false), Wakeups::none())
                }
            },
            Operation::DeregisterSender => {
                if self.senders_registered > 0 {
                    (Outcome::SenderWithdrawn, self.deregister_sender())
                } else {
                    (Outcome::SenderWithdrawn, Wakeups::none())
                }
            },
            Operation::PollRecv(waker) => {
                let (poll, wakeups) = self.poll_recv(waker);
                (Outcome::RecvPolled(poll), wakeups)
            },
            Operation::PollSend(message, waker) => {
                let (poll, wakeups) = self.poll_send_as(message, waker, same);
                (Outcome::SendPolled(poll), wakeups)
            },
            Operation::PollClosed(waker) => {
                let (poll, wakeups) = self.poll_closed_as(waker, same);
                (Outcome::ClosedPolled(poll), wakeups)
            },
        }
    }

    /// Whether the waker that `operation` brings wakes the same task as the
    /// sender that is parked, as far as the executor can tell. The answer is
    /// no if it brings none, or none for the senders' slot.
    pub fn same_sender_for(&self, operation: &Operation<T>) -> (same: bool) {
        match operation {
            Operation::PollSend(_, waker) => self.same_sender(waker),
            Operation::PollClosed(waker) => self.same_sender(waker),
            _ => false,
        }
    }

    /// Performs one operation and gives its answer and the wake-ups that are
    /// due. This is the only way in which the handles of a channel touch the
    /// shared state. Whether a waker it brings wakes the same task as the
    /// sender that is parked is the executor's answer; the rest is
    /// [`apply_as`](Self::apply_as).
    ///
    /// No waker is woken or dropped here, and no message is dropped: the
    /// wakers come back as [`Wakeups`] and the messages in the answer.
    pub fn apply(&mut self, operation: Operation<T>) -> (applied: (Outcome<T>, Wakeups))
        requires
            old(self).wf(),
        ensures
            final(self).wf(),
            (final(self)@, applied.0) == old(self)@.apply(operation),
            exists|same: bool| applied.1@ == #[trigger] old(self)@.apply_due(operation, same),
    {
        let same = self.same_sender_for(&operation);
        self.apply_as(operation, same)
    }
}

} // verus!

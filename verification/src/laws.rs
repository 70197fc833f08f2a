//! What holds of every channel, proved from the model.
//!
//! The executable operations are specified by the functions of
//! [`ChannelModel`], so each law below also holds of every
//! [`ChannelState`](crate::ChannelState) and of whatever sequence of
//! operations the handles of a channel perform on it.

use crate::error::{SendError, TryRecvError, TrySendError};
use crate::model::ChannelModel;
use crate::operation::{Operation, Outcome, SendPoll};
use core::task::{Poll, Waker};
use vstd::arithmetic::div_mod::{lemma_mod_self_0, lemma_small_mod};
use vstd::prelude::*;

verus! {

/// Capacity invariant, one step: an operation on a well-formed channel leaves
/// a well-formed channel of the same capacity, so the buffer never holds more
/// than that many messages.
pub proof fn lemma_apply_preserves_wf<T>(channel: ChannelModel<T>, operation: Operation<T>)
    requires
        channel.wf(),
    ensures
        channel.apply(operation).0.wf(),
        channel.apply(operation).0.capacity == channel.capacity,
        channel.apply(operation).0.queue.len() <= channel.capacity,
{
}

/// Capacity invariant: whatever operations are performed on a well-formed
/// channel, it stays well formed and never holds more messages than its
/// capacity.
pub proof fn lemma_capacity_is_never_exceeded<T>(
    channel: ChannelModel<T>,
    operations: Seq<Operation<T>>,
)
    requires
        channel.wf(),
    ensures
        channel.run(operations).wf(),
        channel.run(operations).capacity == channel.capacity,
        channel.run(operations).queue.len() <= channel.capacity,
    decreases operations.len(),
{
    if operations.len() > 0 {
        lemma_apply_preserves_wf(channel, operations.first());
        lemma_capacity_is_never_exceeded(
            channel.apply(operations.first()).0,
            operations.drop_first(),
        );
    }
}

/// A channel that is not closed rejects a message as `Full` exactly when it
/// holds as many messages as its capacity, and accepts it otherwise.
pub proof fn lemma_full_iff_at_capacity<T>(channel: ChannelModel<T>, message: T)
    requires
        channel.wf(),
        !channel.closed,
    ensures
        channel.try_send(message).1 == Err::<(), _>(TrySendError::Full(message))
            <==> channel.queue.len() == channel.capacity,
        channel.try_send(message).1 is Ok <==> channel.queue.len() < channel.capacity,
{
}

/// First in, first out, one step: what was buffered before the step,
/// followed by the message the step accepted, is what the step handed out,
/// followed by what is buffered after it.
pub proof fn lemma_apply_keeps_order<T>(channel: ChannelModel<T>, operation: Operation<T>)
    requires
        channel.wf(),
    ensures
        ({
            let (next, outcome) = channel.apply(operation);
            channel.queue + outcome.accepted(operation) == outcome.delivered() + next.queue
        }),
{
}

/// First in, first out: over any sequence of operations, the messages handed
/// out, followed by the messages still buffered, are the messages buffered
/// at the start, followed by the messages accepted, in the same order.
/// Nothing is reordered, duplicated or lost.
pub proof fn lemma_fifo<T>(channel: ChannelModel<T>, operations: Seq<Operation<T>>)
    requires
        channel.wf(),
    ensures
        channel.queue + channel.accepted(operations) == channel.delivered(operations)
            + channel.run(operations).queue,
    decreases operations.len(),
{
    if operations.len() > 0 {
        let (next, outcome) = channel.apply(operations.first());
        let rest = operations.drop_first();
        lemma_apply_preserves_wf(channel, operations.first());
        lemma_apply_keeps_order(channel, operations.first());
        lemma_fifo(next, rest);
        let given = outcome.delivered();
        assert(given + (next.delivered(rest) + next.run(rest).queue) =~= (given
            + next.delivered(rest)) + next.run(rest).queue);
    }
}

/// Receiving from a channel that holds at least `count` messages, `count`
/// times in a row, takes the oldest `count` messages off the queue and
/// changes neither the lifecycle nor the registrations.
pub proof fn lemma_drain<T>(channel: ChannelModel<T>, count: nat)
    requires
        channel.wf(),
        !channel.closed,
        count <= channel.queue.len(),
    ensures
        channel.drain(count).wf(),
        channel.drain(count).queue == channel.queue.skip(count as int),
        channel.drain(count).capacity == channel.capacity,
        channel.drain(count).closing == channel.closing,
        channel.drain(count).closed == channel.closed,
        channel.drain(count).receiver_registered == channel.receiver_registered,
        channel.drain(count).senders_registered == channel.senders_registered,
    decreases count,
{
    if count > 0 {
        lemma_drain(channel.try_recv().0, (count - 1) as nat);
    }
}

/// Once a channel is closing, receiving hands out each buffered message in
/// order, and then reports the end of the stream, for good.
pub proof fn lemma_closing_channel_drains<T>(channel: ChannelModel<T>, count: nat, waker: Waker)
    requires
        channel.wf(),
        channel.closing,
        !channel.closed,
    ensures
        count < channel.queue.len() ==> {
            &&& channel.drain(count).try_recv().1 == Ok::<T, TryRecvError>(
                channel.queue[count as int],
            )
            &&& channel.drain(count).poll_recv(waker).1 == Poll::Ready(
                Some(channel.queue[count as int]),
            )
        },
        count >= channel.queue.len() ==> {
            &&& channel.drain(count).try_recv().1 == Err::<T, _>(TryRecvError::Closed)
            &&& channel.drain(count).poll_recv(waker).1 == Poll::<Option<T>>::Ready(None)
        },
        count > channel.queue.len() ==> channel.drain(count).closed,
    decreases count,
{
    let len = channel.queue.len();
    if count <= len {
        lemma_drain(channel, count);
    } else {
        lemma_closing_channel_drains(channel, (count - 1) as nat, waker);
        lemma_drain_step(channel, (count - 1) as nat);
        if count - 1 == len {
            lemma_drain(channel, len);
        }
    }
}

/// One more receive attempt after `count` of them is the same as `count`
/// attempts after one.
pub proof fn lemma_drain_step<T>(channel: ChannelModel<T>, count: nat)
    ensures
        channel.drain(count + 1) == channel.drain(count).try_recv().0,
    decreases count,
{
    let next = channel.try_recv().0;
    if count > 0 {
        lemma_drain_step(next, (count - 1) as nat);
    } else {
        assert(next.drain(0) == next);
    }
}

/// Clean shutdown: when the receiver closes a channel that holds some
/// messages, the next receives hand out exactly those messages, in order,
/// and every receive after them reports the end of the stream.
pub proof fn lemma_clean_shutdown<T>(channel: ChannelModel<T>, count: nat, waker: Waker)
    requires
        channel.wf(),
        !channel.closed,
    ensures
        channel.close().queue == channel.queue,
        count < channel.queue.len() ==> {
            &&& channel.close().drain(count).try_recv().1 == Ok::<T, TryRecvError>(
                channel.queue[count as int],
            )
            &&& channel.close().drain(count).poll_recv(waker).1 == Poll::Ready(
                Some(channel.queue[count as int]),
            )
        },
        count >= channel.queue.len() ==> {
            &&& channel.close().drain(count).try_recv().1 == Err::<T, _>(TryRecvError::Closed)
            &&& channel.close().drain(count).poll_recv(waker).1 == Poll::<Option<T>>::Ready(None)
        },
{
    lemma_closing_channel_drains(channel.close(), count, waker);
}

/// Last-sender shutdown: when the last sender of an open channel is
/// withdrawn, nothing is lost. The next receives hand out the buffered
/// messages, in order, and every receive after them reports the end of the
/// stream.
pub proof fn lemma_last_sender_shutdown<T>(channel: ChannelModel<T>, count: nat, waker: Waker)
    requires
        channel.wf(),
        !channel.closed,
        channel.senders_registered == 1,
    ensures
        channel.deregister_sender().is_closed(),
        channel.deregister_sender().queue == channel.queue,
        count < channel.queue.len() ==> {
            &&& channel.deregister_sender().drain(count).try_recv().1 == Ok::<T, TryRecvError>(
                channel.queue[count as int],
            )
            &&& channel.deregister_sender().drain(count).poll_recv(waker).1 == Poll::Ready(
                Some(channel.queue[count as int]),
            )
        },
        count >= channel.queue.len() ==> {
            &&& channel.deregister_sender().drain(count).try_recv().1 == Err::<T, _>(
                TryRecvError::Closed,
            )
            &&& channel.deregister_sender().drain(count).poll_recv(waker).1 == Poll::<
                Option<T>,
            >::Ready(None)
        },
{
    lemma_closing_channel_drains(channel.deregister_sender(), count, waker);
}

/// A closed channel stays closed, whatever is done to it.
pub proof fn lemma_closed_is_final<T>(channel: ChannelModel<T>, operations: Seq<Operation<T>>)
    requires
        channel.closed,
    ensures
        channel.run(operations).closed,
        channel.run(operations).queue == channel.queue,
    decreases operations.len(),
{
    if operations.len() > 0 {
        lemma_closed_is_final(channel.apply(operations.first()).0, operations.drop_first());
    }
}

/// Hard shutdown: once the receiver of a channel is withdrawn, every send is
/// rejected as `Closed` and gets its message back, however much room the
/// buffer has and whatever else has happened since. A sender that was parked
/// is woken.
pub proof fn lemma_hard_shutdown<T>(
    channel: ChannelModel<T>,
    operations: Seq<Operation<T>>,
    message: T,
    waker: Waker,
)
    requires
        channel.wf(),
        channel.receiver_registered,
    ensures
        channel.deregister_receiver().closed,
        channel.senders_waker is Some ==> channel.deregister_receiver().senders_wakes
            == channel.senders_wakes + 1,
        channel.deregister_receiver().run(operations).try_send(message).1 == Err::<(), _>(
            TrySendError::Closed(message),
        ),
        channel.deregister_receiver().run(operations).poll_send(message, waker).1
            == SendPoll::Ready(Err(SendError(message))),
{
    lemma_closed_is_final(channel.deregister_receiver(), operations);
}

/// Idempotent closedness: once a channel reports that it is closed, it
/// reports so after every further operation.
pub proof fn lemma_is_closed_is_stable<T>(channel: ChannelModel<T>, operations: Seq<Operation<T>>)
    requires
        channel.is_closed(),
    ensures
        channel.run(operations).is_closed(),
        channel.run(operations).apply(Operation::IsClosed).1 == Outcome::<T>::Closed(true),
    decreases operations.len(),
{
    if operations.len() > 0 {
        lemma_is_closed_is_stable(channel.apply(operations.first()).0, operations.drop_first());
    }
}

/// A channel without senders is closing: if that holds of a channel, it
/// holds after every further operation. It holds of a channel from the
/// moment its first sender is registered.
pub proof fn lemma_no_sender_means_closing<T>(
    channel: ChannelModel<T>,
    operations: Seq<Operation<T>>,
)
    requires
        channel.senders_registered == 0 ==> channel.is_closed(),
    ensures
        channel.run(operations).senders_registered == 0 ==> channel.run(operations).is_closed(),
    decreases operations.len(),
{
    if operations.len() > 0 {
        lemma_no_sender_means_closing(channel.apply(operations.first()).0, operations.drop_first());
    }
}

/// Backpressure ends with a receive: a sender that found the buffer full has
/// parked and kept its message. The next receive hands out the oldest
/// message and wakes that sender, and the send then succeeds.
pub proof fn lemma_receive_unblocks_send<T>(
    channel: ChannelModel<T>,
    message: T,
    waker: Waker,
    again: Waker,
)
    requires
        channel.wf(),
        !channel.closed,
        channel.is_full(),
    ensures
        ({
            let (parked, poll) = channel.poll_send(message, waker);
            let (freed, received) = parked.try_recv();
            &&& poll == SendPoll::Pending(message)
            &&& parked.senders_waker == Some(waker)
            &&& parked.queue == channel.queue
            &&& received == Ok::<T, TryRecvError>(channel.queue.first())
            &&& freed.senders_wakes == parked.senders_wakes + 1
            &&& freed.senders_waker is None
            &&& freed.poll_send(message, again).1 == SendPoll::Ready(Ok::<(), SendError<T>>(()))
            &&& freed.poll_send(message, again).0.queue == channel.queue.drop_first().push(message)
        }),
{
}

/// A send ends the wait of the receiver: a receiver that found an open
/// channel empty has parked. The next send wakes it, and its next poll
/// yields the message that was sent.
pub proof fn lemma_send_wakes_receiver<T>(
    channel: ChannelModel<T>,
    message: T,
    waker: Waker,
    again: Waker,
)
    requires
        channel.wf(),
        !channel.is_closed(),
        channel.is_empty(),
    ensures
        ({
            let (parked, poll) = channel.poll_recv(waker);
            let (filled, sent) = parked.try_send(message);
            &&& poll == Poll::<Option<T>>::Pending
            &&& parked.receiver_waker == Some(waker)
            &&& sent is Ok
            &&& filled.receiver_wakes == parked.receiver_wakes + 1
            &&& filled.poll_recv(again).1 == Poll::Ready(Some(message))
        }),
{
}

/// A new channel can be split: the receiver and the first sender are both
/// registered, and the channel is open and empty with one of each.
pub proof fn lemma_new_channel_splits<T>(capacity: nat)
    requires
        capacity > 0,
    ensures
        ({
            let fresh = ChannelModel::<T>::fresh(capacity);
            &&& fresh.wf()
            &&& fresh.apply(Operation::Split).1 == Outcome::<T>::Split(true)
            &&& fresh.split() == (
                ChannelModel { receiver_registered: true, senders_registered: 1, ..fresh },
                true,
            )
        }),
{
}

/// A channel has one receiver: while one is registered, the channel cannot
/// be split again, and the attempt changes nothing.
pub proof fn lemma_one_receiver<T>(channel: ChannelModel<T>)
    requires
        channel.receiver_registered,
    ensures
        channel.apply(Operation::Split) == (channel, Outcome::<T>::Split(false)),
{
}

/// Registering one more sender beside an existing one and withdrawing it
/// again leaves the channel as it was.
pub proof fn lemma_extra_sender_is_neutral<T>(channel: ChannelModel<T>)
    requires
        channel.senders_registered >= 1,
    ensures
        channel.register_sender().deregister_sender() == channel,
{
}

/// The cursors move round the buffer: the slot after `pos` is `pos + 1`
/// modulo the capacity.
pub proof fn lemma_advance_is_modular<T>(channel: ChannelModel<T>, pos: nat)
    requires
        channel.capacity > 0,
        pos < channel.capacity,
    ensures
        channel.advance(pos) == ((pos + 1) as int) % (channel.capacity as int),
        channel.advance(pos) < channel.capacity,
{
    if pos + 1 == channel.capacity {
        lemma_mod_self_0(channel.capacity as int);
    } else {
        lemma_small_mod(pos + 1, channel.capacity);
    }
}

/// Only sending and receiving move a cursor: a send that is accepted moves
/// the write cursor on by one slot, a receive that hands out a message moves
/// the read cursor on by one slot, and nothing else moves either.
pub proof fn lemma_cursors<T>(channel: ChannelModel<T>, operation: Operation<T>)
    requires
        channel.wf(),
    ensures
        ({
            let (next, outcome) = channel.apply(operation);
            &&& next.write_pos == if outcome.accepted(operation).len() > 0 {
                channel.advance(channel.write_pos)
            } else {
                channel.write_pos
            }
            &&& next.read_pos == if outcome.delivered().len() > 0 {
                channel.advance(channel.read_pos)
            } else {
                channel.read_pos
            }
            &&& next.is_full() <==> next.queue.len() > 0 && next.read_pos == next.write_pos
        }),
{
}

/// No parked sender is forgotten: when another task takes the senders' slot
/// because the buffer is still full, the sender that was parked there is
/// woken, so that it polls again; and once a receive has made room, the
/// sender that polls first gets its message in.
pub proof fn lemma_displaced_sender_is_woken<T>(
    channel: ChannelModel<T>,
    first: T,
    second: T,
    first_waker: Waker,
    second_waker: Waker,
)
    requires
        channel.wf(),
        !channel.closed,
        channel.is_full(),
    ensures
        ({
            let (one_parked, _) = channel.poll_send(first, first_waker);
            let (other_parked, poll) = one_parked.poll_send(second, second_waker);
            let due = one_parked.poll_send_due(second, second_waker, false);
            &&& poll == SendPoll::Pending(second)
            &&& other_parked.senders_waker == Some(second_waker)
            &&& due.sender == Some(first_waker)
            &&& other_parked.queue == channel.queue
        }),
{
}

} // verus!

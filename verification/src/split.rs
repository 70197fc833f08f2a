//! Making the two halves of a channel.

use crate::channel::Channel;
use crate::model::ChannelModel;
use crate::mutex::Exclusion;
use crate::operation::{Operation, Outcome};
use crate::receiver::Receiver;
use crate::sender::Sender;
use vstd::prelude::*;

verus! {

/// Splits a channel into a [`Sender`] and a [`Receiver`].
///
/// Whatever is sent on the sender becomes available on the receiver, in the
/// order in which it was sent. The sender can be cloned to send from several
/// places; there is only one receiver. Both borrow the channel and cannot
/// outlive it.
///
/// The receiver and the first sender are registered with the channel. A
/// channel has at most one receiver: if one is still registered, because an
/// earlier receiver was never released, there is nothing to hand out and the
/// result is `None`. A new channel has no receiver, so it can be split.
pub fn split<'ch, M, T, const N: usize>(channel: &'ch mut Channel<M, T, N>) -> (handles: Option<
    (Sender<'ch, M, T, N>, Receiver<'ch, M, T, N>),
>) where M: Exclusion<T, N>
    requires
        old(channel).wf(),
    ensures
        final(channel).shared(),
        final(channel).wf(),
        old(channel).sole() matches Some(model) ==> (handles is Some
            <==> !model.receiver_registered),
        ChannelModel::<T>::answers(
            N as nat,
            Operation::Split,
            Outcome::Split(handles is Some),
        ),
        handles matches Some((sender, receiver)) ==> *sender.channel() == *final(channel)
            && *receiver.channel() == *final(channel),
{
    let registered = channel.share();
    handles(channel, registered)
}

/// The handles of a channel on which the receiver and the first sender have
/// just been registered, and none if they could not be.
fn handles<'ch, M, T, const N: usize>(channel: &'ch Channel<M, T, N>, registered: bool) -> (handles:
    Option<(Sender<'ch, M, T, N>, Receiver<'ch, M, T, N>)>) where M: Exclusion<T, N>
    requires
        channel.shared(),
    ensures
        handles is Some <==> registered,
        handles matches Some((sender, receiver)) ==> sender.channel() == channel
            && receiver.channel() == channel,
{
    if registered {
        Some((Sender::attach(channel), Receiver::attach(channel)))
    } else {
        None
    }
}

} // verus!

//! A slot that remembers at most one parked task, and the wake-ups that an
//! operation leaves to be delivered.
//!
//! Waking or dropping a waker runs code of the task's executor. An operation
//! on a channel therefore does neither: it hands the wakers back as
//! [`Wakeups`], and they are delivered once the operation is over and the
//! state of the channel is no longer in use.

use core::task::Waker;
use vstd::prelude::*;

verus! {

/// `core::task::Waker`, the handle that reschedules a suspended task. Its
/// contents are never inspected here.
#[verifier::external_type_specification]
#[verifier::external_body]
pub struct ExWaker(core::task::Waker);

/// `Waker::wake` asks the executor to poll the waker's task again and
/// consumes the waker. Nothing is claimed about what the executor then does.
pub assume_specification[ core::task::Waker::wake ](waker: core::task::Waker);

/// `Waker::will_wake` compares two wakers on a best-effort basis, so nothing
/// is claimed about the answer.
pub assume_specification[ core::task::Waker::will_wake ](
    waker: &core::task::Waker,
    other: &core::task::Waker,
) -> (same: bool);

/// `Waker::clone` makes another waker for the same task.
pub assume_specification[ <core::task::Waker as Clone>::clone ](
    waker: &core::task::Waker,
) -> (copy: core::task::Waker);

/// What [`Wakeups`] stand for.
pub struct Due {
    /// The receiver is to be woken.
    pub receiver: bool,
    /// The sender to be woken.
    pub sender: Option<Waker>,
    /// A waker that is of no more use.
    pub spare: Option<Waker>,
}

/// The wakers that an operation hands back: a copy of the receiver's waker
/// and a sender's waker to be woken, and a spare waker to be dropped.
pub struct Wakeups {
    receiver: Option<Waker>,
    sender: Option<Waker>,
    spare: Option<Waker>,
}

impl View for Wakeups {
    type V = Due;

    closed spec fn view(&self) -> Due {
        Due { receiver: self.receiver is Some, sender: self.sender, spare: self.spare }
    }
}

impl Wakeups {
    /// The wake-ups made of the given wakers.
    pub fn new(receiver: Option<Waker>, sender: Option<Waker>, spare: Option<Waker>) -> (wakeups:
        Self)
        ensures
            wakeups@ == (Due { receiver: receiver is Some, sender, spare }),
    {
        Wakeups { receiver, sender, spare }
    }

    /// No wake-up at all.
    pub fn none() -> (wakeups: Self)
        ensures
            wakeups@ == (Due { receiver: false, sender: None, spare: None }),
    {
        Wakeups { receiver: None, sender: None, spare: None }
    }

    /// These wake-ups, with `spare` as the waker to drop. There must be none
    /// yet, so that nothing is dropped here.
    pub fn with_spare(self, spare: Option<Waker>) -> (wakeups: Self)
        requires
            self@.spare is None,
        ensures
            wakeups@ == (Due { spare, ..self@ }),
    {
        Wakeups { receiver: self.receiver, sender: self.sender, spare }
    }

    /// Whether the receiver is to be woken.
    pub fn wakes_receiver(&self) -> (wakes: bool)
        ensures
            wakes == self@.receiver,
    {
        self.receiver.is_some()
    }

    /// Whether a sender is to be woken.
    pub fn wakes_sender(&self) -> (wakes: bool)
        ensures
            wakes == self@.sender is Some,
    {
        self.sender.is_some()
    }

    /// Whether a waker is to be dropped.
    pub fn has_spare(&self) -> (spare: bool)
        ensures
            spare == self@.spare is Some,
    {
        self.spare.is_some()
    }

    /// Wakes the receiver and the sender that are to be woken, and drops the
    /// spare waker.
    pub fn deliver(self) {
        if let Some(waker) = self.receiver {
            waker.wake();
        }
        if let Some(waker) = self.sender {
            waker.wake();
        }
    }
}

/// Holds the waker of the task that is currently parked, if any, and counts
/// the wake-ups that were issued for it.
pub struct WakerSlot {
    waker: Option<Waker>,
    notified: Ghost<nat>,
}

impl WakerSlot {
    /// The waker that is parked in the slot.
    pub closed spec fn parked(&self) -> Option<Waker> {
        self.waker
    }

    /// How many wake-ups were issued for the tasks parked here because the
    /// channel changed.
    pub closed spec fn notified(&self) -> nat {
        self.notified@
    }

    /// An empty slot for which nothing has been issued yet.
    pub fn new() -> (slot: Self)
        ensures
            slot.parked() is None,
            slot.notified() == 0,
    {
        WakerSlot { waker: None, notified: Ghost(0) }
    }

    /// Whether a task is parked.
    pub fn is_parked(&self) -> (parked: bool)
        ensures
            parked == self.parked() is Some,
    {
        self.waker.is_some()
    }

    /// Parks `waker` and hands back the waker that was parked before.
    pub fn park(&mut self, waker: Waker) -> (displaced: Option<Waker>)
        ensures
            final(self).parked() == Some(waker),
            final(self).notified() == old(self).notified(),
            displaced == old(self).parked(),
    {
        let displaced = self.waker.take();
        self.waker = Some(waker);
        displaced
    }

    /// Whether `waker` wakes the same task as the parked waker, as far as
    /// the executor can tell. With nothing parked the answer is no.
    pub fn same_task(&self, waker: &Waker) -> (same: bool)
        ensures
            self.parked() is None ==> !same,
    {
        match &self.waker {
            Some(current) => waker.will_wake(current),
            None => false,
        }
    }

    /// Parks `waker`, given whether it wakes the `same` task as the parked
    /// waker. The waker that was parked is handed back: first of the pair
    /// if it is to be woken, because another task took its place, and second
    /// if it is only to be dropped.
    pub fn replace(&mut self, waker: Waker, same: bool) -> (displaced: (
        Option<Waker>,
        Option<Waker>,
    ))
        ensures
            final(self).parked() == Some(waker),
            final(self).notified() == old(self).notified(),
            displaced == if same {
                (None::<Waker>, old(self).parked())
            } else {
                (old(self).parked(), None::<Waker>)
            },
    {
        let displaced = self.park(waker);
        if same {
            (None, displaced)
        } else {
            (displaced, None)
        }
    }

    /// Parks `waker`. A different waker that was parked is handed back to be
    /// woken, so that the task it belongs to is not left waiting forever;
    /// whether two wakers count as different is the executor's answer.
    pub fn supersede(&mut self, waker: Waker) -> (displaced: (Option<Waker>, Option<Waker>))
        ensures
            final(self).parked() == Some(waker),
            final(self).notified() == old(self).notified(),
            displaced == (old(self).parked(), None::<Waker>) || displaced == (
                None::<Waker>,
                old(self).parked(),
            ),
    {
        let same = self.same_task(&waker);
        self.replace(waker, same)
    }

    /// Issues a wake-up for the parked task, if any: a copy of its waker is
    /// handed back to be woken, and the task stays parked.
    pub fn notify(&mut self) -> (copy: Option<Waker>)
        ensures
            final(self).parked() == old(self).parked(),
            copy is Some <==> old(self).parked() is Some,
            final(self).notified() == old(self).notified() + (if old(self).parked() is Some {
                1nat
            } else {
                0nat
            }),
    {
        match &self.waker {
            Some(waker) => {
                let copy = waker.clone();
                self.notified = Ghost(self.notified@ + 1);
                Some(copy)
            },
            None => None,
        }
    }

    /// Issues a wake-up for the parked task, if any: its waker is handed
    /// back to be woken, and the slot is empty.
    pub fn release(&mut self) -> (waker: Option<Waker>)
        ensures
            final(self).parked() is None,
            waker == old(self).parked(),
            final(self).notified() == old(self).notified() + (if old(self).parked() is Some {
                1nat
            } else {
                0nat
            }),
    {
        let waker = self.waker.take();
        if waker.is_some() {
            self.notified = Ghost(self.notified@ + 1);
        }
        waker
    }
}

} // verus!

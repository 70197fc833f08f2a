use mpsc::{ChannelState, Operation, Outcome, SendError, SendPoll, TryRecvError, WakerSlot};
use std::sync::atomic::{AtomicUsize, Ordering};
use std::sync::Arc;
use std::task::{Poll, Wake, Waker};

struct Count(AtomicUsize);

impl Wake for Count {
    fn wake(self: Arc<Self>) {
        self.0.fetch_add(1, Ordering::SeqCst);
    }
}

fn counter() -> (Arc<Count>, Waker) {
    let count = Arc::new(Count(AtomicUsize::new(0)));
    (count.clone(), Waker::from(count))
}

fn woken(count: &Arc<Count>) -> usize {
    count.0.load(Ordering::SeqCst)
}

/// How many wakers for the counter exist besides the counter itself.
fn held(count: &Arc<Count>) -> usize {
    Arc::strong_count(count) - 1
}

#[test]
fn a_slot_hands_back_what_is_parked_in_it() {
    let mut slot = WakerSlot::new();
    assert!(!slot.is_parked());
    assert!(slot.notify().is_none());
    assert!(slot.release().is_none());
    let (count, waker) = counter();
    assert!(slot.park(waker).is_none());
    assert!(slot.is_parked());
    // A wake-up is a copy: the task stays parked.
    let copy = slot.notify().unwrap();
    assert!(slot.is_parked());
    assert_eq!(woken(&count), 0);
    copy.wake();
    assert_eq!(woken(&count), 1);
    let released = slot.release().unwrap();
    assert!(!slot.is_parked());
    released.wake();
    assert_eq!(woken(&count), 2);
    assert!(slot.release().is_none());
}

#[test]
fn parking_hands_back_the_waker_that_was_parked() {
    let mut slot = WakerSlot::new();
    let (first_count, first) = counter();
    let (second_count, second) = counter();
    assert!(slot.park(first).is_none());
    let displaced = slot.park(second).unwrap();
    assert_eq!(held(&first_count), 1);
    drop(displaced);
    assert_eq!(held(&first_count), 0);
    assert_eq!(woken(&first_count), 0);
    slot.release().unwrap().wake();
    assert_eq!(woken(&second_count), 1);
}

#[test]
fn replacing_says_whether_the_displaced_waker_is_to_be_woken() {
    let mut slot = WakerSlot::new();
    let (_, first) = counter();
    let (_, second) = counter();
    let (_, third) = counter();
    let (to_wake, to_drop) = slot.replace(first, false);
    assert!(to_wake.is_none() && to_drop.is_none());
    // Another task takes the place: the first is to be woken.
    let (to_wake, to_drop) = slot.replace(second, false);
    assert!(to_wake.is_some() && to_drop.is_none());
    // The same task parks again: its old waker is only dropped.
    let (to_wake, to_drop) = slot.replace(third, true);
    assert!(to_wake.is_none() && to_drop.is_some());
}

#[test]
fn superseding_wakes_another_task_but_not_the_same() {
    let mut slot = WakerSlot::new();
    let (first_count, first) = counter();
    let (_, second) = counter();
    assert!(!slot.same_task(&first));
    let (to_wake, to_drop) = slot.supersede(first.clone());
    assert!(to_wake.is_none() && to_drop.is_none());
    assert!(slot.same_task(&first));
    assert!(!slot.same_task(&second));
    let (to_wake, to_drop) = slot.supersede(first);
    assert!(to_wake.is_none() && to_drop.is_some());
    drop(to_drop);
    let (to_wake, to_drop) = slot.supersede(second);
    assert!(to_drop.is_none());
    to_wake.unwrap().wake();
    assert_eq!(woken(&first_count), 1);
}

#[test]
fn nothing_is_woken_before_the_wakeups_are_delivered() {
    let mut c = ChannelState::<u32, 3>::new();
    let (count, waker) = counter();
    c.set_receiver_waker(waker).deliver();
    let (sent, wakeups) = c.try_send(1);
    assert!(sent.is_ok());
    assert!(wakeups.wakes_receiver());
    assert!(!wakeups.wakes_sender());
    assert!(!wakeups.has_spare());
    assert_eq!(woken(&count), 0);
    wakeups.deliver();
    assert_eq!(woken(&count), 1);
}

#[test]
fn a_send_wakes_the_receiver_each_time() {
    let mut c = ChannelState::<u32, 3>::new();
    let (count, waker) = counter();
    assert!(c.try_send(1).0.is_ok());
    c.set_receiver_waker(waker).deliver();
    assert!(c.receiver_parked());
    let (sent, wakeups) = c.try_send(2);
    assert!(sent.is_ok());
    wakeups.deliver();
    assert_eq!(woken(&count), 1);
    let (sent, wakeups) = c.try_send(3);
    assert!(sent.is_ok());
    wakeups.deliver();
    assert_eq!(woken(&count), 2);
    // A rejected send wakes nobody.
    let (sent, wakeups) = c.try_send(4);
    assert!(sent.is_err());
    assert!(!wakeups.wakes_receiver());
    wakeups.deliver();
    assert_eq!(woken(&count), 2);
    assert!(c.receiver_parked());
    c.wake_receiver().deliver();
    assert_eq!(woken(&count), 3);
}

#[test]
fn a_receive_wakes_one_sender_and_forgets_it() {
    let mut c = ChannelState::<u32, 1>::new();
    let (count, waker) = counter();
    assert!(c.try_send(1).0.is_ok());
    let (poll, wakeups) = c.poll_send(2, waker);
    assert!(matches!(poll, SendPoll::Pending(2)));
    wakeups.deliver();
    assert!(c.senders_parked());
    let (received, wakeups) = c.try_recv();
    assert_eq!(received, Ok(1));
    assert!(wakeups.wakes_sender());
    wakeups.deliver();
    assert_eq!(woken(&count), 1);
    assert!(!c.senders_parked());
    let (received, wakeups) = c.try_recv();
    assert_eq!(received, Err(TryRecvError::Empty));
    wakeups.deliver();
    assert_eq!(woken(&count), 1);
}

#[test]
fn reaching_closed_wakes_the_parked_sender() {
    let mut c = ChannelState::<u32, 1>::new();
    let (count, waker) = counter();
    let (poll, wakeups) = c.poll_closed(waker);
    assert_eq!(poll, Poll::Pending);
    wakeups.deliver();
    c.close().deliver();
    // Closing alone tells the senders nothing.
    assert_eq!(woken(&count), 0);
    let (received, wakeups) = c.try_recv();
    assert_eq!(received, Err(TryRecvError::Closed));
    wakeups.deliver();
    assert_eq!(woken(&count), 1);
    assert!(!c.senders_parked());
    let (_, waker) = counter();
    assert_eq!(c.poll_closed(waker).0, Poll::Ready(()));
}

#[test]
fn withdrawing_the_receiver_wakes_the_parked_sender() {
    let mut c = ChannelState::<u32, 1>::new();
    c.register_receiver();
    let (count, waker) = counter();
    assert!(c.try_send(1).0.is_ok());
    let (poll, wakeups) = c.poll_send(2, waker);
    assert!(matches!(poll, SendPoll::Pending(2)));
    wakeups.deliver();
    c.deregister_receiver().deliver();
    assert_eq!(woken(&count), 1);
    let (_, waker) = counter();
    assert!(matches!(c.poll_send(2, waker).0, SendPoll::Ready(Err(SendError(2)))));
}

#[test]
fn setting_the_senders_waker_supersedes() {
    let mut c = ChannelState::<u32, 1>::new();
    let (first_count, first) = counter();
    let (second_count, second) = counter();
    c.set_senders_waker(first).deliver();
    let wakeups = c.set_senders_waker(second);
    assert!(wakeups.wakes_sender());
    assert!(!wakeups.has_spare());
    wakeups.deliver();
    assert_eq!(woken(&first_count), 1);
    assert_eq!(woken(&second_count), 0);
    c.wake_senders().deliver();
    assert_eq!(woken(&second_count), 1);
    assert!(!c.senders_parked());
    let (third_count, third) = counter();
    let (fourth_count, fourth) = counter();
    c.replace_senders_waker(third, false).deliver();
    // Told that it is the same task, the state wakes nobody.
    let wakeups = c.replace_senders_waker(fourth, true);
    assert!(!wakeups.wakes_sender());
    assert!(wakeups.has_spare());
    wakeups.deliver();
    assert_eq!(woken(&third_count), 0);
    assert_eq!(woken(&fourth_count), 0);
}

#[test]
fn a_sender_that_parks_twice_is_not_woken_by_itself() {
    let mut c = ChannelState::<u32, 1>::new();
    let (count, waker) = counter();
    assert!(c.try_send(1).0.is_ok());
    assert!(!c.same_sender(&waker));
    let (_, wakeups) = c.poll_send(2, waker.clone());
    wakeups.deliver();
    assert!(c.same_sender(&waker));
    let (poll, wakeups) = c.poll_send(2, waker);
    assert!(matches!(poll, SendPoll::Pending(2)));
    assert!(!wakeups.wakes_sender());
    assert!(wakeups.has_spare());
    wakeups.deliver();
    assert_eq!(woken(&count), 0);
}

#[test]
fn a_waker_that_is_not_parked_comes_back_as_spare() {
    let mut c = ChannelState::<u32, 2>::new();
    let (count, waker) = counter();
    assert_eq!(held(&count), 1);
    let (poll, wakeups) = c.poll_send(1, waker.clone());
    assert!(matches!(poll, SendPoll::Ready(Ok(()))));
    assert!(wakeups.has_spare());
    // The state holds none of the wakers: they are all with the caller.
    assert_eq!(held(&count), 2);
    wakeups.deliver();
    assert_eq!(held(&count), 1);
    let (poll, wakeups) = c.poll_recv(waker.clone());
    assert_eq!(poll, Poll::Ready(Some(1)));
    assert!(wakeups.has_spare());
    wakeups.deliver();
    let (poll, wakeups) = c.poll_recv(waker.clone());
    assert_eq!(poll, Poll::Pending);
    assert!(!wakeups.has_spare());
    wakeups.deliver();
    assert_eq!(held(&count), 2);
    // Parking again hands back the waker that was parked.
    let (poll, wakeups) = c.poll_recv(waker);
    assert_eq!(poll, Poll::Pending);
    assert!(wakeups.has_spare());
    wakeups.deliver();
    assert_eq!(held(&count), 1);
    assert_eq!(woken(&count), 0);
}

#[test]
fn polling_a_receive_parks_only_when_empty_and_open() {
    let mut c = ChannelState::<u32, 2>::new();
    let (count, waker) = counter();
    assert!(c.try_send(1).0.is_ok());
    assert_eq!(c.poll_recv(waker.clone()).0, Poll::Ready(Some(1)));
    assert!(!c.receiver_parked());
    assert_eq!(c.poll_recv(waker.clone()).0, Poll::Pending);
    assert!(c.receiver_parked());
    c.close().deliver();
    assert_eq!(woken(&count), 1);
    assert_eq!(c.poll_recv(waker.clone()).0, Poll::Ready(None));
    assert_eq!(c.poll_recv(waker).0, Poll::Ready(None));
}

#[test]
fn operations_are_answered_in_kind() {
    let mut c = ChannelState::<u32, 1>::new();
    let (_, waker) = counter();
    assert!(matches!(c.apply(Operation::IsClosed).0, Outcome::Closed(false)));
    assert!(matches!(c.apply(Operation::Split).0, Outcome::Split(true)));
    assert!(c.receiver_registered());
    assert_eq!(c.senders_registered(), 1);
    assert!(matches!(c.apply(Operation::Split).0, Outcome::Split(false)));
    assert!(matches!(c.apply(Operation::RegisterSender).0, Outcome::Registered(true)));
    assert!(matches!(c.apply(Operation::DeregisterSender).0, Outcome::SenderWithdrawn));
    assert_eq!(c.senders_registered(), 1);
    assert!(matches!(c.apply(Operation::TrySend(1)).0, Outcome::Sent(Ok(()))));
    assert!(matches!(
        c.apply(Operation::PollSend(2, waker.clone())).0,
        Outcome::SendPolled(SendPoll::Pending(2))
    ));
    assert!(matches!(c.apply(Operation::TryRecv).0, Outcome::Received(Ok(1))));
    assert!(matches!(
        c.apply(Operation::PollSend(2, waker.clone())).0,
        Outcome::SendPolled(SendPoll::Ready(Ok(())))
    ));
    assert!(matches!(
        c.apply(Operation::PollRecv(waker.clone())).0,
        Outcome::RecvPolled(Poll::Ready(Some(2)))
    ));
    assert!(matches!(
        c.apply(Operation::PollClosed(waker.clone())).0,
        Outcome::ClosedPolled(Poll::Pending)
    ));
    assert!(matches!(c.apply(Operation::DeregisterSender).0, Outcome::SenderWithdrawn));
    assert!(matches!(c.apply(Operation::IsClosed).0, Outcome::Closed(true)));
    // Nobody is left to withdraw: nothing changes.
    assert!(matches!(c.apply(Operation::DeregisterSender).0, Outcome::SenderWithdrawn));
    assert_eq!(c.senders_registered(), 0);
    assert!(matches!(c.apply(Operation::Close).0, Outcome::CloseRequested));
    assert!(matches!(
        c.apply(Operation::PollRecv(waker.clone())).0,
        Outcome::RecvPolled(Poll::Ready(None))
    ));
    assert!(matches!(c.apply(Operation::DeregisterReceiver).0, Outcome::ReceiverWithdrawn));
    assert!(matches!(c.apply(Operation::TrySend(3)).0, Outcome::Sent(Err(_))));
    assert!(matches!(
        c.apply(Operation::PollClosed(waker)).0,
        Outcome::ClosedPolled(Poll::Ready(()))
    ));
}

#[test]
fn outcomes_unwrap_to_their_answers() {
    assert_eq!(Outcome::<u8>::Closed(true).closed(), true);
    assert_eq!(Outcome::<u8>::Registered(false).registered(), false);
    assert_eq!(Outcome::<u8>::Split(true).split(), true);
    assert_eq!(Outcome::<u8>::Received(Ok(3)).received(), Ok(3));
    assert!(Outcome::<u8>::Sent(Ok(())).sent().is_ok());
    assert_eq!(Outcome::<u8>::RecvPolled(Poll::Ready(Some(4))).recv_polled(), Poll::Ready(Some(4)));
    assert!(matches!(
        Outcome::<u8>::SendPolled(SendPoll::Pending(5)).send_polled(),
        SendPoll::Pending(5)
    ));
    assert_eq!(Outcome::<u8>::ClosedPolled(Poll::Pending).closed_polled(), Poll::Pending);
    Outcome::<u8>::CloseRequested.close_requested();
    Outcome::<u8>::ReceiverWithdrawn.receiver_withdrawn();
    Outcome::<u8>::SenderWithdrawn.sender_withdrawn();
}

use futures::executor::{block_on, LocalPool};
use futures::task::LocalSpawnExt;
use futures::Future;
use mpsc::{split, Channel, Receiver, SendError, Sender, WithCriticalSections};
use std::pin::Pin;
use std::sync::atomic::{AtomicUsize, Ordering};
use std::sync::Arc;
use std::task::{Context, Poll, Wake, Waker};

type S<const N: usize> = Sender<'static, WithCriticalSections<u32, N>, u32, N>;
type R<const N: usize> = Receiver<'static, WithCriticalSections<u32, N>, u32, N>;

fn channel<const N: usize>() -> (S<N>, R<N>) {
    let channel = Box::leak(Box::new(Channel::<_, u32, N>::with_critical_sections()));
    split(channel).unwrap()
}

struct Count(AtomicUsize);

impl Wake for Count {
    fn wake(self: Arc<Self>) {
        self.0.fetch_add(1, Ordering::SeqCst);
    }
}

fn counter() -> (Arc<Count>, Waker) {
    let count = Arc::new(Count(AtomicUsize::new(0)));
    (count.clone(), Waker::from(count))
}

fn woken(count: &Arc<Count>) -> usize {
    count.0.load(Ordering::SeqCst)
}

fn poll_once<F: Future + Unpin>(future: &mut F, waker: &Waker) -> Poll<F::Output> {
    Pin::new(future).poll(&mut Context::from_waker(waker))
}

#[test]
fn receiver_closes_when_sender_dropped_async() {
    let mut pool = LocalPool::new();
    let (s, mut r) = channel::<3>();
    assert!(pool
        .spawner()
        .spawn_local(async move {
            s.release();
        })
        .is_ok());
    assert_eq!(pool.run_until(r.recv()), None);
}

#[test]
fn receiver_receives_given_try_send_async() {
    let mut pool = LocalPool::new();
    let (s, mut r) = channel::<3>();
    assert!(pool
        .spawner()
        .spawn_local(async move {
            let _ = s.try_send(1);
        })
        .is_ok());
    assert_eq!(pool.run_until(r.recv()), Some(1));
}

#[test]
fn sender_send_completes_if_capacity() {
    block_on(async {
        let (s, mut r) = channel::<1>();
        assert!(s.send(1).await.is_ok());
        assert_eq!(r.recv().await, Some(1));
    })
}

#[test]
fn sender_send_completes_if_closed() {
    block_on(async {
        let (s, r) = channel::<1>();
        r.release();
        match s.send(1).await {
            Err(SendError(1)) => assert!(true),
            _ => assert!(false),
        }
    })
}

#[test]
fn senders_sends_wait_until_capacity() {
    let mut pool = LocalPool::new();
    let spawner = pool.spawner();
    let (s0, mut r) = channel::<1>();
    assert!(s0.try_send(1).is_ok());
    let s1 = s0.clone();
    let (s0, s1) = (Box::leak(Box::new(s0)), Box::leak(Box::new(s1)));
    let mut send_1 = s0.send(2);
    let mut send_2 = s1.send(3);
    // Both sends find the buffer full and wait.
    let (_, waker) = counter();
    assert!(poll_once(&mut send_1, &waker).is_pending());
    assert!(poll_once(&mut send_2, &waker).is_pending());
    let send_task_1 = spawner.spawn_local_with_handle(send_1);
    let send_task_2 = spawner.spawn_local_with_handle(send_2);
    assert_eq!(pool.run_until(r.recv()), Some(1));
    assert!(pool.run_until(r.recv()).is_some());
    assert!(pool.run_until(r.recv()).is_some());
    assert!(pool.run_until(send_task_1.unwrap()).is_ok());
    assert!(pool.run_until(send_task_2.unwrap()).is_ok());
}

#[test]
fn sender_close_completes_if_closing() {
    block_on(async {
        let (s, mut r) = channel::<1>();
        r.close();
        s.closed().await;
    })
}

#[test]
fn sender_close_completes_if_closed() {
    block_on(async {
        let (s, r) = channel::<1>();
        r.release();
        s.closed().await;
    })
}

#[test]
fn recv_waits_on_an_open_empty_channel() {
    let (s, mut r) = channel::<3>();
    for message in [1, 2, 3] {
        assert!(s.try_send(message).is_ok());
    }
    assert!(s.try_send(4).is_err());
    let (count, waker) = counter();
    assert_eq!(poll_once(&mut r, &waker), Poll::Ready(Some(1)));
    assert!(s.try_send(4).is_ok());
    assert_eq!(poll_once(&mut r, &waker), Poll::Ready(Some(2)));
    assert_eq!(poll_once(&mut r, &waker), Poll::Ready(Some(3)));
    assert_eq!(poll_once(&mut r, &waker), Poll::Ready(Some(4)));
    assert_eq!(poll_once(&mut r, &waker), Poll::Pending);
    assert_eq!(woken(&count), 0);
    // A message wakes the parked receiver.
    assert!(s.try_send(5).is_ok());
    assert_eq!(woken(&count), 1);
    assert_eq!(poll_once(&mut r, &waker), Poll::Ready(Some(5)));
}

#[test]
fn recv_ends_when_the_only_sender_is_released() {
    let (s, mut r) = channel::<1>();
    let (count, waker) = counter();
    assert_eq!(poll_once(&mut r, &waker), Poll::Pending);
    s.release();
    assert_eq!(woken(&count), 1);
    assert_eq!(poll_once(&mut r, &waker), Poll::Ready(None));
    assert_eq!(poll_once(&mut r, &waker), Poll::Ready(None));
}

#[test]
fn a_waiting_send_completes_once_a_message_is_received() {
    let (s, r) = channel::<1>();
    assert!(s.try_send(1).is_ok());
    let (count, waker) = counter();
    let mut second = s.send(2);
    assert_eq!(poll_once(&mut second, &waker).is_pending(), true);
    assert_eq!(woken(&count), 0);
    assert_eq!(r.try_recv(), Ok(1));
    assert_eq!(woken(&count), 1);
    match poll_once(&mut second, &waker) {
        Poll::Ready(Ok(())) => {}
        _ => assert!(false),
    }
    assert_eq!(r.try_recv(), Ok(2));
}

#[test]
fn a_waiting_send_fails_once_the_receiver_is_released() {
    let (s, r) = channel::<1>();
    assert!(s.try_send(1).is_ok());
    let (count, waker) = counter();
    let mut second = s.send(2);
    assert!(poll_once(&mut second, &waker).is_pending());
    r.release();
    assert_eq!(woken(&count), 1);
    match poll_once(&mut second, &waker) {
        Poll::Ready(Err(SendError(2))) => {}
        _ => assert!(false),
    }
}

#[test]
fn a_finished_send_stays_quiet() {
    let (s, r) = channel::<1>();
    let (count, waker) = counter();
    let mut send = s.send(1);
    match poll_once(&mut send, &waker) {
        Poll::Ready(Ok(())) => {}
        _ => assert!(false),
    }
    assert!(poll_once(&mut send, &waker).is_pending());
    assert_eq!(r.try_recv(), Ok(1));
    assert_eq!(r.try_recv().is_err(), true);
    assert_eq!(woken(&count), 0);
}

#[test]
fn a_second_waiting_sender_wakes_the_first() {
    let (s0, r) = channel::<1>();
    let s1 = s0.clone();
    assert!(s0.try_send(1).is_ok());
    let (first_count, first_waker) = counter();
    let (second_count, second_waker) = counter();
    let mut first = s0.send(2);
    let mut second = s1.send(3);
    assert!(poll_once(&mut first, &first_waker).is_pending());
    assert_eq!(woken(&first_count), 0);
    // The second sender takes the slot; the first is told to poll again.
    assert!(poll_once(&mut second, &second_waker).is_pending());
    assert_eq!(woken(&first_count), 1);
    assert_eq!(woken(&second_count), 0);
    // The same task parking again does not wake itself.
    assert!(poll_once(&mut second, &second_waker).is_pending());
    assert_eq!(woken(&second_count), 0);
    assert_eq!(r.try_recv(), Ok(1));
    assert_eq!(woken(&second_count), 1);
    assert_eq!(woken(&first_count), 1);
}

#[test]
fn closed_waits_until_the_channel_closes() {
    let (s, mut r) = channel::<2>();
    let (count, waker) = counter();
    let mut closed = s.closed();
    assert!(poll_once(&mut closed, &waker).is_pending());
    assert!(s.try_send(1).is_ok());
    r.close();
    assert!(poll_once(&mut closed, &waker).is_ready());
    let _ = count;
}

#[test]
fn closed_is_woken_when_the_drained_channel_closes() {
    let (s, mut r) = channel::<2>();
    assert!(s.try_send(1).is_ok());
    r.close();
    let (count, waker) = counter();
    // Parked behind a closing channel: ready at once.
    let mut closed = s.closed();
    assert!(poll_once(&mut closed, &waker).is_ready());
    assert_eq!(r.try_recv(), Ok(1));
    assert!(r.try_recv().is_err());
    assert_eq!(woken(&count), 0);
}

#[test]
fn close_wakes_the_parked_receiver() {
    let (s, mut r) = channel::<2>();
    let (count, waker) = counter();
    assert_eq!(poll_once(&mut r, &waker), Poll::Pending);
    r.close();
    assert_eq!(woken(&count), 1);
    assert_eq!(poll_once(&mut r, &waker), Poll::Ready(None));
    assert!(s.is_closed());
}

struct SendsWhenWoken {
    sender: S<2>,
    woken: AtomicUsize,
}

impl Wake for SendsWhenWoken {
    fn wake(self: Arc<Self>) {
        self.woken.fetch_add(1, Ordering::SeqCst);
        // The waker uses the very channel that wakes it.
        let _ = self.sender.try_send(99);
    }
}

#[test]
fn a_waker_may_use_the_channel_that_wakes_it() {
    let (s, mut r) = channel::<2>();
    let task = Arc::new(SendsWhenWoken { sender: s.clone(), woken: AtomicUsize::new(0) });
    let waker = Waker::from(task.clone());
    assert_eq!(poll_once(&mut r, &waker), Poll::Pending);
    // This send wakes the receiver, whose waker sends in turn.
    assert!(s.try_send(1).is_ok());
    assert!(task.woken.load(Ordering::SeqCst) >= 1);
    assert_eq!(r.try_recv(), Ok(1));
    assert_eq!(r.try_recv(), Ok(99));
}

struct ReleasesWhenDropped {
    sender: std::sync::Mutex<Option<S<1>>>,
}

impl Wake for ReleasesWhenDropped {
    fn wake(self: Arc<Self>) {}
}

impl Drop for ReleasesWhenDropped {
    fn drop(&mut self) {
        // Dropping the last waker uses the channel too.
        if let Some(sender) = self.sender.lock().unwrap().take() {
            sender.release();
        }
    }
}

#[test]
fn a_waker_may_use_the_channel_when_it_is_dropped() {
    let (s, mut r) = channel::<1>();
    let task = Arc::new(ReleasesWhenDropped { sender: std::sync::Mutex::new(Some(s.clone())) });
    let waker = Waker::from(task);
    assert_eq!(poll_once(&mut r, &waker), Poll::Pending);
    drop(waker);
    // Parking another waker displaces the first one, which is then dropped.
    let (_, other) = counter();
    assert_eq!(poll_once(&mut r, &other), Poll::Pending);
    // The clone was released by the drop; releasing the last sender closes.
    assert!(!s.is_closed());
    s.release();
    assert_eq!(poll_once(&mut r, &other), Poll::Ready(None));
}

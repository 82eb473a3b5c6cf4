use dot15d4::sync::channel::Channel;
use dot15d4::sync::channel::ChannelState;
use std::cell::Cell;
use std::rc::Rc;
use std::sync::atomic::AtomicUsize;
use std::sync::atomic::Ordering;
use std::sync::Arc;
use std::task::Wake;
use std::task::Waker;

struct CountingWaker {
    wakes: AtomicUsize,
}

impl Wake for CountingWaker {
    fn wake(self: Arc<Self>) {
        self.wakes.fetch_add(1, Ordering::SeqCst);
    }
}

fn counting_waker() -> (Arc<CountingWaker>, Waker) {
    let inner = Arc::new(CountingWaker {
        wakes: AtomicUsize::new(0),
    });
    let waker = Waker::from(inner.clone());
    (inner, waker)
}

#[test]
fn test_channel_no_concurrency() {
    let (_, waker) = counting_waker();
    let mut channel = Channel::new();
    let (mut send, mut recv) = channel.split();
    send.send(1);
    assert_eq!(recv.poll_receive(waker), Some(1));
}

/// The interleaving that a join of a producer (send, then yield) and a
/// consumer (receive in a loop) goes through on a single-threaded executor.
#[test]
fn test_channel_join_concurrency() {
    let (counter, waker) = counting_waker();
    let mut channel = Channel::new();
    let (mut send, mut recv) = channel.split();
    // The consumer starts waiting before the producer has run.
    assert_eq!(recv.poll_receive(waker.clone()), None);
    for i in 0..10 {
        assert!(!send.send(i));
        assert_eq!(recv.poll_receive(waker.clone()), Some(i));
        assert_eq!(recv.poll_receive(waker.clone()), None);
    }
    assert_eq!(counter.wakes.load(Ordering::SeqCst), 10);
}

#[test]
fn send_to_empty_then_receive() {
    let (_, waker) = counting_waker();
    let mut channel = Channel::new();
    let (mut send, mut recv) = channel.split();
    assert!(!send.send(5));
    assert_eq!(recv.poll_receive(waker.clone()), Some(5));
    // Empty afterwards: the next receive waits, and the next send overwrites nothing.
    assert_eq!(recv.poll_receive(waker.clone()), None);
    assert!(!send.send(6));
}

#[test]
fn second_send_overwrites() {
    let (_, waker) = counting_waker();
    let mut channel = Channel::new();
    let (mut send, mut recv) = channel.split();
    assert!(!send.send(1));
    assert!(send.send(2));
    assert_eq!(recv.poll_receive(waker.clone()), Some(2));
    assert_eq!(recv.poll_receive(waker), None);
}

#[test]
fn receive_before_send_waits_and_is_woken() {
    let (counter, waker) = counting_waker();
    let mut channel = Channel::new();
    let (mut send, mut recv) = channel.split();
    assert_eq!(recv.poll_receive(waker.clone()), None);
    assert_eq!(recv.poll_receive(waker.clone()), None);
    assert_eq!(counter.wakes.load(Ordering::SeqCst), 0);
    assert!(!send.send(7));
    assert_eq!(counter.wakes.load(Ordering::SeqCst), 1);
    assert_eq!(recv.poll_receive(waker), Some(7));
}

#[test]
fn last_registration_is_woken() {
    let (first, first_waker) = counting_waker();
    let (second, second_waker) = counting_waker();
    let mut channel = Channel::new();
    let (mut send, mut recv) = channel.split();
    assert_eq!(recv.poll_receive(first_waker), None);
    assert_eq!(recv.poll_receive(second_waker.clone()), None);
    send.send(3);
    assert_eq!(first.wakes.load(Ordering::SeqCst), 0);
    assert_eq!(second.wakes.load(Ordering::SeqCst), 1);
    // The continuation was taken: a second send wakes nobody.
    assert!(send.send(4));
    assert_eq!(second.wakes.load(Ordering::SeqCst), 1);
    assert_eq!(recv.poll_receive(second_waker), Some(4));
}

#[test]
fn only_last_of_many_sends_is_seen() {
    let (_, waker) = counting_waker();
    let mut channel = Channel::new();
    let (mut send, mut recv) = channel.split();
    let mut overwrites = 0;
    for i in 0..20u32 {
        if send.send(i) {
            overwrites += 1;
        }
    }
    assert_eq!(overwrites, 19);
    assert_eq!(recv.poll_receive(waker.clone()), Some(19));
    assert_eq!(recv.poll_receive(waker), None);
}

#[test]
fn split_resets_a_used_channel() {
    let (_, waker) = counting_waker();
    let mut channel = Channel::new();
    {
        let (mut send, _recv) = channel.split();
        send.send(String::from("stale"));
    }
    let (mut send, mut recv) = channel.split();
    assert_eq!(recv.poll_receive(waker.clone()), None);
    assert!(!send.send(String::from("fresh")));
    assert_eq!(recv.poll_receive(waker), Some(String::from("fresh")));
}

struct Counted {
    counts: Rc<Cell<(usize, usize)>>,
}

impl Counted {
    fn new(counts: &Rc<Cell<(usize, usize)>>) -> Counted {
        let (made, dropped) = counts.get();
        counts.set((made + 1, dropped));
        Counted {
            counts: counts.clone(),
        }
    }
}

impl Drop for Counted {
    fn drop(&mut self) {
        let (made, dropped) = self.counts.get();
        self.counts.set((made, dropped + 1));
    }
}

#[test]
fn no_value_is_leaked_or_dropped_twice() {
    let counts = Rc::new(Cell::new((0usize, 0usize)));
    let (_, waker) = counting_waker();
    {
        let mut channel = Channel::new();
        {
            let (mut send, mut recv) = channel.split();
            send.send(Counted::new(&counts));
            send.send(Counted::new(&counts));
            assert_eq!(counts.get(), (2, 1));
            let got = recv.poll_receive(waker.clone());
            assert!(got.is_some());
            drop(got);
            assert_eq!(counts.get(), (2, 2));
            send.send(Counted::new(&counts));
        }
        // Splitting again destroys the unread value.
        let (mut send, _recv) = channel.split();
        assert_eq!(counts.get(), (3, 3));
        send.send(Counted::new(&counts));
    }
    // Dropping the channel destroys the unread value.
    assert_eq!(counts.get(), (4, 4));
}

#[test]
fn state_steps_with_plain_continuations() {
    let mut state: ChannelState<&str, u32> = ChannelState::new();
    assert_eq!(state.poll_receive(1), None);
    assert_eq!(state.poll_receive(2), None);
    assert_eq!(state.send("a"), (false, Some(2)));
    assert_eq!(state.send("b"), (true, None));
    assert_eq!(state.poll_receive(3), Some("b"));
    assert_eq!(state.poll_receive(4), None);
    assert_eq!(state.send("c"), (false, Some(4)));
}

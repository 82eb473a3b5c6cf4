//! A single-slot signalling channel, after the oneshot channel in Mara Bos'
//! book, adapted so that sending never blocks and simply overwrites a message
//! that was not read yet ("latest value wins").
//!
//! The decisions live in [`ChannelState`], a plain value whose every step has
//! an exact contract. [`Channel`] owns one such state; [`Channel::split`] hands
//! out a [`Sender`] and a [`Receiver`] that share it through a `Cell`. This is
//! sound because the two handles live in one thread of a cooperative scheduler
//! and every step runs to completion without suspending.
use core::cell::Cell;
use core::task::Waker;
use vstd::prelude::*;

verus! {

#[verifier::external_type_specification]
#[verifier::external_body]
#[verifier::reject_recursive_types(T)]
pub struct ExCell<T: ?Sized>(Cell<T>);

#[verifier::external_type_specification]
#[verifier::external_body]
pub struct ExWaker(Waker);

/// Relies on `Cell::from_mut`: shares a uniquely borrowed value through a
/// cell. What the cell holds is not tracked, so nothing is promised of the
/// value once the borrow ends.
pub assume_specification<T: ?Sized>[ Cell::<T>::from_mut ](t: &mut T) -> &Cell<T>;

/// Relies on `Cell::replace`: stores `val` and hands back what the cell held.
/// Verus sees a cell as an identity, not as its contents, so the value handed
/// back is unconstrained.
pub assume_specification<T>[ Cell::<T>::replace ](cell: &Cell<T>, val: T) -> T;

/// Relies on `Waker::wake`: asks the scheduler to poll the task again.
pub assume_specification[ Waker::wake ](waker: Waker);

/// What a channel's state holds, as a mathematical value: the unread message,
/// if the slot holds one, and the continuation registered by a waiting
/// consumer, if any.
pub struct ChannelModel<T, W> {
    pub message: Option<T>,
    pub waiter: Option<W>,
}

impl<T, W> ChannelModel<T, W> {
    /// The slot holds an unread message.
    pub open spec fn is_ready(self) -> bool {
        self.message is Some
    }

    /// No message and no waiting consumer.
    pub open spec fn is_empty(self) -> bool {
        &&& self.message is None
        &&& self.waiter is None
    }

    /// A message and a registered continuation never stand side by side: once
    /// a message is installed, the waiting consumer is woken.
    pub open spec fn wf(self) -> bool {
        !(self.message is Some && self.waiter is Some)
    }

    /// The state after a send of `m`: the slot holds `m` and the continuation,
    /// if any, was taken to be woken.
    pub open spec fn sent(self, m: T) -> Self {
        ChannelModel { message: Some(m), waiter: None }
    }

    /// The state after a receive was polled with continuation `w`, and what it
    /// resolved to: the message if there was one (the slot is emptied),
    /// otherwise nothing, with `w` registered in place of any earlier one.
    pub open spec fn polled(self, w: W) -> (Self, Option<T>) {
        match self.message {
            Some(m) => (ChannelModel { message: None, waiter: self.waiter }, Some(m)),
            None => (ChannelModel { message: None, waiter: Some(w) }, None),
        }
    }

    /// The state after sending each message of `ms` in turn.
    pub open spec fn sent_all(self, ms: Seq<T>) -> Self
        decreases ms.len(),
    {
        if ms.len() == 0 {
            self
        } else {
            self.sent_all(ms.drop_last()).sent(ms.last())
        }
    }
}

/// The shared state of one channel: the message slot and the continuation of a
/// consumer that waits for it. `W` is the continuation type; a channel between
/// tasks uses [`Waker`].
pub struct ChannelState<T, W> {
    message: Option<T>,
    waker: Option<W>,
}

impl<T, W> View for ChannelState<T, W> {
    type V = ChannelModel<T, W>;

    closed spec fn view(&self) -> ChannelModel<T, W> {
        ChannelModel { message: self.message, waiter: self.waker }
    }
}

impl<T, W> ChannelState<T, W> {
    /// A state with no message and no waiting consumer.
    pub fn new() -> (r: Self)
        ensures
            r@.is_empty(),
    {
        ChannelState { message: None, waker: None }
    }

    /// Installs `message`, destroying an unread one. Returns whether an unread
    /// message was overwritten, and the continuation to wake, if one was
    /// registered.
    pub fn send(&mut self, message: T) -> (r: (bool, Option<W>))
        ensures
            final(self)@ == old(self)@.sent(message),
            r.0 == old(self)@.is_ready(),
            r.1 == old(self)@.waiter,
    {
        let replaced = self.message.is_some();
        self.message = Some(message);
        let waker = self.waker.take();
        (replaced, waker)
    }

    /// One poll of a receive with continuation `waker`: takes the message out
    /// of the slot if there is one, otherwise registers `waker` (replacing an
    /// earlier registration) and resolves to nothing.
    pub fn poll_receive(&mut self, waker: W) -> (r: Option<T>)
        ensures
            (final(self)@, r) == old(self)@.polled(waker),
    {
        match self.message.take() {
            Some(m) => Some(m),
            None => {
                self.waker = Some(waker);
                None
            },
        }
    }
}

/// A single-slot channel. It owns its state; [`Channel::split`] lends it to one
/// [`Sender`] and one [`Receiver`]. Dropping the channel drops an unread
/// message with it.
pub struct Channel<T> {
    state: ChannelState<T, Waker>,
}

impl<T> View for Channel<T> {
    type V = ChannelModel<T, Waker>;

    closed spec fn view(&self) -> ChannelModel<T, Waker> {
        self.state@
    }
}

impl<T> Channel<T> {
    /// An empty channel.
    pub fn new() -> (r: Self)
        ensures
            r@.is_empty(),
    {
        Channel { state: ChannelState::new() }
    }

    /// Empties the channel, destroying an unread message and a stale
    /// registration.
    fn reset(&mut self)
        ensures
            final(self)@.is_empty(),
    {
        self.state = ChannelState::new();
    }

    /// Resets the channel to empty and lends it to a sender and a receiver for
    /// as long as both live. Resetting lets a channel that was used before be
    /// used again without draining it first.
    pub fn split(&mut self) -> (Sender<'_, T>, Receiver<'_, T>) {
        self.reset();
        let shared: &Cell<ChannelState<T, Waker>> = Cell::from_mut(&mut self.state);
        (Sender { state: shared }, Receiver { state: shared })
    }
}

/// The producing side of a channel.
#[verifier::reject_recursive_types(T)]
pub struct Sender<'a, T> {
    state: &'a Cell<ChannelState<T, Waker>>,
}

impl<T> Sender<'_, T> {
    /// Sends a message across the channel. Sending several messages before the
    /// receiver reads them overwrites the earlier ones: only the last is read.
    /// Returns whether an unread message was overwritten. A receiver that waits
    /// is woken.
    ///
    /// The state lives in a `Cell`, so what the step decides is stated by
    /// [`ChannelState::send`], which this runs on the shared state.
    pub fn send(&mut self, message: T) -> bool {
        let mut state = self.state.replace(ChannelState::new());
        let (replaced, waker) = state.send(message);
        self.state.replace(state);
        if let Some(w) = waker {
            w.wake();
        }
        replaced
    }
}

/// The consuming side of a channel.
#[verifier::reject_recursive_types(T)]
pub struct Receiver<'a, T> {
    state: &'a Cell<ChannelState<T, Waker>>,
}

impl<T> Receiver<'_, T> {
    /// One poll of a receive: takes the message if there is one, otherwise
    /// registers `waker`, to be woken by the next send, and resolves to
    /// nothing. Awaiting a message is polling this until it resolves.
    ///
    /// The state lives in a `Cell`, so what the step decides is stated by
    /// [`ChannelState::poll_receive`], which this runs on the shared state.
    pub fn poll_receive(&mut self, waker: Waker) -> Option<T> {
        let mut state = self.state.replace(ChannelState::new());
        let message = state.poll_receive(waker);
        self.state.replace(state);
        message
    }
}

/// Whatever was sent before, after a non-empty run of sends the slot holds the
/// last message of the run, and the next receive resolves to it: earlier
/// messages of the run are never observed.
pub proof fn lemma_last_send_wins<T, W>(s: ChannelModel<T, W>, ms: Seq<T>, w: W)
    requires
        ms.len() >= 1,
    ensures
        s.sent_all(ms).message == Some(ms.last()),
        s.sent_all(ms).polled(w).1 == Some(ms.last()),
{
    reveal_with_fuel(ChannelModel::sent_all, 1);
}

/// A receive polled while no message is in the slot does not resolve and
/// leaves the slot empty, so every further poll before a send waits as well;
/// the continuation of the latest poll is the one registered.
pub proof fn lemma_pending_until_send<T, W>(s: ChannelModel<T, W>, w1: W, w2: W)
    requires
        !s.is_ready(),
    ensures
        s.polled(w1).1 is None,
        !s.polled(w1).0.is_ready(),
        s.polled(w1).0.polled(w2).1 is None,
        s.polled(w1).0.polled(w2).0.waiter == Some(w2),
{
}

/// A receive that resolves leaves no message behind, so a further receive
/// without a send in between waits again; in a well-formed state the channel
/// is then empty.
pub proof fn lemma_receive_empties<T, W>(s: ChannelModel<T, W>, w1: W, w2: W)
    requires
        s.is_ready(),
    ensures
        s.polled(w1).1 == s.message,
        !s.polled(w1).0.is_ready(),
        s.wf() ==> s.polled(w1).0.is_empty(),
        s.polled(w1).0.polled(w2).1 is None,
{
}

/// No step puts a message beside a registered continuation.
pub proof fn lemma_steps_keep_wf<T, W>(s: ChannelModel<T, W>, m: T, w: W)
    requires
        s.wf(),
    ensures
        s.sent(m).wf(),
        s.polled(w).0.wf(),
{
}

} // verus!

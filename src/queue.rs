//! The work-stealing queue and its deques: a producer pushes values and
//! signals every deque; each deque steals from the shared queue when its
//! signal channel wakes it.
use vstd::prelude::*;

use crossbeam::deque::{Steal, Stealer, Worker};

use crate::reactor::{Reaction, Reactor};
use crate::errors::Error;
use crate::signal::{SignalReceiver, SignalSender};
use crate::sources::{source_step, source_next, SourceStep};
use crate::sync::{capacity_fits, channel_capacity_fits, steal_reaction, Capacity, Stolen};

verus! {

#[verifier::external_type_specification]
#[verifier::external_body]
#[verifier::reject_recursive_types(T)]
pub struct ExWorker<T>(Worker<T>);

#[verifier::external_type_specification]
#[verifier::external_body]
#[verifier::reject_recursive_types(T)]
pub struct ExStealer<T>(Stealer<T>);

/// Relies on `crossbeam_deque::Worker::new_lifo`: an empty queue whose
/// owner pops the newest value first.
#[verifier::external_body]
fn new_lifo_worker<T>() -> Worker<T> {
    Worker::new_lifo()
}

/// Relies on `crossbeam_deque::Worker::push`: adds `v` to the queue.
#[verifier::external_body]
fn worker_push<T>(w: &Worker<T>, v: T) {
    w.push(v)
}

/// Relies on `crossbeam_deque::Worker::stealer`: a handle that steals from
/// this queue.
#[verifier::external_body]
fn worker_stealer<T>(w: &Worker<T>) -> Stealer<T> {
    w.stealer()
}

/// Relies on `Clone for crossbeam_deque::Stealer`: another handle on the
/// same queue.
pub assume_specification<T>[ <Stealer<T> as Clone>::clone ](s: &Stealer<T>) -> Stealer<T>;

/// Relies on `crossbeam_deque::Stealer::steal`: a value, `Empty`, or
/// `Retry` when the attempt met contention.
#[verifier::external_body]
fn stealer_steal<T>(s: &Stealer<T>) -> Stolen<T> {
    match s.steal() {
        Steal::Success(v) => Stolen::Success(v),
        Steal::Empty => Stolen::Empty,
        Steal::Retry => Stolen::Retry,
    }
}

/// Sends one wake-up to each of `publishers`, in order; a deque that is gone
/// does not keep the others from being woken. Returns the outcome of each
/// send, one per deque, in the same order.
pub fn notify_all(publishers: &Vec<SignalSender<()>>) -> (sent: Vec<Result<(), Error>>)
    ensures
        sent@.len() == publishers@.len(),
        forall|i: int|
            0 <= i < sent@.len() ==> (#[trigger] sent@[i] is Err ==> sent@[i] == Err::<(), Error>(
                Error::ChannelDisconnected,
            )),
{
    let mut sent: Vec<Result<(), Error>> = Vec::new();
    let mut i: usize = 0;
    while i < publishers.len()
        invariant
            i <= publishers@.len(),
            sent@.len() == i,
            forall|k: int|
                0 <= k < sent@.len() ==> (#[trigger] sent@[k] is Err ==> sent@[k] == Err::<
                    (),
                    Error,
                >(Error::ChannelDisconnected)),
        decreases publishers@.len() - i,
    {
        let woken = publishers[i].send(());
        sent.push(woken);
        i = i + 1;
    }
    sent
}

/// A work-stealing queue that wakes each of its deques on every push.
#[verifier::reject_recursive_types(T)]
pub struct Queue<T> {
    worker: Worker<T>,
    inner_stealer: Stealer<T>,
    publishers: Vec<SignalSender<()>>,
    capacity: Capacity,
    pushed: Ghost<Seq<T>>,
}

impl<T> Queue<T> {
    /// Every value pushed so far, in order.
    pub closed spec fn pushed(&self) -> Seq<T> {
        self.pushed@
    }

    /// The number of deques made so far.
    pub closed spec fn deque_count(&self) -> nat {
        self.publishers@.len()
    }

    /// The capacity class of the deques' signal channels.
    pub closed spec fn spec_capacity(&self) -> Capacity {
        self.capacity
    }

    fn new_with_capacity(capacity: Capacity) -> (r: Self)
        requires
            capacity_fits::<()>(capacity),
        ensures
            r.deque_count() == 0,
            r.spec_capacity() == capacity,
            r.pushed() == Seq::<T>::empty(),
    {
        let worker = new_lifo_worker();
        let inner_stealer = worker_stealer(&worker);
        Queue { worker, inner_stealer, publishers: Vec::new(), capacity, pushed: Ghost(Seq::empty()) }
    }

    /// A queue whose deques' signal channels have no bound.
    pub fn unbounded() -> (r: Self)
        ensures
            r.deque_count() == 0,
            r.spec_capacity() == Capacity::Unbounded,
            r.pushed() == Seq::<T>::empty(),
    {
        Self::new_with_capacity(Capacity::Unbounded)
    }

    /// A queue whose deques' signal channels hold `cap` wake-ups: a push
    /// waits while a deque has `cap` of them unconsumed.
    pub fn bounded(cap: usize) -> (r: Self)
        requires
            channel_capacity_fits::<()>(cap),
        ensures
            r.deque_count() == 0,
            r.spec_capacity() == Capacity::Bounded(cap),
            r.pushed() == Seq::<T>::empty(),
    {
        Self::new_with_capacity(Capacity::Bounded(cap))
    }

    /// Pushes `val` and signals every deque; returns the outcome of each
    /// signal, one per deque.
    pub fn push(&mut self, val: T) -> (signalled: Vec<Result<(), Error>>)
        ensures
            final(self).pushed() == old(self).pushed().push(val),
            signalled@.len() == old(self).deque_count(),
            final(self).deque_count() == old(self).deque_count(),
            final(self).spec_capacity() == old(self).spec_capacity(),
    {
        let ghost v = val;
        worker_push(&self.worker, val);
        self.pushed = Ghost(self.pushed@.push(v));
        notify_all(&self.publishers)
    }

    /// A new deque on this queue, signalled by every later push.
    pub fn deque(&mut self) -> (r: Dequeue<T>)
        requires
            capacity_fits::<()>(old(self).spec_capacity()),
        ensures
            final(self).deque_count() == old(self).deque_count() + 1,
            final(self).spec_capacity() == old(self).spec_capacity(),
            final(self).pushed() == old(self).pushed(),
            r.spec_capacity() == old(self).spec_capacity(),
    {
        let stealer = self.inner_stealer.clone();
        let subscriber = match self.capacity {
            Capacity::Unbounded => Dequeue::unbounded(stealer),
            Capacity::Bounded(cap) => Dequeue::bounded(stealer, cap),
        };
        self.publishers.push(subscriber.sender());
        subscriber
    }
}

/// The consuming end of a work-stealing queue: a stealer, and the signal
/// channel on which pushes wake it.
#[verifier::reject_recursive_types(T)]
pub struct Dequeue<T> {
    signal: SignalReceiver<()>,
    stealer: Stealer<T>,
}

impl<T> Dequeue<T> {
    /// The capacity class of the signal channel.
    pub closed spec fn spec_capacity(&self) -> Capacity {
        self.signal.spec_capacity()
    }

    /// The signal channel.
    pub closed spec fn spec_signal(&self) -> SignalReceiver<()> {
        self.signal
    }

    /// A deque whose signal channel holds at most `capacity` wake-ups.
    pub fn bounded(stealer: Stealer<T>, capacity: usize) -> (r: Self)
        requires
            channel_capacity_fits::<()>(capacity),
        ensures
            r.spec_capacity() == Capacity::Bounded(capacity),
    {
        Dequeue { signal: SignalReceiver::bounded(capacity), stealer }
    }

    /// A deque whose signal channel has no bound.
    pub fn unbounded(stealer: Stealer<T>) -> (r: Self)
        ensures
            r.spec_capacity() == Capacity::Unbounded,
    {
        Dequeue { signal: SignalReceiver::unbounded(), stealer }
    }

    /// The sender that wakes this deque.
    pub fn sender(&self) -> (r: SignalSender<()>)
        ensures
            r.spec_channel() == self.spec_signal().spec_channel(),
    {
        self.signal.sender()
    }

    /// The signal channel whose registration the engine polls.
    pub fn signal(&self) -> (r: &SignalReceiver<()>)
        ensures
            *r == self.spec_signal(),
    {
        &self.signal
    }

    /// Consumes one wake-up, if any, and attempts one steal.
    pub fn steal(&self) -> (r: Stolen<T>) {
        let _woken = self.signal.try_recv();
        stealer_steal(&self.stealer)
    }
}

/// A work-stealing queue as the end of a chain: each value it receives is
/// pushed.
#[verifier::reject_recursive_types(T)]
pub struct ReactiveQueue<T> {
    inner: Queue<T>,
}

impl<T> ReactiveQueue<T> {
    /// The number of deques made so far.
    pub closed spec fn deque_count(&self) -> nat {
        self.inner.deque_count()
    }

    /// Every value pushed so far, in order.
    pub closed spec fn pushed(&self) -> Seq<T> {
        self.inner.pushed()
    }

    /// The deques' signal channels can be laid out.
    pub closed spec fn wf(&self) -> bool {
        capacity_fits::<()>(self.inner.spec_capacity())
    }

    /// An unbounded reactive queue.
    pub fn unbounded() -> (r: Self)
        ensures
            r.wf(),
            r.deque_count() == 0,
            r.pushed() == Seq::<T>::empty(),
    {
        ReactiveQueue { inner: Queue::unbounded() }
    }

    /// A reactive queue whose deques accept at most `capacity` unconsumed
    /// wake-ups; with 0 each push waits until a deque takes its wake-up.
    pub fn bounded(capacity: usize) -> (r: Self)
        requires
            channel_capacity_fits::<()>(capacity),
        ensures
            r.wf(),
            r.deque_count() == 0,
            r.pushed() == Seq::<T>::empty(),
    {
        ReactiveQueue { inner: Queue::bounded(capacity) }
    }

    /// Pushes `val` onto the queue and signals every deque.
    pub fn push(&mut self, val: T)
        ensures
            final(self).wf() == old(self).wf(),
            final(self).pushed() == old(self).pushed().push(val),
            final(self).deque_count() == old(self).deque_count(),
    {
        let _signalled = self.inner.push(val);
    }

    /// A new deque on this queue, to be made reactive on the thread that
    /// consumes it.
    pub fn deque(&mut self) -> (r: Dequeue<T>)
        requires
            old(self).wf(),
        ensures
            final(self).wf(),
            final(self).deque_count() == old(self).deque_count() + 1,
            final(self).pushed() == old(self).pushed(),
    {
        self.inner.deque()
    }
}

impl<T> Reactor for ReactiveQueue<T> {
    /// The answers `react` gives, and the state it leaves.
    open spec fn reacts(
        &self,
        input: Reaction<Self::Input>,
        next: Self,
        output: Reaction<Self::Output>,
    ) -> bool {
        &&& next.wf() == self.wf()
        &&& next.deque_count() == self.deque_count()
        &&& match input {
            Reaction::Value(v) => {
                &&& output == Reaction::<()>::Value(())
                &&& next.pushed() == self.pushed().push(v)
            },
            _ => output is Continue && next == *self,
        }
    }

    type Output = ();

    type Input = T;

    /// Pushes each value and answers `Value(())`; answers anything else
    /// `Continue`.
    fn react(&mut self, reaction: Reaction<Self::Input>) -> (r: Reaction<Self::Output>) {
        match reaction {
            Reaction::Value(value) => {
                self.push(value);
                Reaction::Value(())
            },
            _ => Reaction::Continue,
        }
    }
}

/// A deque as a source: its own readiness event, or a `Continue` after a
/// value, makes it steal until it gets a value or finds the queue empty.
/// `handle` keeps the registration of its signal channel, under `token`,
/// alive.
#[verifier::reject_recursive_types(T)]
pub struct ReactiveDeque<T, H> {
    inner: Dequeue<T>,
    handle: H,
    token: usize,
}

impl<T, H> ReactiveDeque<T, H> {
    /// The token of the registration.
    pub closed spec fn spec_token(&self) -> usize {
        self.token
    }

    /// Makes `deq` reactive; the registration of its signal channel is held
    /// by `handle` under `token`.
    pub fn with_handle(deq: Dequeue<T>, handle: H, token: usize) -> (r: Self)
        ensures
            r.spec_token() == token,
    {
        ReactiveDeque { inner: deq, handle, token }
    }

    /// The token of the registration.
    pub fn token(&self) -> (r: usize)
        ensures
            r == self.spec_token(),
    {
        self.token
    }

    /// The deque.
    pub fn deque(&self) -> &Dequeue<T> {
        &self.inner
    }

    /// The registration guard.
    pub fn handle(&self) -> &H {
        &self.handle
    }

    /// Steals until a value comes or the queue is empty; contention is
    /// retried on the spot, at most `usize::MAX` times.
    fn steal(&self) -> (r: Reaction<T>)
        ensures
            r is Value || r is Continue,
    {
        let mut attempts: usize = 0;
        loop
            invariant
                attempts <= usize::MAX,
            decreases usize::MAX - attempts,
        {
            match steal_reaction(self.inner.steal()) {
                Some(r) => {
                    return r;
                },
                None => {
                    if attempts == usize::MAX {
                        return Reaction::Continue;
                    }
                    attempts = attempts + 1;
                },
            }
        }
    }
}

impl<T, H> Reactor for ReactiveDeque<T, H> {
    /// The answers `react` gives, and the state it leaves.
    open spec fn reacts(
        &self,
        input: Reaction<Self::Input>,
        next: Self,
        output: Reaction<Self::Output>,
    ) -> bool {
        &&& next.spec_token() == self.spec_token()
        &&& match source_next(self.spec_token(), input) {
            SourceStep::Pull => output is Value || output is Continue,
            SourceStep::Pass(e) => output == Reaction::<T>::Event(e),
            SourceStep::Idle => output is Continue,
        }
    }

    type Output = T;

    type Input = ();

    /// On its own event or on `Continue`, answers with a stolen value, or
    /// `Continue` when the queue is empty; passes other events on; answers
    /// a value with `Continue`.
    fn react(&mut self, reaction: Reaction<Self::Input>) -> (r: Reaction<Self::Output>) {
        match source_step(self.token, &reaction) {
            SourceStep::Pull => self.steal(),
            SourceStep::Pass(e) => Reaction::Event(e),
            SourceStep::Idle => Reaction::Continue,
        }
    }
}

} // verus!

//! Fan-out: every published value goes, cloned, to every subscriber.
use vstd::prelude::*;

use std::sync::Arc;

use parking_lot::RwLock;

use crate::errors::Error;
use crate::reactor::{Reaction, Reactor};
use crate::signal::{SignalReceiver, SignalSender};
use crate::sync::{capacity_fits, channel_capacity_fits, Capacity};

verus! {

/// The subscribers' senders, shared by every clone of a broadcaster and
/// guarded by a `parking_lot::RwLock`.
#[verifier::external_body]
#[verifier::reject_recursive_types(T)]
pub struct Subscribers<T> {
    list: Arc<RwLock<Vec<SignalSender<T>>>>,
}

/// Relies on `parking_lot::RwLock::new`: a lock around an empty list.
#[verifier::external_body]
fn new_subscribers<T>() -> Subscribers<T> {
    Subscribers { list: Arc::new(RwLock::new(Vec::new())) }
}

/// Relies on `parking_lot::RwLock::write`: appends `tx` under the write
/// lock, and returns the length of the list it saw after the push.
#[verifier::external_body]
fn add_subscriber<T>(s: &Subscribers<T>, tx: SignalSender<T>) -> (n: usize)
    ensures
        n >= 1,
{
    let mut list = s.list.write();
    list.push(tx);
    list.len()
}

/// Relies on `parking_lot::RwLock::read`: a copy of the list, taken under
/// the read lock.
#[verifier::external_body]
fn snapshot<T: Clone>(s: &Subscribers<T>) -> Vec<SignalSender<T>> {
    s.list.read().clone()
}

/// Relies on `Clone for Arc`: another handle on the same list.
#[verifier::external_body]
fn share<T>(s: &Subscribers<T>) -> Subscribers<T> {
    Subscribers { list: Arc::clone(&s.list) }
}

/// Sends a clone of `val` to each of `subs`, in order; a failed send does not
/// stop the others. Returns the outcome of each send, one per subscriber, in
/// the same order.
pub fn fan_out<T: Clone>(subs: &Vec<SignalSender<T>>, val: &T) -> (sent: Vec<Result<(), Error>>)
    ensures
        sent@.len() == subs@.len(),
        forall|i: int|
            0 <= i < sent@.len() ==> (#[trigger] sent@[i] is Err ==> sent@[i] == Err::<(), Error>(
                Error::ChannelDisconnected,
            )),
{
    let mut sent: Vec<Result<(), Error>> = Vec::new();
    let mut i: usize = 0;
    while i < subs.len()
        invariant
            i <= subs@.len(),
            sent@.len() == i,
            forall|k: int|
                0 <= k < sent@.len() ==> (#[trigger] sent@[k] is Err ==> sent@[k] == Err::<
                    (),
                    Error,
                >(Error::ChannelDisconnected)),
        decreases subs@.len() - i,
    {
        let delivered = subs[i].send(val.clone());
        sent.push(delivered);
        i = i + 1;
    }
    sent
}

/// Broadcasts values to all subscribers; the values are cloned, one per
/// subscriber. Clones of a broadcaster share its subscribers.
#[verifier::reject_recursive_types(T)]
pub struct Broadcast<T> {
    subscribers: Subscribers<T>,
    capacity: Capacity,
    published: Ghost<Seq<T>>,
}

impl<T: Clone> Broadcast<T> {
    /// The capacity class of the subscribers' channels.
    pub closed spec fn spec_capacity(&self) -> Capacity {
        self.capacity
    }

    /// Every value published through this handle, in order.
    pub closed spec fn published(&self) -> Seq<T> {
        self.published@
    }

    /// A broadcaster whose subscribers' channels have the given capacity.
    pub fn from_capacity(capacity: Capacity) -> (r: Self)
        requires
            capacity_fits::<T>(capacity),
        ensures
            r.spec_capacity() == capacity,
            r.published() == Seq::<T>::empty(),
    {
        Broadcast { subscribers: new_subscribers(), capacity, published: Ghost(Seq::empty()) }
    }

    /// A broadcaster whose subscribers' channels have no bound.
    pub fn unbounded() -> (r: Self)
        ensures
            r.spec_capacity() == Capacity::Unbounded,
            r.published() == Seq::<T>::empty(),
    {
        Self::from_capacity(Capacity::Unbounded)
    }

    /// A broadcaster whose subscribers' channels hold at most `capacity`
    /// undelivered values each.
    pub fn bounded(capacity: usize) -> (r: Self)
        requires
            channel_capacity_fits::<T>(capacity),
        ensures
            r.spec_capacity() == Capacity::Bounded(capacity),
            r.published() == Seq::<T>::empty(),
    {
        Self::from_capacity(Capacity::Bounded(capacity))
    }

    /// A new subscriber: a receiver that gets every later value.
    pub fn subscriber(&self) -> (r: SignalReceiver<T>)
        requires
            capacity_fits::<T>(self.spec_capacity()),
        ensures
            r.spec_capacity() == self.spec_capacity(),
    {
        let signal = SignalReceiver::from_capacity(self.capacity);
        let _listed = add_subscriber(&self.subscribers, signal.sender());
        signal
    }

    /// Sends a clone of `val` to every subscriber; a subscriber that is gone
    /// does not keep the others from receiving it. Returns the outcome of
    /// each send, one per subscriber.
    pub fn publish(&mut self, val: T) -> (sent: Vec<Result<(), Error>>)
        ensures
            final(self).published() == old(self).published().push(val),
            final(self).spec_capacity() == old(self).spec_capacity(),
            forall|i: int|
                0 <= i < sent@.len() ==> (#[trigger] sent@[i] is Err ==> sent@[i] == Err::<
                    (),
                    Error,
                >(Error::ChannelDisconnected)),
    {
        let subs = snapshot(&self.subscribers);
        let sent = fan_out(&subs, &val);
        self.published = Ghost(self.published@.push(val));
        sent
    }
}

impl<T: Clone> Clone for Broadcast<T> {
    /// Another handle on the same broadcaster: it shares the subscribers.
    fn clone(&self) -> (r: Self)
        ensures
            r.spec_capacity() == self.spec_capacity(),
            r.published() == self.published(),
    {
        Broadcast {
            subscribers: share(&self.subscribers),
            capacity: self.capacity,
            published: Ghost(self.published@),
        }
    }
}

/// A broadcaster as the end of a chain: each value it receives is published.
#[verifier::reject_recursive_types(T)]
pub struct ReactiveBroadcast<T> {
    inner: Broadcast<T>,
}

impl<T: Clone> ReactiveBroadcast<T> {
    /// The subscribers' channels can be laid out.
    pub closed spec fn wf(&self) -> bool {
        capacity_fits::<T>(self.inner.spec_capacity())
    }

    /// The capacity class of the subscribers' channels.
    pub closed spec fn spec_capacity(&self) -> Capacity {
        self.inner.spec_capacity()
    }

    /// Every value published, in order.
    pub closed spec fn published(&self) -> Seq<T> {
        self.inner.published()
    }

    /// A reactive broadcaster whose subscribers' channels are bounded.
    pub fn bounded(capacity: usize) -> (r: Self)
        requires
            channel_capacity_fits::<T>(capacity),
        ensures
            r.wf(),
            r.spec_capacity() == Capacity::Bounded(capacity),
            r.published() == Seq::<T>::empty(),
    {
        ReactiveBroadcast { inner: Broadcast::bounded(capacity) }
    }

    /// A reactive broadcaster whose subscribers' channels have no bound.
    pub fn unbounded() -> (r: Self)
        ensures
            r.wf(),
            r.spec_capacity() == Capacity::Unbounded,
            r.published() == Seq::<T>::empty(),
    {
        ReactiveBroadcast { inner: Broadcast::unbounded() }
    }

    /// A new subscriber.
    pub fn subscriber(&self) -> (r: SignalReceiver<T>)
        requires
            self.wf(),
        ensures
            r.spec_capacity() == self.spec_capacity(),
    {
        self.inner.subscriber()
    }
}

impl<T: Clone> Reactor for ReactiveBroadcast<T> {
    /// The answers `react` gives, and the state it leaves.
    open spec fn reacts(
        &self,
        input: Reaction<Self::Input>,
        next: Self,
        output: Reaction<Self::Output>,
    ) -> bool {
        &&& next.spec_capacity() == self.spec_capacity()
        &&& match input {
            Reaction::Value(v) => {
                &&& output == Reaction::<()>::Value(())
                &&& next.published() == self.published().push(v)
            },
            Reaction::Event(e) => output == Reaction::<()>::Event(e) && next == *self,
            Reaction::Continue => output is Continue && next == *self,
        }
    }

    type Output = ();

    type Input = T;

    /// Publishes each value and answers `Value(())`; passes events on and
    /// answers `Continue` with `Continue`.
    fn react(&mut self, reaction: Reaction<Self::Input>) -> (r: Reaction<Self::Output>) {
        match reaction {
            Reaction::Value(val) => {
                let _sent = self.inner.publish(val);
                Reaction::Value(())
            },
            Reaction::Event(e) => Reaction::Event(e),
            Reaction::Continue => Reaction::Continue,
        }
    }
}

} // verus!

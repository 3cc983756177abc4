//! Signal channels: a crossbeam channel whose receiver carries a mio
//! registration that every send marks readable, so that an engine wakes up
//! for it.
use vstd::prelude::*;

use crossbeam::channel::{Receiver, Sender, TryRecvError};
use mio::{Ready, Registration, SetReadiness};

use crate::errors::Error;
use crate::reactor::{Reaction, Reactor};
use crate::sources::{pulled, source_step, source_next, SourceStep};
use crate::sync::{capacity_fits, channel_capacity_fits, Capacity};

verus! {

#[verifier::external_type_specification]
#[verifier::external_body]
#[verifier::reject_recursive_types(T)]
pub struct ExSender<T>(Sender<T>);

#[verifier::external_type_specification]
#[verifier::external_body]
#[verifier::reject_recursive_types(T)]
pub struct ExReceiver<T>(Receiver<T>);

#[verifier::external_type_specification]
#[verifier::external_body]
pub struct ExRegistration(Registration);

#[verifier::external_type_specification]
#[verifier::external_body]
pub struct ExSetReadiness(SetReadiness);

/// Relies on `crossbeam_channel::unbounded`: a connected sender and
/// receiver of a channel without a bound.
#[verifier::external_body]
fn unbounded_channel<T>() -> (Sender<T>, Receiver<T>) {
    crossbeam::channel::unbounded()
}

/// Relies on `crossbeam_channel::bounded`: a connected sender and receiver
/// of a channel that holds at most `cap` messages. For `cap > 0` it lays out
/// `cap` slots and computes `(cap + 1).next_power_of_two() * 2`, which panic
/// when the slots do not fit in memory or the product overflows.
#[verifier::external_body]
fn bounded_channel<T>(cap: usize) -> (Sender<T>, Receiver<T>)
    requires
        channel_capacity_fits::<T>(cap),
{
    crossbeam::channel::bounded(cap)
}

/// Relies on `crossbeam_channel::Sender::send`: waits while a bounded
/// channel is full, and fails only when every receiver is gone.
#[verifier::external_body]
fn channel_send<T>(s: &Sender<T>, v: T) -> (sent: bool) {
    s.send(v).is_ok()
}

/// Relies on `crossbeam_channel::Receiver::try_recv`: a message, or the
/// reason there is none (`Empty`, or `Disconnected` once every sender is
/// gone), without waiting.
#[verifier::external_body]
fn channel_try_recv<T>(rx: &Receiver<T>) -> (r: Result<T, Error>)
    ensures
        r matches Err(e) ==> (e == Error::ChannelEmpty || e == Error::ChannelDisconnected),
{
    match rx.try_recv() {
        Ok(v) => Ok(v),
        Err(TryRecvError::Empty) => Err(Error::ChannelEmpty),
        Err(TryRecvError::Disconnected) => Err(Error::ChannelDisconnected),
    }
}

/// Relies on `Clone for crossbeam_channel::Sender`: another sender into the
/// same channel.
pub assume_specification<T>[ <Sender<T> as Clone>::clone ](s: &Sender<T>) -> Sender<T>;

/// Relies on `mio::Registration::new2`: a registration and the handle that
/// sets its readiness.
#[verifier::external_body]
fn new_registration() -> (Registration, SetReadiness) {
    Registration::new2()
}

/// Relies on `mio::SetReadiness::set_readiness`: marks the registration
/// readable. Once the registration is gone it does nothing and reports
/// success.
#[verifier::external_body]
fn mark_readable(s: &SetReadiness) -> (done: bool) {
    s.set_readiness(Ready::readable()).is_ok()
}

/// Relies on `Clone for mio::SetReadiness`: another handle on the same
/// registration.
pub assume_specification[ <SetReadiness as Clone>::clone ](s: &SetReadiness) -> SetReadiness;

/// The sending end of a signal channel. Cloning is cheap; every clone sends
/// into the same channel.
#[derive(Clone)]
#[verifier::reject_recursive_types(T)]
pub struct SignalSender<T> {
    sender: Sender<T>,
    set_readiness: SetReadiness,
    channel: Ghost<Receiver<T>>,
}

impl<T> SignalSender<T> {
    /// The receiving end of the channel this sender feeds.
    pub closed spec fn spec_channel(&self) -> Receiver<T> {
        self.channel@
    }

    /// Sends `val` and marks the receiver readable. On a full bounded
    /// channel this waits for room. Fails with `ChannelDisconnected` when the
    /// receiver is gone.
    pub fn send(&self, val: T) -> (r: Result<(), Error>)
        ensures
            r is Err ==> r == Err::<(), Error>(Error::ChannelDisconnected),
    {
        let _marked = mark_readable(&self.set_readiness);
        if channel_send(&self.sender, val) {
            Ok(())
        } else {
            Err(Error::ChannelDisconnected)
        }
    }
}

/// The receiving end of a signal channel, with the registration that its
/// senders mark readable.
#[verifier::reject_recursive_types(T)]
pub struct SignalReceiver<T> {
    receiver: Receiver<T>,
    registration: Registration,
    set_readiness: SetReadiness,
    sender: Sender<T>,
    capacity: Capacity,
}

impl<T> SignalReceiver<T> {
    /// The capacity class of the channel.
    pub closed spec fn spec_capacity(&self) -> Capacity {
        self.capacity
    }

    /// The receiving end of the channel; its senders name it as theirs.
    pub closed spec fn spec_channel(&self) -> Receiver<T> {
        self.receiver
    }

    /// A signal channel without a bound.
    pub fn unbounded() -> (r: Self)
        ensures
            r.spec_capacity() == Capacity::Unbounded,
    {
        let (sender, receiver) = unbounded_channel();
        Self::with_sender_receiver(sender, receiver, Capacity::Unbounded)
    }

    /// A signal channel that holds at most `capacity` undelivered messages.
    pub fn bounded(capacity: usize) -> (r: Self)
        requires
            channel_capacity_fits::<T>(capacity),
        ensures
            r.spec_capacity() == Capacity::Bounded(capacity),
    {
        let (sender, receiver) = bounded_channel(capacity);
        Self::with_sender_receiver(sender, receiver, Capacity::Bounded(capacity))
    }

    /// A signal channel of the given capacity class.
    pub fn from_capacity(capacity: Capacity) -> (r: Self)
        requires
            capacity_fits::<T>(capacity),
        ensures
            r.spec_capacity() == capacity,
    {
        match capacity {
            Capacity::Unbounded => Self::unbounded(),
            Capacity::Bounded(n) => Self::bounded(n),
        }
    }

    fn with_sender_receiver(sender: Sender<T>, receiver: Receiver<T>, capacity: Capacity) -> (r:
        Self)
        ensures
            r.spec_capacity() == capacity,
    {
        let (registration, set_readiness) = new_registration();
        SignalReceiver { receiver, registration, set_readiness, sender, capacity }
    }

    /// Takes one message without waiting; `ChannelEmpty` when none is
    /// queued.
    pub fn try_recv(&self) -> (r: Result<T, Error>)
        ensures
            r is Err ==> r == Err::<T, Error>(Error::ChannelEmpty) || r == Err::<T, Error>(
                Error::ChannelDisconnected,
            ),
    {
        channel_try_recv(&self.receiver)
    }

    /// A sender into this channel.
    pub fn sender(&self) -> (r: SignalSender<T>)
        ensures
            r.spec_channel() == self.spec_channel(),
    {
        SignalSender {
            set_readiness: self.set_readiness.clone(),
            sender: self.sender.clone(),
            channel: Ghost(self.receiver),
        }
    }

    /// The registration that senders mark readable; the engine polls it.
    pub fn registration(&self) -> &Registration {
        &self.registration
    }
}

/// A signal receiver as a source: it answers its own readiness event, and
/// each `Continue` after a value, with the next message, until none is
/// queued. `handle` keeps its registration, under `token`, alive.
#[verifier::reject_recursive_types(T)]
pub struct ReactiveSignalReceiver<T, H> {
    inner: SignalReceiver<T>,
    handle: H,
    token: usize,
}

impl<T, H> ReactiveSignalReceiver<T, H> {
    /// The token of the registration.
    pub closed spec fn spec_token(&self) -> usize {
        self.token
    }

    /// Makes `inner` reactive; its registration is held by `handle` under
    /// `token`.
    pub fn with_handle(inner: SignalReceiver<T>, handle: H, token: usize) -> (r: Self)
        ensures
            r.spec_token() == token,
    {
        ReactiveSignalReceiver { inner, handle, token }
    }

    /// Takes one message without waiting.
    pub fn try_recv(&self) -> (r: Result<T, Error>)
        ensures
            r matches Err(e) ==> (e == Error::ChannelEmpty || e == Error::ChannelDisconnected),
    {
        self.inner.try_recv()
    }

    /// The token of the registration.
    pub fn token(&self) -> (r: usize)
        ensures
            r == self.spec_token(),
    {
        self.token
    }

    /// The receiving end of the channel.
    pub closed spec fn spec_channel(&self) -> Receiver<T> {
        self.inner.spec_channel()
    }

    /// A sender into this channel.
    pub fn sender(&self) -> (r: SignalSender<T>)
        ensures
            r.spec_channel() == self.spec_channel(),
    {
        self.inner.sender()
    }

    /// The registration guard.
    pub fn handle(&self) -> &H {
        &self.handle
    }
}

impl<T, H> Reactor for ReactiveSignalReceiver<T, H> {
    /// The answers `react` gives, and the state it leaves.
    open spec fn reacts(
        &self,
        input: Reaction<Self::Input>,
        next: Self,
        output: Reaction<Self::Output>,
    ) -> bool {
        &&& next.spec_token() == self.spec_token()
        &&& match source_next(self.spec_token(), input) {
            SourceStep::Pull => output is Value || output is Continue,
            SourceStep::Pass(e) => output == Reaction::<T>::Event(e),
            SourceStep::Idle => output is Continue,
        }
    }

    type Output = T;

    type Input = ();

    /// On its own event or on `Continue`, answers with the next message, or
    /// `Continue` when none is queued; passes other events on; answers a
    /// value with `Continue`.
    fn react(&mut self, reaction: Reaction<Self::Input>) -> (r: Reaction<Self::Output>) {
        match source_step(self.token, &reaction) {
            SourceStep::Pull => {
                let received = self.inner.try_recv();
                pulled(received.ok())
            },
            SourceStep::Pass(e) => Reaction::Event(e),
            SourceStep::Idle => Reaction::Continue,
        }
    }
}

} // verus!

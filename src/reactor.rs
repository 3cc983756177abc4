//! The reaction protocol: what flows between reactors, and the `Reactor` trait.
//!
//! A reactor is called with `Event(e)` when the engine receives a readiness
//! notification, and then with `Continue` until it answers `Continue`. An
//! answer `Value(v)` hands `v` to the next stage of a chain.
use vstd::prelude::*;


use crate::combinators::{And, Chain, MapReactor, Or};

verus! {

/// A readiness notification: the token of the registration that became
/// ready, and whether it became readable and/or writable.
#[derive(Clone, Copy, Debug, PartialEq, Eq)]
pub struct Event {
    pub token: usize,
    pub readable: bool,
    pub writable: bool,
}

impl Event {
    /// A notification for `token` with the given readiness.
    pub fn new(token: usize, readable: bool, writable: bool) -> (r: Event)
        ensures
            r == (Event { token, readable, writable }),
    {
        Event { token, readable, writable }
    }

    /// The token of the registration that became ready.
    pub fn token(&self) -> (r: usize)
        ensures
            r == self.token,
    {
        self.token
    }

    /// Whether the registration became readable.
    pub fn is_readable(&self) -> (r: bool)
        ensures
            r == self.readable,
    {
        self.readable
    }

    /// Whether the registration became writable.
    pub fn is_writable(&self) -> (r: bool)
        ensures
            r == self.writable,
    {
        self.writable
    }
}

/// The kinds of readiness a handle is registered for.
#[derive(Clone, Copy, Debug, PartialEq, Eq)]
pub struct Interest {
    pub readable: bool,
    pub writable: bool,
}

impl Interest {
    /// Interest in readability alone.
    pub fn readable() -> (r: Interest)
        ensures
            r == (Interest { readable: true, writable: false }),
    {
        Interest { readable: true, writable: false }
    }

    /// Interest in writability alone.
    pub fn writable() -> (r: Interest)
        ensures
            r == (Interest { readable: false, writable: true }),
    {
        Interest { readable: false, writable: true }
    }

    /// Interest in both readability and writability.
    pub fn both() -> (r: Interest)
        ensures
            r == (Interest { readable: true, writable: true }),
    {
        Interest { readable: true, writable: true }
    }
}

/// The input and output of a reactor.
#[derive(Debug)]
pub enum Reaction<T> {
    /// No further progress this turn.
    Continue,
    /// A readiness notification nobody has consumed.
    Event(Event),
    /// A value for the next stage.
    Value(T),
}

impl<T> Reaction<T> {
    /// Wraps a readiness notification.
    pub fn from_event(event: Event) -> (r: Reaction<T>)
        ensures
            r == Reaction::<T>::Event(event),
    {
        Reaction::Event(event)
    }

    /// Whether this is a `Value`.
    pub fn is_value(&self) -> (r: bool)
        ensures
            r == (*self is Value),
    {
        match self {
            Reaction::Value(_) => true,
            _ => false,
        }
    }

    /// Whether this is `Continue`.
    pub fn is_continue(&self) -> (r: bool)
        ensures
            r == (*self is Continue),
    {
        match self {
            Reaction::Continue => true,
            _ => false,
        }
    }
}

impl<T> From<Event> for Reaction<T> {
    fn from(event: Event) -> (r: Reaction<T>) {
        Reaction::Event(event)
    }
}

impl<T> vstd::std_specs::convert::FromSpecImpl<Event> for Reaction<T> {
    open spec fn obeys_from_spec() -> bool {
        true
    }

    open spec fn from_spec(event: Event) -> Reaction<T> {
        Reaction::Event(event)
    }
}

/// A stateful stage that turns one reaction into another.
///
/// When the `Output` of one reactor is the `Input` of another, the two can be
/// chained.
pub trait Reactor: Sized {
    /// What this reactor hands to the next stage.
    type Output;

    /// What this reactor takes from the previous stage.
    type Input;

    /// Whether `react`, called on `self` with `input`, may answer `output`
    /// and leave the reactor as `next`. By default any answer may come.
    open spec fn reacts(
        &self,
        input: Reaction<Self::Input>,
        next: Self,
        output: Reaction<Self::Output>,
    ) -> bool {
        true
    }

    /// Reacts to one reaction. Called with `Continue` repeatedly until it
    /// answers `Continue`.
    fn react(&mut self, reaction: Reaction<Self::Input>) -> (r: Reaction<Self::Output>)
        ensures
            old(self).reacts(reaction, *final(self), r),
    ;

    /// Makes the output of this reactor the input of `to`.
    fn chain<R>(self, to: R) -> (r: Chain<Self, R>)
        ensures
            r.first_stage() == self,
            r.second_stage() == to,
    {
        Chain::new(self, to)
    }

    /// Runs this reactor and `second` side by side on every event.
    fn and<R>(self, second: R) -> (r: And<Self, R>)
        ensures
            r.first_reactor() == self,
            r.second_reactor() == second,
    {
        And::new(self, second)
    }

    /// Routes `Either::A` values to this reactor and `Either::B` values to
    /// `second`.
    fn or<R>(self, second: R) -> (r: Or<Self, R>)
        ensures
            r.first_reactor() == self,
            r.second_reactor() == second,
    {
        Or::new(self, second)
    }
}

/// Mapping the values of any reactor.
pub trait MapValues: Reactor {
    /// Applies `callback` to every value this reactor produces.
    fn map<F: Fn(Self::Output) -> T, T>(self, callback: F) -> (r: MapReactor<Self, F, T>)
        requires
            forall|v: Self::Output| callback.requires((v,)),
        ensures
            r.source() == self,
            r.callback() == callback,
    ;
}

impl<R: Reactor> MapValues for R {
    fn map<F: Fn(Self::Output) -> T, T>(self, callback: F) -> (r: MapReactor<Self, F, T>) {
        MapReactor::new(self, callback)
    }
}

} // verus!

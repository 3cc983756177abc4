//! Reactors that produce values: the decisions every evented source shares
//! (listeners, signal receivers, deques), and the generators that start an
//! engine with values of their own.
use vstd::prelude::*;

use std::collections::VecDeque;

use crate::reactor::{Event, Reaction, Reactor};

verus! {

/// What a source does with a reaction, given its own token.
#[derive(Debug, PartialEq, Eq)]
pub enum SourceStep {
    /// Try to take one value (accept, receive or steal).
    Pull,
    /// The event belongs to another handle: pass it on.
    Pass(Event),
    /// Nothing to do: answer `Continue`.
    Idle,
}

/// What a source does with `reaction`, given its own token: an event for
/// its own token, or a `Continue` after a value, asks it to take one more
/// value, until it drains.
pub open spec fn source_next<I>(token: usize, reaction: Reaction<I>) -> SourceStep {
    match reaction {
        Reaction::Event(e) => if e.token == token {
            SourceStep::Pull
        } else {
            SourceStep::Pass(e)
        },
        Reaction::Continue => SourceStep::Pull,
        Reaction::Value(_) => SourceStep::Idle,
    }
}

/// Computes `source_next(token, *reaction)`.
pub fn source_step<I>(token: usize, reaction: &Reaction<I>) -> (s: SourceStep)
    ensures
        s == source_next(token, *reaction),
{
    match reaction {
        Reaction::Event(e) => {
            if e.token == token {
                SourceStep::Pull
            } else {
                SourceStep::Pass(*e)
            }
        },
        Reaction::Continue => SourceStep::Pull,
        Reaction::Value(_) => SourceStep::Idle,
    }
}

/// What a source answers after a pull that took `v`; a pull that found
/// nothing ends the source's output for this turn.
pub fn pulled<V>(v: Option<V>) -> (r: Reaction<V>)
    ensures
        match v {
            Some(x) => r == Reaction::<V>::Value(x),
            None => r is Continue,
        },
{
    match v {
        Some(x) => Reaction::Value(x),
        None => Reaction::Continue,
    }
}

/// The outcome of one `accept` on a non-blocking listener.
#[derive(Debug)]
pub enum Accepted<S> {
    /// A connection came in.
    Stream(S),
    /// No connection is waiting.
    WouldBlock,
    /// The accept failed otherwise.
    Failed,
}

/// What a listener answers after an accept, and whether it must register
/// its handle again (the accept would block).
pub fn accepted_reaction<S>(a: Accepted<S>) -> (r: (Reaction<S>, bool))
    ensures
        match a {
            Accepted::Stream(s) => r.0 == Reaction::<S>::Value(s) && !r.1,
            Accepted::WouldBlock => r.0 is Continue && r.1,
            Accepted::Failed => r.0 is Continue && !r.1,
        },
{
    match a {
        Accepted::Stream(s) => (Reaction::Value(s), false),
        Accepted::WouldBlock => (Reaction::Continue, true),
        Accepted::Failed => (Reaction::Continue, false),
    }
}

/// Produces its values, in order, once the engine delivers the startup
/// event of its registration `handle`.
pub struct ReactiveGenerator<T, H> {
    items: VecDeque<T>,
    handle: H,
    token: usize,
}

impl<T, H> ReactiveGenerator<T, H> {
    /// The values not produced yet, in order.
    pub closed spec fn pending(&self) -> Seq<T> {
        self.items@
    }

    /// The token of the generator's registration.
    pub closed spec fn spec_token(&self) -> usize {
        self.token
    }

    /// A generator of `items` whose startup event comes from `handle`,
    /// registered under `token`.
    pub fn with_handle(items: Vec<T>, handle: H, token: usize) -> (r: Self)
        ensures
            r.pending() == items@,
            r.spec_token() == token,
    {
        let mut items = items;
        let ghost all = items@;
        let mut queue: VecDeque<T> = VecDeque::new();
        while items.len() > 0
            invariant
                all == items@ + queue@,
            decreases items.len(),
        {
            let x = items.pop().unwrap();
            queue.push_front(x);
            proof {
                assert(all =~= items@ + queue@);
            }
        }
        proof {
            assert(all =~= queue@);
        }
        ReactiveGenerator { items: queue, handle, token }
    }

    /// The token of the generator's registration.
    pub fn token(&self) -> (r: usize)
        ensures
            r == self.spec_token(),
    {
        self.token
    }

    /// The registration.
    pub fn handle(&self) -> &H {
        &self.handle
    }
}

impl<T, H> Reactor for ReactiveGenerator<T, H> {
    /// The answers `react` gives, and the state it leaves.
    open spec fn reacts(
        &self,
        input: Reaction<Self::Input>,
        next: Self,
        output: Reaction<Self::Output>,
    ) -> bool {
        &&& next.spec_token() == self.spec_token()
        &&& match source_next(self.spec_token(), input) {
            SourceStep::Pull => if self.pending().len() > 0 {
                &&& output == Reaction::<T>::Value(self.pending()[0])
                &&& next.pending() == self.pending().drop_first()
            } else {
                output is Continue && next.pending() == self.pending()
            },
            SourceStep::Pass(e) => output == Reaction::<T>::Event(e) && next.pending()
                == self.pending(),
            SourceStep::Idle => output is Continue && next.pending() == self.pending(),
        }
    }

    type Output = T;

    type Input = ();

    /// On its own event, or on `Continue`, produces the next value, or
    /// `Continue` when none is left; passes other events on.
    fn react(&mut self, reaction: Reaction<Self::Input>) -> (r: Reaction<Self::Output>) {
        match source_step(self.token, &reaction) {
            SourceStep::Pull => pulled(self.items.pop_front()),
            SourceStep::Pass(e) => Reaction::Event(e),
            SourceStep::Idle => Reaction::Continue,
        }
    }
}

/// Produces exactly one value, on the startup event of its registration
/// `handle`.
pub struct Mono<T, H> {
    value: Option<T>,
    handle: H,
    token: usize,
}

impl<T, H> Mono<T, H> {
    /// The value not produced yet, if any.
    pub closed spec fn pending(&self) -> Option<T> {
        self.value
    }

    /// The token of the registration.
    pub closed spec fn spec_token(&self) -> usize {
        self.token
    }

    /// A `Mono` of `value` whose startup event comes from `handle`,
    /// registered under `token`.
    pub fn with_handle(value: T, handle: H, token: usize) -> (r: Self)
        ensures
            r.pending() == Some(value),
            r.spec_token() == token,
    {
        Mono { value: Some(value), handle, token }
    }

    /// The token of the registration.
    pub fn token(&self) -> (r: usize)
        ensures
            r == self.spec_token(),
    {
        self.token
    }

    /// The registration.
    pub fn handle(&self) -> &H {
        &self.handle
    }
}

impl<T, H> Reactor for Mono<T, H> {
    /// The answers `react` gives, and the state it leaves.
    open spec fn reacts(
        &self,
        input: Reaction<Self::Input>,
        next: Self,
        output: Reaction<Self::Output>,
    ) -> bool {
        &&& next.spec_token() == self.spec_token()
        &&& match input {
            Reaction::Event(e) => if e.token == self.spec_token() {
                &&& next.pending() is None
                &&& match self.pending() {
                    Some(v) => output == Reaction::<T>::Value(v),
                    None => output is Continue,
                }
            } else {
                output == Reaction::<T>::Event(e) && next.pending() == self.pending()
            },
            _ => output is Continue && next.pending() == self.pending(),
        }
    }

    type Input = ();

    type Output = T;

    /// On its own event, produces its value the first time and `Continue`
    /// after that; passes other events on; answers anything else `Continue`.
    fn react(&mut self, reaction: Reaction<()>) -> (r: Reaction<Self::Output>) {
        match reaction {
            Reaction::Event(e) => {
                if e.token != self.token {
                    return Reaction::Event(e);
                }
                pulled(self.value.take())
            },
            _ => Reaction::Continue,
        }
    }
}

} // verus!

//! Combine reactors into new reactors: `Chain`, `And`, `MapReactor`, `Or`.
//!
//! Each combinator's `react` calls its children and leaves every decision to
//! a verified function of the reactions they returned.
use vstd::prelude::*;

use crate::reactor::{Event, Reaction, Reactor};

verus! {

/// What a chain does next, given the reaction of its first stage.
#[derive(Debug)]
pub enum ChainStep<V> {
    /// Hand the event to the second stage and answer with its reaction.
    DeliverEvent(Event),
    /// Hand the value to the second stage, then ask the first stage again.
    Forward(V),
    /// Ask the second stage for further output and answer with its reaction.
    Settle,
}

/// The chain's decision on the first stage's reaction `r`.
pub open spec fn chain_next<V>(r: Reaction<V>) -> ChainStep<V> {
    match r {
        Reaction::Event(e) => ChainStep::DeliverEvent(e),
        Reaction::Value(v) => ChainStep::Forward(v),
        Reaction::Continue => ChainStep::Settle,
    }
}

/// Computes `chain_next(r)`.
pub fn chain_step<V>(r: Reaction<V>) -> (s: ChainStep<V>)
    ensures
        s == chain_next(r),
{
    match r {
        Reaction::Event(e) => ChainStep::DeliverEvent(e),
        Reaction::Value(v) => ChainStep::Forward(v),
        Reaction::Continue => ChainStep::Settle,
    }
}

/// Two reactors in sequence: the output of `from` is the input of `to`.
pub struct Chain<F, T> {
    from: F,
    to: T,
}

impl<F, T> Chain<F, T> {
    /// The first stage.
    pub closed spec fn first_stage(&self) -> F {
        self.from
    }

    /// The second stage.
    pub closed spec fn second_stage(&self) -> T {
        self.to
    }

    /// Chains `from` into `to`.
    pub fn new(from: F, to: T) -> (r: Self)
        ensures
            r.first_stage() == from,
            r.second_stage() == to,
    {
        Chain { from, to }
    }
}

/// A drive of a chain on `input`: `from` went through `fs` answering `fa`,
/// asked with `input` first and with `Continue` after each value; `to` went
/// through `ts` answering `ta`, handed each of `fa` in turn: the values, then
/// the event or `Continue` that ended the drive. The chain answers with
/// `to`'s last answer, or `Continue` when the drive was cut off at
/// `usize::MAX` forwarded values.
pub open spec fn chain_drive<F: Reactor, T: Reactor<Input = F::Output>>(
    chain: Chain<F, T>,
    input: Reaction<F::Input>,
    fs: Seq<F>,
    fa: Seq<Reaction<F::Output>>,
    ts: Seq<T>,
    ta: Seq<Reaction<T::Output>>,
    next: Chain<F, T>,
    output: Reaction<T::Output>,
) -> bool {
    &&& fa.len() >= 1
    &&& fs.len() == fa.len() + 1
    &&& ts.len() == fa.len() + 1
    &&& ta.len() == fa.len()
    &&& fs[0] == chain.first_stage()
    &&& ts[0] == chain.second_stage()
    &&& fs[0].reacts(input, fs[1], fa[0])
    &&& forall|i: int|
        1 <= i < fa.len() ==> #[trigger] fs[i].reacts(Reaction::Continue, fs[i + 1], fa[i])
    &&& forall|i: int| 0 <= i < fa.len() ==> #[trigger] ts[i].reacts(fa[i], ts[i + 1], ta[i])
    &&& forall|i: int| 0 <= i < fa.len() - 1 ==> (#[trigger] fa[i]) is Value
    &&& next.first_stage() == fs.last()
    &&& next.second_stage() == ts.last()
    &&& if fa.last() is Value {
        output is Continue && fa.len() == usize::MAX + 1
    } else {
        output == ta.last()
    }
}

impl<F: Reactor, T: Reactor<Input = F::Output>> Reactor for Chain<F, T> {
    type Input = F::Input;

    type Output = T::Output;

    /// The answers `react` gives, and the state it leaves.
    open spec fn reacts(
        &self,
        input: Reaction<F::Input>,
        next: Self,
        output: Reaction<T::Output>,
    ) -> bool {
        exists|
            fs: Seq<F>,
            fa: Seq<Reaction<F::Output>>,
            ts: Seq<T>,
            ta: Seq<Reaction<T::Output>>,
        | #[trigger] chain_drive(*self, input, fs, fa, ts, ta, next, output)
    }

    /// Drives `from` with `reaction` and forwards every value it yields to
    /// `to`, asking `from` again after each, until `from` answers with an
    /// event or `Continue`; then answers as `to` does to that event or to
    /// `Continue`.
    ///
    /// The drive stops after `usize::MAX` forwarded values, which keeps it
    /// finite; no stimulus comes near that in practice.
    fn react(&mut self, reaction: Reaction<Self::Input>) -> (r: Reaction<Self::Output>) {
        let ghost start = *self;
        let mut r1 = self.from.react(reaction);
        let ghost mut fs: Seq<F> = seq![start.from, self.from];
        let ghost mut fa: Seq<Reaction<F::Output>> = seq![r1];
        let ghost mut ts: Seq<T> = seq![start.to];
        let ghost mut ta: Seq<Reaction<T::Output>> = Seq::empty();
        let mut budget: usize = usize::MAX;
        loop
            invariant
                start == *old(self),
                fa.len() >= 1,
                fs.len() == fa.len() + 1,
                ts.len() == fa.len(),
                ta.len() == fa.len() - 1,
                fs[0] == start.from,
                ts[0] == start.to,
                fs[0].reacts(reaction, fs[1], fa[0]),
                forall|i: int|
                    1 <= i < fa.len() ==> #[trigger] fs[i].reacts(
                        Reaction::Continue,
                        fs[i + 1],
                        fa[i],
                    ),
                forall|i: int|
                    0 <= i < fa.len() - 1 ==> #[trigger] ts[i].reacts(fa[i], ts[i + 1], ta[i]),
                forall|i: int| 0 <= i < fa.len() - 1 ==> (#[trigger] fa[i]) is Value,
                fa.last() == r1,
                fs.last() == self.from,
                ts.last() == self.to,
                fa.len() + budget == usize::MAX + 1,
            decreases budget,
        {
            let ghost to_before = self.to;
            let ghost r1_now = r1;
            match chain_step(r1) {
                ChainStep::DeliverEvent(e) => {
                    let out = self.to.react(Reaction::Event(e));
                    proof {
                        ts = ts.push(self.to);
                        ta = ta.push(out);
                        assert(chain_drive(start, reaction, fs, fa, ts, ta, *self, out));
                    }
                    return out;
                },
                ChainStep::Forward(v) => {
                    let answer: Reaction<T::Output> = self.to.react(Reaction::Value(v));
                    proof {
                        ts = ts.push(self.to);
                        ta = ta.push(answer);
                    }
                    if budget == 0 {
                        proof {
                            assert(chain_drive(
                                start,
                                reaction,
                                fs,
                                fa,
                                ts,
                                ta,
                                *self,
                                Reaction::Continue,
                            ));
                        }
                        return Reaction::Continue;
                    }
                    budget = budget - 1;
                    r1 = self.from.react(Reaction::Continue);
                    proof {
                        fs = fs.push(self.from);
                        fa = fa.push(r1);
                    }
                },
                ChainStep::Settle => {
                    let out = self.to.react(Reaction::Continue);
                    proof {
                        ts = ts.push(self.to);
                        ta = ta.push(out);
                        assert(chain_drive(start, reaction, fs, fa, ts, ta, *self, out));
                    }
                    return out;
                },
            }
        }
    }
}

/// Chain transparency of events: when the first stage of a chain answers
/// `Event(e)` to the chain's input, the second stage gets exactly one call,
/// with `Event(e)`, the chain answers with the second stage's answer, and the
/// first stage is asked nothing more.
pub proof fn lemma_chain_transparency<F: Reactor, T: Reactor<Input = F::Output>>(
    chain: Chain<F, T>,
    input: Reaction<F::Input>,
    next: Chain<F, T>,
    output: Reaction<T::Output>,
    e: Event,
)
    requires
        chain.reacts(input, next, output),
        forall|f: F, r: Reaction<F::Output>|
            #[trigger] chain.first_stage().reacts(input, f, r) ==> r == Reaction::<F::Output>::Event(e),
    ensures
        chain.first_stage().reacts(input, next.first_stage(), Reaction::<F::Output>::Event(e)),
        chain.second_stage().reacts(Reaction::Event(e), next.second_stage(), output),
{
    let (fs, fa, ts, ta) = choose|
        fs: Seq<F>,
        fa: Seq<Reaction<F::Output>>,
        ts: Seq<T>,
        ta: Seq<Reaction<T::Output>>,
    | #[trigger] chain_drive(chain, input, fs, fa, ts, ta, next, output);
    assert(fa[0] == Reaction::<F::Output>::Event(e));
    if fa.len() > 1 {
        assert(fa[0] is Value);
    }
    assert(fa.len() == 1);
    let k: int = 0;
    assert(ts[k].reacts(fa[k], ts[k + 1], ta[k]));
}

/// Every value the first stage of a chain yields in a drive is handed to the
/// second stage, in order, and the first stage is asked again after each.
pub proof fn lemma_chain_forwards_values<F: Reactor, T: Reactor<Input = F::Output>>(
    chain: Chain<F, T>,
    input: Reaction<F::Input>,
    fs: Seq<F>,
    fa: Seq<Reaction<F::Output>>,
    ts: Seq<T>,
    ta: Seq<Reaction<T::Output>>,
    next: Chain<F, T>,
    output: Reaction<T::Output>,
    i: int,
)
    requires
        chain_drive(chain, input, fs, fa, ts, ta, next, output),
        0 <= i < fa.len(),
        fa[i] is Value,
    ensures
        ts[i].reacts(fa[i], ts[i + 1], ta[i]),
        i + 1 < fa.len() || (output is Continue && fa.len() == usize::MAX + 1),
{
}

/// Two reactors that share the engine but exchange no values.
pub struct And<T, U> {
    first: T,
    second: U,
}

impl<T, U> And<T, U> {
    /// The first reactor.
    pub closed spec fn first_reactor(&self) -> T {
        self.first
    }

    /// The second reactor.
    pub closed spec fn second_reactor(&self) -> U {
        self.second
    }

    /// Runs `first` and `second` side by side.
    pub fn new(first: T, second: U) -> (r: Self)
        ensures
            r.first_reactor() == first,
            r.second_reactor() == second,
    {
        And { first, second }
    }
}

impl<T: Reactor, U: Reactor> Reactor for And<T, U> {
    /// The answers `react` gives, and the state it leaves.
    open spec fn reacts(
        &self,
        input: Reaction<Self::Input>,
        next: Self,
        output: Reaction<Self::Output>,
    ) -> bool {
        match input {
            Reaction::Event(e) => {
                &&& output == Reaction::<()>::Event(e)
                &&& exists|o1: Reaction<T::Output>|
                    #[trigger] self.first_reactor().reacts(
                        Reaction::Event(e),
                        next.first_reactor(),
                        o1,
                    )
                &&& exists|o2: Reaction<U::Output>|
                    #[trigger] self.second_reactor().reacts(
                        Reaction::Event(e),
                        next.second_reactor(),
                        o2,
                    )
            },
            _ => output is Continue && next == *self,
        }
    }

    type Output = ();

    type Input = ();

    /// Hands an event to both reactors and passes it on; anything else is
    /// answered with `Continue`.
    fn react(&mut self, reaction: Reaction<Self::Input>) -> (r: Reaction<Self::Output>) {
        match reaction {
            Reaction::Event(event) => {
                let ghost start = *self;
                let _first: Reaction<T::Output> = self.first.react(Reaction::Event(event));
                let _second: Reaction<U::Output> = self.second.react(Reaction::Event(event));
                proof {
                    assert(start.first_reactor().reacts(
                        Reaction::Event(event),
                        self.first_reactor(),
                        _first,
                    ));
                    assert(start.second_reactor().reacts(
                        Reaction::Event(event),
                        self.second_reactor(),
                        _second,
                    ));
                }
                Reaction::Event(event)
            },
            _ => Reaction::Continue,
        }
    }
}

/// Applies `f` to a value, passing events and `Continue` through.
pub fn map_reaction<A, B, F: Fn(A) -> B>(r: Reaction<A>, f: &F) -> (out: Reaction<B>)
    requires
        forall|v: A| f.requires((v,)),
    ensures
        match r {
            Reaction::Value(v) => out matches Reaction::Value(w) && f.ensures((v,), w),
            Reaction::Event(e) => out == Reaction::<B>::Event(e),
            Reaction::Continue => out is Continue,
        },
{
    match r {
        Reaction::Value(v) => Reaction::Value(f(v)),
        Reaction::Event(e) => Reaction::Event(e),
        Reaction::Continue => Reaction::Continue,
    }
}

/// A function that accepts every argument of type `A`.
#[verifier::reject_recursive_types(A)]
#[verifier::reject_recursive_types(B)]
pub struct Callback<F: Fn(A) -> B, A, B> {
    f: F,
    _p: core::marker::PhantomData<(A, B)>,
}

impl<F: Fn(A) -> B, A, B> Callback<F, A, B> {
    /// The wrapped function.
    pub closed spec fn function(&self) -> F {
        self.f
    }

    #[verifier::type_invariant]
    closed spec fn total(&self) -> bool {
        forall|v: A| self.f.requires((v,))
    }

    /// Wraps `f`, which accepts every argument.
    pub fn new(f: F) -> (r: Self)
        requires
            forall|v: A| f.requires((v,)),
        ensures
            r.function() == f,
    {
        Callback { f, _p: core::marker::PhantomData::<(A, B)> }
    }

    /// Applies the function to the value of `r`, passing events and
    /// `Continue` through.
    pub fn apply(&self, r: Reaction<A>) -> (out: Reaction<B>)
        ensures
            match r {
                Reaction::Value(v) => out matches Reaction::Value(w) && self.function().ensures(
                    (v,),
                    w,
                ),
                Reaction::Event(e) => out == Reaction::<B>::Event(e),
                Reaction::Continue => out is Continue,
            },
    {
        proof {
            use_type_invariant(self);
        }
        map_reaction(r, &self.f)
    }
}

/// A reactor whose values pass through a callback.
#[verifier::reject_recursive_types(T)]
pub struct MapReactor<S: Reactor, F: Fn(S::Output) -> T, T> {
    source: S,
    callback: Callback<F, S::Output, T>,
}

impl<S: Reactor, F: Fn(S::Output) -> T, T> MapReactor<S, F, T> {
    /// The reactor whose values are mapped.
    pub closed spec fn source(&self) -> S {
        self.source
    }

    /// The function applied to each value.
    pub closed spec fn callback(&self) -> F {
        self.callback.function()
    }

    /// Maps the values of `source` through `callback`.
    pub fn new(source: S, callback: F) -> (r: Self)
        requires
            forall|v: S::Output| callback.requires((v,)),
        ensures
            r.source() == source,
            r.callback() == callback,
    {
        MapReactor { source, callback: Callback::new(callback) }
    }
}

/// One reaction of a `MapReactor`: its source answered `input` with
/// `answer`, moving to `source_next`, and the map passed that answer on with
/// its value put through the callback.
pub open spec fn map_step<S: Reactor, F: Fn(S::Output) -> T, T>(
    m: MapReactor<S, F, T>,
    input: Reaction<S::Input>,
    source_next: S,
    answer: Reaction<S::Output>,
    next: MapReactor<S, F, T>,
    output: Reaction<T>,
) -> bool {
    &&& m.source().reacts(input, source_next, answer)
    &&& next.source() == source_next
    &&& next.callback() == m.callback()
    &&& match answer {
        Reaction::Value(v) => output matches Reaction::Value(w) && m.callback().ensures((v,), w),
        Reaction::Event(e) => output == Reaction::<T>::Event(e),
        Reaction::Continue => output is Continue,
    }
}

impl<S: Reactor, F: Fn(S::Output) -> T, T> Reactor for MapReactor<S, F, T> {
    /// The answers `react` gives, and the state it leaves.
    open spec fn reacts(
        &self,
        input: Reaction<Self::Input>,
        next: Self,
        output: Reaction<Self::Output>,
    ) -> bool {
        exists|source_next: S, answer: Reaction<S::Output>|
            #[trigger] map_step(*self, input, source_next, answer, next, output)
    }

    type Output = T;

    type Input = S::Input;

    /// Answers as the source does, with each value passed through the
    /// callback.
    fn react(&mut self, reaction: Reaction<Self::Input>) -> (r: Reaction<Self::Output>) {
        let ghost start = *self;
        let answer = self.source.react(reaction);
        let ghost source_next = self.source;
        let ghost first = answer;
        let out = self.callback.apply(answer);
        proof {
            assert(map_step(start, reaction, source_next, first, *self, out));
        }
        out
    }
}

/// One of two alternatives, the input of an `Or`.
#[derive(Debug)]
pub enum Either<T, U> {
    /// For the first reactor.
    A(T),
    /// For the second reactor.
    B(U),
}

/// Where an `Or` sends a reaction.
#[derive(Debug)]
pub enum OrRoute<T, U> {
    /// Hand the value to the first reactor and answer as it does.
    First(T),
    /// Hand the value to the second reactor and answer as it does.
    Second(U),
    /// Hand the event to both reactors and pass it on.
    Both(Event),
    /// Answer `Continue`.
    Idle,
}

/// The `Or` combinator's decision on `r`.
pub fn or_route<T, U>(r: Reaction<Either<T, U>>) -> (route: OrRoute<T, U>)
    ensures
        match r {
            Reaction::Value(Either::A(x)) => route == OrRoute::<T, U>::First(x),
            Reaction::Value(Either::B(y)) => route == OrRoute::<T, U>::Second(y),
            Reaction::Event(e) => route == OrRoute::<T, U>::Both(e),
            Reaction::Continue => route is Idle,
        },
{
    match r {
        Reaction::Value(Either::A(x)) => OrRoute::First(x),
        Reaction::Value(Either::B(y)) => OrRoute::Second(y),
        Reaction::Event(e) => OrRoute::Both(e),
        Reaction::Continue => OrRoute::Idle,
    }
}

/// Routes each value to one of two reactors with the same output.
pub struct Or<T, U> {
    first: T,
    second: U,
}

impl<T, U> Or<T, U> {
    /// The first reactor.
    pub closed spec fn first_reactor(&self) -> T {
        self.first
    }

    /// The second reactor.
    pub closed spec fn second_reactor(&self) -> U {
        self.second
    }

    /// Routes `Either::A` to `first` and `Either::B` to `second`.
    pub fn new(first: T, second: U) -> (r: Self)
        ensures
            r.first_reactor() == first,
            r.second_reactor() == second,
    {
        Or { first, second }
    }
}

impl<T: Reactor, U: Reactor<Output = T::Output>> Reactor for Or<T, U> {
    /// The answers `react` gives, and the state it leaves.
    open spec fn reacts(
        &self,
        input: Reaction<Self::Input>,
        next: Self,
        output: Reaction<Self::Output>,
    ) -> bool {
        match input {
            Reaction::Value(Either::A(x)) => {
                &&& self.first_reactor().reacts(Reaction::Value(x), next.first_reactor(), output)
                &&& next.second_reactor() == self.second_reactor()
            },
            Reaction::Value(Either::B(y)) => {
                &&& self.second_reactor().reacts(Reaction::Value(y), next.second_reactor(), output)
                &&& next.first_reactor() == self.first_reactor()
            },
            Reaction::Event(e) => {
                &&& output == Reaction::<T::Output>::Event(e)
                &&& exists|o1: Reaction<T::Output>|
                    #[trigger] self.first_reactor().reacts(
                        Reaction::Event(e),
                        next.first_reactor(),
                        o1,
                    )
                &&& exists|o2: Reaction<T::Output>|
                    #[trigger] self.second_reactor().reacts(
                        Reaction::Event(e),
                        next.second_reactor(),
                        o2,
                    )
            },
            Reaction::Continue => output is Continue && next == *self,
        }
    }

    type Input = Either<T::Input, U::Input>;

    type Output = T::Output;

    /// Sends `A(x)` to the first reactor and `B(y)` to the second, answering
    /// as that reactor does; hands an event to both and passes it on;
    /// answers `Continue` with `Continue`.
    fn react(&mut self, reaction: Reaction<Self::Input>) -> (r: Reaction<Self::Output>) {
        match or_route(reaction) {
            OrRoute::First(x) => self.first.react(Reaction::Value(x)),
            OrRoute::Second(y) => self.second.react(Reaction::Value(y)),
            OrRoute::Both(e) => {
                let ghost start = *self;
                let _first: Reaction<T::Output> = self.first.react(Reaction::Event(e));
                let _second: Reaction<T::Output> = self.second.react(Reaction::Event(e));
                proof {
                    assert(start.first_reactor().reacts(
                        Reaction::Event(e),
                        self.first_reactor(),
                        _first,
                    ));
                    assert(start.second_reactor().reacts(
                        Reaction::Event(e),
                        self.second_reactor(),
                        _second,
                    ));
                }
                Reaction::Event(e)
            },
            OrRoute::Idle => Reaction::Continue,
        }
    }
}

} // verus!

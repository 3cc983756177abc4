//! The engine's own logic: its token namespace, where each readiness event
//! goes, when it stops, and how it drains the root reactor after an event.
use vstd::prelude::*;

use crate::errors::Error;
use crate::prevec::PreVec;
use crate::reactor::{Event, Reaction, Reactor};
use crate::signal::SignalReceiver;

verus! {

/// The token of the engine's own control channel.
pub const CONTROL_TOKEN: usize = 0;

/// The number of tokens an engine lays out before its namespace grows.
pub const TOKEN_CAPACITY: usize = 100_000;

/// A command for the engine.
#[derive(Clone, Copy, Debug, PartialEq, Eq)]
pub enum SystemEvent {
    /// Leave the event loop at the next polling boundary.
    Stop,
}

/// The vacant slots of `v` are one ascending run from its next position to
/// the end of the laid-out slots.
spec fn free_run_ascends(v: PreVec<()>) -> bool {
    &&& v.next_position() <= v.slots().len()
    &&& v.vacancies() == PreVec::<()>::fresh_run(v.next_position(), v.slots().len() as int)
}

/// The tokens of one engine: `CONTROL_TOKEN` for the engine itself, and one
/// per live registration.
pub struct Tokens {
    slots: PreVec<()>,
}

impl Tokens {
    /// The engine's own token is always reserved.
    pub closed spec fn wf(&self) -> bool {
        &&& self.slots.wf()
        &&& self.slots.spec_offset() == 0
        &&& self.slots.at(CONTROL_TOKEN as int) is Some
    }

    /// Whether `token` is reserved.
    pub closed spec fn live(&self, token: int) -> bool {
        self.slots.at(token) is Some
    }

    /// The token the next successful `reserve_token` returns.
    pub closed spec fn next_token(&self) -> int {
        self.slots.next_index()
    }

    /// Whether the next `reserve_token` succeeds.
    pub closed spec fn can_reserve(&self) -> bool {
        self.slots.can_insert()
    }

    /// No token was freed yet: the free tokens are one ascending run that
    /// starts at the next token.
    pub closed spec fn ascending(&self) -> bool {
        free_run_ascends(self.slots)
    }

    /// What `reserve_token` does: `after` and `r` are its outcome on `before`.
    pub open spec fn reserves(before: Self, after: Self, r: Result<usize, Error>) -> bool {
        &&& r is Ok <==> before.can_reserve()
        &&& match r {
            Ok(t) => {
                &&& t == before.next_token()
                &&& t != CONTROL_TOKEN
                &&& !before.live(t as int)
                &&& after.live(t as int)
                &&& forall|u: int| u != t ==> #[trigger] after.live(u) == before.live(u)
                &&& before.ascending() ==> after.ascending() && after.next_token() == t + 1
            },
            Err(e) => {
                &&& e == Error::NoCapacity
                &&& forall|u: int| #[trigger] after.live(u) == before.live(u)
            },
        }
    }

    /// What `free_token` does: `after` is its outcome on `before`.
    pub open spec fn frees(before: Self, token: usize, after: Self) -> bool {
        &&& forall|u: int| u != token ==> #[trigger] after.live(u) == before.live(u)
        &&& token == CONTROL_TOKEN ==> after.live(token as int)
        &&& token != CONTROL_TOKEN ==> !after.live(token as int)
        &&& (before.live(token as int) && token != CONTROL_TOKEN) ==> {
            &&& after.next_token() == token
            &&& after.can_reserve()
        }
    }

    /// A fresh namespace in which only `CONTROL_TOKEN` is reserved.
    pub fn new() -> (r: Tokens)
        ensures
            r.wf(),
            r.live(CONTROL_TOKEN as int),
            forall|t: int| t != CONTROL_TOKEN ==> !#[trigger] r.live(t),
            r.next_token() == 1,
            r.can_reserve(),
            r.ascending(),
    {
        let mut slots = PreVec::with_capacity(TOKEN_CAPACITY);
        let first = slots.insert(());
        proof {
            assert(first == Ok::<usize, Error>(0));
            assert(slots.vacancies().len() > 0);
            assert(slots.vacancies()[0] == 1);
            assert(slots.vacancies() =~= PreVec::<()>::fresh_run(1, TOKEN_CAPACITY as int));
        }
        Tokens { slots }
    }

    /// Reserves a token that no registration holds.
    pub fn reserve_token(&mut self) -> (r: Result<usize, Error>)
        requires
            old(self).wf(),
        ensures
            final(self).wf(),
            Self::reserves(*old(self), *final(self), r),
    {
        let ghost before = self.slots;
        let r = self.slots.insert(());
        proof {
            before.lemma_vacancies();
            if r is Ok && free_run_ascends(before) {
                let p = before.next_position();
                let len = before.slots().len() as int;
                if before.vacancies().len() > 0 {
                    assert(self.slots.vacancies() =~= PreVec::<()>::fresh_run(p + 1, len));
                    if p + 1 < len {
                        assert(self.slots.vacancies()[0] == p + 1);
                    }
                } else {
                    assert(self.slots.vacancies() =~= PreVec::<()>::fresh_run(
                        p + 1,
                        before.grown_capacity(),
                    ));
                }
                self.slots.lemma_vacancies();
            }
        }
        r
    }


    /// Releases `token` for reuse. The engine's own token stays reserved.
    pub fn free_token(&mut self, token: usize)
        requires
            old(self).wf(),
        ensures
            final(self).wf(),
            Self::frees(*old(self), token, *final(self)),
    {
        if token != CONTROL_TOKEN {
            let _removed = self.slots.remove(token);
        }
    }

    /// Whether `token` is reserved.
    pub fn is_live(&self, token: usize) -> (r: bool)
        requires
            self.wf(),
        ensures
            r == self.live(token as int),
    {
        self.slots.get(token).is_some()
    }
}

/// Every token the engine hands out is fresh: `reserve_token` never returns
/// the engine's own token nor one that is live, and the engine's own token
/// stays live whatever is reserved or freed.
pub proof fn lemma_token_uniqueness(
    before: Tokens,
    after_reserve: Tokens,
    r: Result<usize, Error>,
    token: usize,
    after_free: Tokens,
)
    requires
        before.wf(),
        after_reserve.wf(),
        Tokens::reserves(before, after_reserve, r),
        Tokens::frees(before, token, after_free),
    ensures
        r matches Ok(t) ==> t != CONTROL_TOKEN && !before.live(t as int),
        after_reserve.live(CONTROL_TOKEN as int),
        after_free.live(CONTROL_TOKEN as int),
{
}

/// On a fresh engine, while no token is freed, the tokens handed out are 1,
/// then 2: the first registration (a listener) gets 1 and the next (a
/// stream it accepts) gets 2.
pub proof fn lemma_fresh_tokens_ascend(
    fresh: Tokens,
    after_first: Tokens,
    first: Result<usize, Error>,
    after_second: Tokens,
    second: Result<usize, Error>,
)
    requires
        fresh.wf(),
        fresh.ascending(),
        fresh.next_token() == 1,
        Tokens::reserves(fresh, after_first, first),
        first is Ok,
        Tokens::reserves(after_first, after_second, second),
        second is Ok,
    ensures
        first == Ok::<usize, Error>(1),
        second == Ok::<usize, Error>(2),
{
}

/// After `free_token(t)` of a live token, the next `reserve_token` returns
/// `t`.
pub proof fn lemma_token_recycling(
    before: Tokens,
    t: usize,
    between: Tokens,
    after: Tokens,
    r: Result<usize, Error>,
)
    requires
        before.wf(),
        before.live(t as int),
        t != CONTROL_TOKEN,
        Tokens::frees(before, t, between),
        Tokens::reserves(between, after, r),
    ensures
        r == Ok::<usize, Error>(t),
{
}

/// Where the engine sends a readiness event.
#[derive(Debug, PartialEq, Eq)]
pub enum Dispatch {
    /// The control channel has commands: drain it.
    Control,
    /// Hand the event to the root reactor.
    Root(Event),
}

/// The engine's decision for `event`.
pub fn dispatch(event: Event) -> (d: Dispatch)
    ensures
        event.token == CONTROL_TOKEN ==> d is Control,
        event.token != CONTROL_TOKEN ==> d == Dispatch::Root(event),
{
    if event.token == CONTROL_TOKEN {
        Dispatch::Control
    } else {
        Dispatch::Root(event)
    }
}

/// Whether the engine leaves its loop after acting on `commands`, the
/// commands drained from its control channel. `Stop` is the only command,
/// so any command stops the engine.
pub fn stops(commands: &Vec<SystemEvent>) -> (r: bool)
    ensures
        r == exists|i: int| 0 <= i < commands.len() && commands[i] == SystemEvent::Stop,
{
    if commands.len() == 0 {
        return false;
    }
    proof {
        assert(commands[0] == SystemEvent::Stop);
    }
    true
}

/// A run of `deliver`: `root` went through `states`, answering `answers`;
/// it was handed `event` first, and `Continue` after that only when it
/// answered the event with a value, then each time until it answered
/// `Continue`.
pub open spec fn drains<R: Reactor<Input = ()>>(
    event: Event,
    states: Seq<R>,
    answers: Seq<Reaction<R::Output>>,
) -> bool {
    &&& answers.len() >= 1
    &&& states.len() == answers.len() + 1
    &&& states[0].reacts(Reaction::Event(event), states[1], answers[0])
    &&& forall|i: int|
        1 <= i < answers.len() ==> #[trigger] states[i].reacts(
            Reaction::Continue,
            states[i + 1],
            answers[i],
        )
    &&& answers.len() == 1 || answers[0] is Value
    &&& forall|i: int| 0 <= i < answers.len() - 1 ==> !((#[trigger] answers[i]) is Continue)
}

/// `root` went from `before` to `after` through one run of `deliver` on
/// `event`.
pub open spec fn delivered<R: Reactor<Input = ()>>(event: Event, before: R, after: R) -> bool {
    exists|states: Seq<R>, answers: Seq<Reaction<R::Output>>|
        #[trigger] drains(event, states, answers) && states[0] == before && states.last() == after
}

/// Hands `event` to `root`; if `root` answers with a value, asks it with
/// `Continue` until it answers `Continue`. Returns the last reaction and how
/// many times `root` was asked with `Continue`.
///
/// After a value, the last reaction is other than `Continue` only if `root`
/// was asked `usize::MAX` times, a bound that keeps the drain finite.
pub fn deliver<R: Reactor<Input = ()>>(root: &mut R, event: Event) -> (r: (
    Reaction<R::Output>,
    usize,
))
    ensures
        r.1 == 0 ==> !(r.0 is Value),
        r.1 > 0 ==> (r.0 is Continue || r.1 == usize::MAX),
        exists|states: Seq<R>, answers: Seq<Reaction<R::Output>>|
            #[trigger] drains(event, states, answers) && answers.len() == r.1 + 1
                && answers.last() == r.0 && states[0] == *old(root) && states.last()
                == *final(root),
        delivered(event, *old(root), *final(root)),
{
    let ghost start = *root;
    let mut last = root.react(Reaction::Event(event));
    let ghost mut states: Seq<R> = seq![start, *root];
    let ghost mut answers: Seq<Reaction<R::Output>> = seq![last];
    let mut pulls: usize = 0;
    while (pulls == 0 && last.is_value()) || (pulls > 0 && !last.is_continue())
        invariant_except_break
            pulls <= usize::MAX,
        invariant
            drains(event, states, answers),
            answers.len() == pulls + 1,
            answers.last() == last,
            states[0] == start,
            start == *old(root),
            states.last() == *root,
        ensures
            pulls == 0 ==> !(last is Value),
            pulls > 0 ==> (last is Continue || pulls == usize::MAX),
            drains(event, states, answers),
            answers.len() == pulls + 1,
            answers.last() == last,
            states[0] == start,
            start == *old(root),
            states.last() == *root,
        decreases usize::MAX - pulls,
    {
        if pulls == usize::MAX {
            break;
        }
        let ghost before = *root;
        pulls = pulls + 1;
        last = root.react(Reaction::Continue);
        proof {
            let old_answers = answers;
            let old_states = states;
            states = states.push(*root);
            answers = answers.push(last);
            assert(old_states.last() == before);
            assert forall|i: int| 1 <= i < answers.len() implies #[trigger] states[i].reacts(
                Reaction::Continue,
                states[i + 1],
                answers[i],
            ) by {
                if i < answers.len() - 1 {
                    assert(states[i] == old_states[i]);
                    assert(states[i + 1] == old_states[i + 1]);
                    assert(answers[i] == old_answers[i]);
                }
            }
            assert forall|i: int| 0 <= i < answers.len() - 1 implies !((#[trigger] answers[i]) is Continue) by {
                if i < old_answers.len() - 1 {
                    assert(answers[i] == old_answers[i]);
                } else {
                    assert(answers[i] == old_answers.last());
                }
            }
            assert(states[1] == old_states[1]);
        }
    }
    proof {
        assert(drains(event, states, answers));
    }
    (last, pulls)
}

/// Takes every command queued on the control channel, in order, without
/// waiting; at most `usize::MAX` of them.
pub fn drain_control(control: &SignalReceiver<SystemEvent>) -> (commands: Vec<SystemEvent>) {
    let mut commands: Vec<SystemEvent> = Vec::new();
    let mut budget: usize = usize::MAX;
    while budget > 0
        decreases budget,
    {
        match control.try_recv() {
            Ok(c) => commands.push(c),
            Err(_) => {
                break;
            },
        }
        budget = budget - 1;
    }
    commands
}

/// How `run_batch` went through `events`: the first `handled` of them were
/// handled in order, `root` going through `roots`; a control event left it
/// alone and every other event was delivered to it once.
pub open spec fn handles<R: Reactor<Input = ()>>(
    events: Seq<Event>,
    handled: int,
    roots: Seq<R>,
) -> bool {
    &&& 0 <= handled <= events.len()
    &&& roots.len() == handled + 1
    &&& forall|k: int|
        0 <= k < handled ==> {
            &&& (#[trigger] events[k]).token == CONTROL_TOKEN ==> roots[k + 1] == roots[k]
            &&& events[k].token != CONTROL_TOKEN ==> delivered(events[k], roots[k], roots[k + 1])
        }
}

/// Handles one batch of readiness events in order: a control event drains
/// the control channel and stops the batch if a `Stop` came; any other event
/// is delivered to `root` and drained. Returns whether the engine stops and
/// how many events were handled.
pub fn run_batch<R: Reactor<Input = ()>>(
    root: &mut R,
    events: &Vec<Event>,
    control: &SignalReceiver<SystemEvent>,
) -> (r: (bool, usize))
    ensures
        r.0 ==> 1 <= r.1 && events@[r.1 - 1].token == CONTROL_TOKEN,
        !r.0 ==> r.1 == events@.len(),
        exists|roots: Seq<R>|
            #[trigger] handles(events@, r.1 as int, roots) && roots[0] == *old(root)
                && roots.last() == *final(root),
{
    let ghost mut roots: Seq<R> = seq![*root];
    let mut i: usize = 0;
    while i < events.len()
        invariant
            i <= events@.len(),
            handles(events@, i as int, roots),
            roots[0] == *old(root),
            roots.last() == *root,
        decreases events@.len() - i,
    {
        let event = events[i];
        match dispatch(event) {
            Dispatch::Control => {
                let commands = drain_control(control);
                proof {
                    roots = roots.push(*root);
                    assert(handles(events@, i + 1, roots)) by {
                        assert forall|k: int| 0 <= k < i + 1 implies {
                            &&& (#[trigger] events@[k]).token == CONTROL_TOKEN ==> roots[k + 1]
                                == roots[k]
                            &&& events@[k].token != CONTROL_TOKEN ==> delivered(
                                events@[k],
                                roots[k],
                                roots[k + 1],
                            )
                        } by {
                            if k < i {
                                assert(roots[k] == roots.drop_last()[k]);
                                assert(roots[k + 1] == roots.drop_last()[k + 1]);
                            }
                        }
                    }
                }
                if stops(&commands) {
                    return (true, i + 1);
                }
            },
            Dispatch::Root(e) => {
                let ghost before = *root;
                let _drained = deliver(root, e);
                proof {
                    roots = roots.push(*root);
                    assert(handles(events@, i + 1, roots)) by {
                        assert forall|k: int| 0 <= k < i + 1 implies {
                            &&& (#[trigger] events@[k]).token == CONTROL_TOKEN ==> roots[k + 1]
                                == roots[k]
                            &&& events@[k].token != CONTROL_TOKEN ==> delivered(
                                events@[k],
                                roots[k],
                                roots[k + 1],
                            )
                        } by {
                            if k < i {
                                assert(roots[k] == roots.drop_last()[k]);
                                assert(roots[k + 1] == roots.drop_last()[k + 1]);
                            } else {
                                assert(roots[k] == before);
                            }
                        }
                    }
                }
            },
        }
        i = i + 1;
    }
    (false, i)
}

} // verus!

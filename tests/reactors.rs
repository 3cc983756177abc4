use std::cell::{Cell, RefCell};
use std::rc::Rc;

use sonr::broadcast::{Broadcast, ReactiveBroadcast};
use sonr::combinators::{chain_step, map_reaction, or_route, And, ChainStep, Either, OrRoute};
use sonr::consumers::Consume;
use sonr::evented::{HandleState, IoOutcome};
use sonr::queue::{ReactiveDeque, ReactiveQueue};
use sonr::signal::{ReactiveSignalReceiver, SignalReceiver};
use sonr::sources::{accepted_reaction, pulled, source_step, Accepted, Mono, ReactiveGenerator, SourceStep};
use sonr::sync::{steal_reaction, Capacity, Stolen};
use sonr::system::{deliver, dispatch, run_batch, stops, Dispatch, SystemEvent, Tokens, CONTROL_TOKEN};
use sonr::{Error, Event, Interest, MapValues, Reaction, Reactor};

fn ready(token: usize) -> Event {
    Event::new(token, true, false)
}

/// Answers every event with the same event, and anything else with
/// `Continue`.
struct PassEvents;

impl Reactor for PassEvents {
    type Output = u32;
    type Input = ();

    fn react(&mut self, reaction: Reaction<()>) -> Reaction<u32> {
        match reaction {
            Reaction::Event(e) => Reaction::Event(e),
            _ => Reaction::Continue,
        }
    }
}

/// Records what it receives and answers events with `Value(42)`.
struct Recorder {
    log: Rc<RefCell<Vec<String>>>,
}

impl Reactor for Recorder {
    type Output = u32;
    type Input = u32;

    fn react(&mut self, reaction: Reaction<u32>) -> Reaction<u32> {
        match reaction {
            Reaction::Event(e) => {
                self.log.borrow_mut().push(format!("event {}", e.token()));
                Reaction::Value(42)
            }
            Reaction::Value(v) => {
                self.log.borrow_mut().push(format!("value {}", v));
                Reaction::Continue
            }
            Reaction::Continue => {
                self.log.borrow_mut().push("continue".to_string());
                Reaction::Continue
            }
        }
    }
}

#[test]
fn chain_hands_event_to_second_stage_once() {
    let log = Rc::new(RefCell::new(Vec::new()));
    let mut chain = PassEvents.chain(Recorder { log: log.clone() });
    let r = chain.react(Reaction::Event(ready(7)));
    assert!(matches!(r, Reaction::Value(42)));
    assert_eq!(*log.borrow(), vec!["event 7".to_string()]);
}

#[test]
fn chain_forwards_every_value_then_settles() {
    let log = Rc::new(RefCell::new(Vec::new()));
    let gen = ReactiveGenerator::with_handle(vec![1u32, 2, 3], (), 4);
    let mut chain = gen.chain(Recorder { log: log.clone() });
    let r = chain.react(Reaction::Event(ready(4)));
    assert!(matches!(r, Reaction::Continue));
    assert_eq!(
        *log.borrow(),
        vec!["value 1", "value 2", "value 3", "continue"]
            .into_iter()
            .map(String::from)
            .collect::<Vec<_>>()
    );
}

#[test]
fn chain_step_decisions() {
    assert!(matches!(chain_step::<u8>(Reaction::Event(ready(3))), ChainStep::DeliverEvent(e) if e.token == 3));
    assert!(matches!(chain_step(Reaction::Value(9u8)), ChainStep::Forward(9)));
    assert!(matches!(chain_step::<u8>(Reaction::Continue), ChainStep::Settle));
}

#[test]
fn engine_drains_root_until_continue() {
    let mut gen = ReactiveGenerator::with_handle(vec![1u8, 2, 3], (), 11);
    let (last, pulls) = deliver(&mut gen, ready(11));
    assert!(last.is_continue());
    assert_eq!(pulls, 3);
}

#[test]
fn engine_pulls_nothing_after_continue() {
    let mut gen = ReactiveGenerator::with_handle(Vec::<u8>::new(), (), 11);
    let (last, pulls) = deliver(&mut gen, ready(11));
    assert!(last.is_continue());
    assert_eq!(pulls, 0);
}

#[test]
fn mono_drives_engine_to_stop() {
    let control: SignalReceiver<SystemEvent> = SignalReceiver::unbounded();
    let handle = control.sender();
    let runs = Rc::new(Cell::new(0u32));
    let counted = runs.clone();
    let mut root = Mono::with_handle(7u8, (), 5).map(move |n| {
        assert_eq!(n, 7);
        counted.set(counted.get() + 1);
        let _ = handle.send(SystemEvent::Stop);
    });

    assert_eq!(dispatch(ready(5)), Dispatch::Root(ready(5)));
    let _ = deliver(&mut root, ready(5));
    let _ = deliver(&mut root, ready(5));
    assert_eq!(runs.get(), 1);

    assert_eq!(dispatch(ready(CONTROL_TOKEN)), Dispatch::Control);
    let mut commands = Vec::new();
    while let Ok(c) = control.try_recv() {
        commands.push(c);
    }
    assert_eq!(commands, vec![SystemEvent::Stop]);
    assert!(stops(&commands));
    assert!(!stops(&Vec::new()));
}

#[test]
fn mono_passes_foreign_events() {
    let mut mono = Mono::with_handle(1u8, (), 5);
    assert!(matches!(mono.react(Reaction::Event(ready(6))), Reaction::Event(e) if e.token == 6));
    assert!(matches!(mono.react(Reaction::Continue), Reaction::Continue));
    assert!(matches!(mono.react(Reaction::Event(ready(5))), Reaction::Value(1)));
    assert!(matches!(mono.react(Reaction::Event(ready(5))), Reaction::Continue));
}

#[test]
fn queue_one_to_four() {
    let mut queue = ReactiveQueue::unbounded();
    let deq = queue.deque();
    let mut producer = ReactiveGenerator::with_handle(vec![1u32, 2, 3, 4], (), 2).chain(queue);
    let _ = deliver(&mut producer, ready(2));

    let seen = Rc::new(RefCell::new(Vec::new()));
    let record = seen.clone();
    let mut consumer = ReactiveDeque::with_handle(deq, (), 3).map(move |v| record.borrow_mut().push(v));
    let _ = deliver(&mut consumer, ready(3));
    assert_eq!(*seen.borrow(), vec![1, 2, 3, 4]);
}

#[test]
fn bounded_queue_holds_one_wake_up() {
    let mut queue = ReactiveQueue::bounded(1);
    let deq = queue.deque();
    let mut consumer = ReactiveDeque::with_handle(deq, (), 3);
    for v in 1..=4u32 {
        queue.push(v);
        assert!(consumer.deque().signal().try_recv().is_ok());
        assert_eq!(consumer.deque().signal().try_recv(), Err(Error::ChannelEmpty));
        assert!(matches!(consumer.react(Reaction::Continue), Reaction::Value(x) if x == v));
    }
    assert!(matches!(consumer.react(Reaction::Continue), Reaction::Continue));
}

#[test]
fn signal_delivers_once() {
    let rx: SignalReceiver<u32> = SignalReceiver::unbounded();
    let tx = rx.sender();
    assert_eq!(tx.send(123), Ok(()));
    assert_eq!(rx.try_recv(), Ok(123));
    assert_eq!(rx.try_recv(), Err(Error::ChannelEmpty));
}

#[test]
fn send_to_dropped_receiver_fails() {
    let rx: SignalReceiver<u32> = SignalReceiver::bounded(4);
    let tx = rx.sender();
    drop(rx);
    assert_eq!(tx.send(1), Err(Error::ChannelDisconnected));
}

#[test]
fn reactive_signal_receiver_drains_on_its_event() {
    let rx: SignalReceiver<u32> = SignalReceiver::from_capacity(Capacity::Unbounded);
    let tx = rx.sender();
    let mut reactive = ReactiveSignalReceiver::with_handle(rx, (), 8);
    let _ = tx.send(1);
    let _ = tx.send(2);
    assert!(matches!(reactive.react(Reaction::Event(ready(9))), Reaction::Event(e) if e.token == 9));
    assert!(matches!(reactive.react(Reaction::Event(ready(8))), Reaction::Value(1)));
    assert!(matches!(reactive.react(Reaction::Continue), Reaction::Value(2)));
    assert!(matches!(reactive.react(Reaction::Continue), Reaction::Continue));
    assert!(matches!(reactive.react(Reaction::Value(())), Reaction::Continue));
}

#[test]
fn broadcast_fans_out_to_every_subscriber() {
    let mut bc = Broadcast::<String>::unbounded();
    let a = bc.subscriber();
    let b = bc.subscriber();
    let c = bc.subscriber();
    drop(b);
    let sent = bc.publish("hello".to_string());
    assert_eq!(sent, vec![Ok(()), Err(Error::ChannelDisconnected), Ok(())]);
    assert_eq!(a.try_recv(), Ok("hello".to_string()));
    assert_eq!(c.try_recv(), Ok("hello".to_string()));
    assert_eq!(a.try_recv(), Err(Error::ChannelEmpty));
}

#[test]
fn broadcast_two_publishers_two_subscribers() {
    let bc = Broadcast::<String>::unbounded();
    let mut bc1 = bc.clone();
    let mut bc2 = bc.clone();
    let mut counts = Vec::new();
    let subs = vec![bc.subscriber(), bc.subscriber()];
    bc1.publish("a".to_string());
    bc2.publish("b".to_string());
    for (i, s) in subs.into_iter().enumerate() {
        let got = Rc::new(RefCell::new(Vec::new()));
        let keep = got.clone();
        let mut root = ReactiveSignalReceiver::with_handle(s, (), 20 + i).map(move |v| keep.borrow_mut().push(v));
        let _ = deliver(&mut root, ready(20 + i));
        counts.push(got.borrow().clone());
    }
    assert_eq!(counts, vec![vec!["a".to_string(), "b".to_string()], vec!["a".to_string(), "b".to_string()]]);
}

#[test]
fn reactive_broadcast_publishes_values() {
    let mut bc = ReactiveBroadcast::<u8>::bounded(2);
    let s = bc.subscriber();
    assert!(matches!(bc.react(Reaction::Value(5)), Reaction::Value(())));
    assert!(matches!(bc.react(Reaction::Continue), Reaction::Continue));
    assert!(matches!(bc.react(Reaction::Event(ready(1))), Reaction::Event(_)));
    assert_eq!(s.try_recv(), Ok(5));
}

#[test]
fn would_block_clears_latch_until_next_event() {
    let mut s = HandleState::new(4, Interest::both());
    assert!(s.on_event(Event::new(4, false, true)));
    assert!(s.is_writable);
    assert!(s.after_write(IoOutcome::WouldBlock));
    assert!(!s.is_writable);
    assert!(!s.on_event(Event::new(5, true, true)));
    assert!(!s.is_writable);
    assert!(s.on_event(Event::new(4, false, true)));
    assert!(s.is_writable);
    assert!(!s.after_write(IoOutcome::Transferred(3)));
    assert!(s.is_writable);
}

#[test]
fn read_latch_rules() {
    let mut s = HandleState::new(1, Interest::readable());
    s.on_event(Event::new(1, true, false));
    assert!(!s.after_read(IoOutcome::Transferred(10)));
    assert!(s.is_readable);
    assert!(!s.after_read(IoOutcome::Transferred(0)));
    assert!(!s.is_readable);
    s.on_event(Event::new(1, true, false));
    assert!(!s.after_read(IoOutcome::Failed));
    assert!(!s.is_readable);
    s.on_event(Event::new(1, true, false));
    assert!(s.after_read(IoOutcome::WouldBlock));
    assert!(!s.is_readable);
}

#[test]
fn stream_reaction_latches_own_events() {
    let mut s = HandleState::new(2, Interest::both());
    assert!(matches!(s.react_as_stream(Reaction::Event(Event::new(2, true, false))), Reaction::Value(())));
    assert!(s.is_readable && !s.is_writable);
    assert!(matches!(s.react_as_stream(Reaction::Event(Event::new(3, true, true))), Reaction::Event(_)));
    assert!(matches!(s.react_as_stream(Reaction::Continue), Reaction::Continue));
    assert!(matches!(s.react_as_stream(Reaction::Value(())), Reaction::Continue));
}

#[test]
fn tokens_reserve_and_recycle() {
    let mut t = Tokens::new();
    assert!(t.is_live(CONTROL_TOKEN));
    assert_eq!(t.reserve_token(), Ok(1));
    assert_eq!(t.reserve_token(), Ok(2));
    assert_eq!(t.reserve_token(), Ok(3));
    t.free_token(2);
    assert!(!t.is_live(2));
    assert_eq!(t.reserve_token(), Ok(2));
    t.free_token(CONTROL_TOKEN);
    assert!(t.is_live(CONTROL_TOKEN));
    assert_eq!(t.reserve_token(), Ok(4));
}

#[test]
fn and_passes_events_to_both() {
    let log = Rc::new(RefCell::new(Vec::new()));
    let first = PassEvents.chain(Recorder { log: log.clone() });
    let second = PassEvents.chain(Recorder { log: log.clone() });
    let mut both = And::new(first, second);
    assert!(matches!(both.react(Reaction::Event(ready(6))), Reaction::Event(e) if e.token == 6));
    assert!(matches!(both.react(Reaction::Continue), Reaction::Continue));
    assert_eq!(log.borrow().len(), 2);
}

#[test]
fn or_routes_by_arm() {
    let int_consumer = Consume::<u32>::new();
    let string_consumer = Consume::<String>::new().map(|_| 0u32);
    let mut or = int_consumer.or(string_consumer);
    assert!(matches!(or.react(Reaction::Value(Either::A(5))), Reaction::Value(5)));
    assert!(matches!(or.react(Reaction::Value(Either::B("2".to_string()))), Reaction::Value(0)));
    assert!(matches!(or.react(Reaction::Event(ready(1))), Reaction::Event(_)));
    assert!(matches!(or.react(Reaction::Continue), Reaction::Continue));
    assert!(matches!(or_route::<u8, u8>(Reaction::Value(Either::B(3))), OrRoute::Second(3)));
}

#[test]
fn map_applies_callback_to_values_only() {
    let double = |x: u32| x * 2;
    assert!(matches!(map_reaction(Reaction::Value(21u32), &double), Reaction::Value(42)));
    assert!(matches!(map_reaction(Reaction::<u32>::Continue, &double), Reaction::Continue));
    assert!(matches!(map_reaction(Reaction::<u32>::Event(ready(2)), &double), Reaction::Event(_)));
}

#[test]
fn source_decisions() {
    assert_eq!(source_step::<()>(4, &Reaction::Event(ready(4))), SourceStep::Pull);
    assert_eq!(source_step::<()>(4, &Reaction::Event(ready(5))), SourceStep::Pass(ready(5)));
    assert_eq!(source_step::<()>(4, &Reaction::Continue), SourceStep::Pull);
    assert_eq!(source_step::<()>(4, &Reaction::Value(())), SourceStep::Idle);
    assert!(matches!(pulled(Some(3u8)), Reaction::Value(3)));
    assert!(matches!(pulled::<u8>(None), Reaction::Continue));
    assert!(matches!(accepted_reaction(Accepted::Stream(9u8)), (Reaction::Value(9), false)));
    assert!(matches!(accepted_reaction::<u8>(Accepted::WouldBlock), (Reaction::Continue, true)));
    assert!(matches!(accepted_reaction::<u8>(Accepted::Failed), (Reaction::Continue, false)));
    assert!(matches!(steal_reaction(Stolen::Success(1u8)), Some(Reaction::Value(1))));
    assert!(matches!(steal_reaction::<u8>(Stolen::Empty), Some(Reaction::Continue)));
    assert!(steal_reaction::<u8>(Stolen::Retry).is_none());
}

#[test]
fn consume_hands_reaction_back() {
    let mut c = Consume::<u8>::new();
    assert!(matches!(c.react(Reaction::Value(3)), Reaction::Value(3)));
    assert!(matches!(c.react(Reaction::Continue), Reaction::Continue));
}

#[test]
fn fan_out_sends_once_per_subscriber() {
    let receivers: Vec<SignalReceiver<String>> = (0..3).map(|_| SignalReceiver::unbounded()).collect();
    let senders = receivers.iter().map(|r| r.sender()).collect::<Vec<_>>();
    let mut receivers = receivers;
    let gone = receivers.remove(1);
    drop(gone);
    assert_eq!(
        sonr::broadcast::fan_out(&senders, &"v".to_string()),
        vec![Ok(()), Err(Error::ChannelDisconnected), Ok(())]
    );
    for r in &receivers {
        assert_eq!(r.try_recv(), Ok("v".to_string()));
        assert_eq!(r.try_recv(), Err(Error::ChannelEmpty));
    }
}

#[test]
fn notify_all_wakes_every_deque() {
    let a: SignalReceiver<()> = SignalReceiver::unbounded();
    let b: SignalReceiver<()> = SignalReceiver::bounded(1);
    let senders = vec![a.sender(), b.sender()];
    assert_eq!(sonr::queue::notify_all(&senders), vec![Ok(()), Ok(())]);
    assert_eq!(a.try_recv(), Ok(()));
    assert_eq!(b.try_recv(), Ok(()));
}

#[test]
fn event_converts_into_reaction() {
    let r: Reaction<u8> = ready(3).into();
    assert!(matches!(r, Reaction::Event(e) if e.token == 3 && e.readable && !e.writable));
    assert!(Reaction::<u8>::from_event(ready(1)).is_value() == false);
    assert!(Reaction::Value(1u8).is_value());
}

#[test]
fn test_or() {
    let control: SignalReceiver<SystemEvent> = SignalReceiver::unbounded();
    let system_sig = control.sender();

    let int_consumer = Consume::new();
    let string_consumer = Consume::new();

    // Convert the output to a u32 as `or` can only apply
    // to reactors with the same `Output`.
    let string_consumer = string_consumer.map(|_: String| 0u32);

    let producer = Mono::with_handle(2u32, (), 1);
    let test_complete = Rc::new(Cell::new(false));
    let complete = test_complete.clone();
    let mut run = producer
        .map(|val: u32| {
            if val == 1 {
                Either::A(val)
            } else {
                Either::B(format!("{}", val))
            }
        })
        .chain(int_consumer.or(string_consumer).map(move |_| {
            let _ = system_sig.send(SystemEvent::Stop);
            complete.set(true);
        }));

    let _ = deliver(&mut run, ready(1));

    assert!(test_complete.get());
    assert_eq!(control.try_recv(), Ok(SystemEvent::Stop));
}

#[test]
fn fresh_engine_reserves_one_then_two() {
    let mut t = Tokens::new();
    assert!(t.is_live(CONTROL_TOKEN));
    assert!(!t.is_live(1));
    assert_eq!(t.reserve_token(), Ok(1));
    assert_eq!(t.reserve_token(), Ok(2));
}

/// Answers `Event(e)` to its first `Continue` and `Continue` after that.
struct EventThenContinue {
    pulls: u32,
}

impl Reactor for EventThenContinue {
    type Output = u8;
    type Input = ();

    fn react(&mut self, reaction: Reaction<()>) -> Reaction<u8> {
        match reaction {
            Reaction::Event(_) => Reaction::Value(1),
            _ => {
                self.pulls += 1;
                if self.pulls == 1 {
                    Reaction::Event(ready(99))
                } else {
                    Reaction::Continue
                }
            }
        }
    }
}

#[test]
fn engine_drains_past_event_answers_until_continue() {
    let mut root = EventThenContinue { pulls: 0 };
    let (last, pulls) = deliver(&mut root, ready(4));
    assert!(last.is_continue());
    assert_eq!(pulls, 2);
    assert_eq!(root.pulls, 2);
}

#[test]
fn channel_and_deque_capacities() {
    let rx: SignalReceiver<u8> = SignalReceiver::bounded(1);
    let tx = rx.sender();
    assert_eq!(tx.send(1), Ok(()));
    assert_eq!(rx.try_recv(), Ok(1));
    let mut queue = ReactiveQueue::bounded(2);
    let deq = queue.deque();
    queue.push(7u8);
    queue.push(8u8);
    assert!(deq.signal().try_recv().is_ok());
    assert!(deq.signal().try_recv().is_ok());
    assert_eq!(deq.signal().try_recv(), Err(Error::ChannelEmpty));
}

#[test]
fn reactive_queue_pushes_values_only() {
    let mut queue = ReactiveQueue::unbounded();
    let deq = queue.deque();
    assert!(matches!(queue.react(Reaction::Event(ready(1))), Reaction::Continue));
    assert!(matches!(queue.react(Reaction::Continue), Reaction::Continue));
    assert!(matches!(queue.react(Reaction::Value(5u8)), Reaction::Value(())));
    assert!(matches!(deq.steal(), Stolen::Success(5)));
    assert!(matches!(deq.steal(), Stolen::Empty));
}

#[test]
fn broadcast_subscriber_gets_each_publish_once() {
    let mut bc = ReactiveBroadcast::<u32>::unbounded();
    let s1 = bc.subscriber();
    let s2 = bc.subscriber();
    assert!(matches!(bc.react(Reaction::Value(1)), Reaction::Value(())));
    assert!(matches!(bc.react(Reaction::Value(2)), Reaction::Value(())));
    for s in [&s1, &s2] {
        assert_eq!(s.try_recv(), Ok(1));
        assert_eq!(s.try_recv(), Ok(2));
        assert_eq!(s.try_recv(), Err(Error::ChannelEmpty));
    }
}

#[test]
fn batch_delivers_in_order_and_stops_on_control() {
    let control: SignalReceiver<SystemEvent> = SignalReceiver::unbounded();
    let seen = Rc::new(RefCell::new(Vec::new()));
    let record = seen.clone();
    let mut root = ReactiveGenerator::with_handle(vec![10u8, 20, 30], (), 5)
        .map(move |v| record.borrow_mut().push(v));

    let quiet = vec![ready(CONTROL_TOKEN), ready(7)];
    assert_eq!(run_batch(&mut root, &quiet, &control), (false, 2));
    assert!(seen.borrow().is_empty());

    let _ = control.sender().send(SystemEvent::Stop);
    let batch = vec![ready(5), ready(CONTROL_TOKEN), ready(5)];
    assert_eq!(run_batch(&mut root, &batch, &control), (true, 2));
    assert_eq!(*seen.borrow(), vec![10, 20, 30]);
}

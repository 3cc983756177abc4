//! Capacity of signal channels, and the decisions of the work-stealing deque.
use vstd::prelude::*;

use vstd::layout::{align_of, size_of};

use crate::reactor::Reaction;

verus! {

/// How many undelivered messages a signal channel holds.
#[derive(Clone, Copy, Debug, PartialEq, Eq)]
pub enum Capacity {
    /// As many as memory allows.
    Unbounded,
    /// At most this many; a further send waits or fails.
    Bounded(usize),
}

/// Whether a bounded channel of `T` with room for `cap` messages can be laid
/// out: each slot holds a stamp and a `T`, and all of them must fit in
/// `isize::MAX` bytes.
pub open spec fn channel_capacity_fits<T>(cap: usize) -> bool {
    cap * (size_of::<T>() + align_of::<T>() + 8) <= isize::MAX
}

/// Whether channels of `T` of capacity class `c` can be laid out.
pub open spec fn capacity_fits<T>(c: Capacity) -> bool {
    match c {
        Capacity::Unbounded => true,
        Capacity::Bounded(n) => channel_capacity_fits::<T>(n),
    }
}

/// The outcome of one attempt to steal from a work-stealing queue.
#[derive(Debug)]
pub enum Stolen<T> {
    /// A value was taken.
    Success(T),
    /// The queue held nothing.
    Empty,
    /// The attempt met contention and should be repeated.
    Retry,
}

/// What a deque answers after a steal attempt; `None` asks for another
/// attempt.
pub fn steal_reaction<T>(s: Stolen<T>) -> (r: Option<Reaction<T>>)
    ensures
        match s {
            Stolen::Success(v) => r == Some(Reaction::<T>::Value(v)),
            Stolen::Empty => r == Some(Reaction::<T>::Continue),
            Stolen::Retry => r is None,
        },
{
    match s {
        Stolen::Success(v) => Some(Reaction::Value(v)),
        Stolen::Empty => Some(Reaction::Continue),
        Stolen::Retry => None,
    }
}

} // verus!

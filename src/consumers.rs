//! Consumers take the output of other reactors.
use vstd::prelude::*;

use crate::reactor::{Reaction, Reactor};

verus! {

/// A reactor that hands back every reaction it receives; mostly useful in
/// tests and as the end of a chain.
pub struct Consume<T> {
    _p: core::marker::PhantomData<T>,
}

impl<T> Consume<T> {
    /// Creates a `Consume`.
    pub fn new() -> (r: Self) {
        Consume { _p: core::marker::PhantomData::<T> }
    }
}

impl<T> Reactor for Consume<T> {
    /// The answers `react` gives, and the state it leaves.
    open spec fn reacts(
        &self,
        input: Reaction<Self::Input>,
        next: Self,
        output: Reaction<Self::Output>,
    ) -> bool {
        output == input
    }

    type Input = T;

    type Output = T;

    /// Answers with the reaction itself.
    fn react(&mut self, reaction: Reaction<Self::Input>) -> (r: Reaction<Self::Output>) {
        reaction
    }
}

} // verus!

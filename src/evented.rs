//! The bookkeeping of an evented handle: its token, its interest, and the
//! readable and writable latches that readiness events set and failed or
//! blocked transfers clear.
use vstd::prelude::*;

use crate::reactor::{Event, Interest, Reaction};

verus! {

/// The outcome of one read or write on a non-blocking handle.
#[derive(Clone, Copy, Debug, PartialEq, Eq)]
pub enum IoOutcome {
    /// This many bytes moved.
    Transferred(usize),
    /// The operation would block.
    WouldBlock,
    /// The operation failed otherwise.
    Failed,
}

/// The state an evented handle keeps beside its OS handle.
#[derive(Clone, Copy, Debug, PartialEq, Eq)]
pub struct HandleState {
    pub token: usize,
    pub interest: Interest,
    pub is_readable: bool,
    pub is_writable: bool,
}

impl HandleState {
    /// A handle registered under `token` for `interest`, not yet ready.
    pub fn new(token: usize, interest: Interest) -> (r: HandleState)
        ensures
            r == (HandleState { token, interest, is_readable: false, is_writable: false }),
    {
        HandleState { token, interest, is_readable: false, is_writable: false }
    }

    /// What `on_event(event)` does: `ours` and `after` are its outcome on
    /// `before`.
    pub open spec fn takes_event(before: Self, event: Event, after: Self, ours: bool) -> bool {
        &&& ours == (event.token == before.token)
        &&& ours ==> after == (HandleState {
            is_readable: before.is_readable || event.readable,
            is_writable: before.is_writable || event.writable,
            ..before
        })
        &&& !ours ==> after == before
    }

    /// Latches the readiness of `event` if it is for this handle; returns
    /// whether it was.
    pub fn on_event(&mut self, event: Event) -> (ours: bool)
        ensures
            Self::takes_event(*old(self), event, *final(self), ours),
    {
        if event.token != self.token {
            return false;
        }
        self.is_readable = self.is_readable || event.readable;
        self.is_writable = self.is_writable || event.writable;
        true
    }

    /// Updates the readable latch after a read; returns whether the handle
    /// must be registered again (it would block).
    pub fn after_read(&mut self, outcome: IoOutcome) -> (reregister: bool)
        ensures
            reregister == (outcome == IoOutcome::WouldBlock),
            final(self).is_readable == (old(self).is_readable && (outcome matches IoOutcome::Transferred(
                n,
            ) && n > 0)),
            final(self).is_writable == old(self).is_writable,
            final(self).token == old(self).token,
            final(self).interest == old(self).interest,
    {
        match outcome {
            IoOutcome::Transferred(n) => {
                if n == 0 {
                    self.is_readable = false;
                }
                false
            },
            IoOutcome::WouldBlock => {
                self.is_readable = false;
                true
            },
            IoOutcome::Failed => {
                self.is_readable = false;
                false
            },
        }
    }

    /// What `after_write(outcome)` does: `reregister` and `after` are its
    /// outcome on `before`.
    pub open spec fn wrote(before: Self, outcome: IoOutcome, after: Self, reregister: bool) -> bool {
        &&& reregister == (outcome == IoOutcome::WouldBlock)
        &&& after.is_writable == (before.is_writable && outcome is Transferred)
        &&& after.is_readable == before.is_readable
        &&& after.token == before.token
        &&& after.interest == before.interest
    }

    /// Updates the writable latch after a write; returns whether the handle
    /// must be registered again (it would block).
    pub fn after_write(&mut self, outcome: IoOutcome) -> (reregister: bool)
        ensures
            Self::wrote(*old(self), outcome, *final(self), reregister),
    {
        match outcome {
            IoOutcome::Transferred(_) => false,
            IoOutcome::WouldBlock => {
                self.is_writable = false;
                true
            },
            IoOutcome::Failed => {
                self.is_writable = false;
                false
            },
        }
    }

    /// How a byte stream reacts: an event for this handle latches its
    /// readiness and answers `Value(())`, signalling that readiness changed;
    /// another event passes unchanged; anything else is answered `Continue`.
    pub fn react_as_stream(&mut self, reaction: Reaction<()>) -> (r: Reaction<()>)
        ensures
            match reaction {
                Reaction::Event(e) => if e.token == old(self).token {
                    &&& r == Reaction::<()>::Value(())
                    &&& final(self).is_readable == (old(self).is_readable || e.readable)
                    &&& final(self).is_writable == (old(self).is_writable || e.writable)
                    &&& final(self).token == old(self).token
                    &&& final(self).interest == old(self).interest
                } else {
                    r == Reaction::<()>::Event(e) && *final(self) == *old(self)
                },
                _ => r is Continue && *final(self) == *old(self),
            },
    {
        match reaction {
            Reaction::Event(e) => {
                if self.on_event(e) {
                    Reaction::Value(())
                } else {
                    Reaction::Event(e)
                }
            },
            _ => Reaction::Continue,
        }
    }
}

/// A write that would block clears the writable latch and asks for the
/// handle to be registered again; the next writable event for the handle
/// latches it writable again, and a write that then goes through keeps it
/// so. No readiness is lost between the blocked write and the next event.
pub proof fn lemma_would_block_relatches(
    s0: HandleState,
    s1: HandleState,
    reregister: bool,
    e: Event,
    s2: HandleState,
    ours: bool,
    n: usize,
    s3: HandleState,
    again: bool,
)
    requires
        HandleState::wrote(s0, IoOutcome::WouldBlock, s1, reregister),
        HandleState::takes_event(s1, e, s2, ours),
        e.token == s0.token,
        e.writable,
        HandleState::wrote(s2, IoOutcome::Transferred(n), s3, again),
    ensures
        reregister,
        !s1.is_writable,
        ours,
        s2.is_writable,
        !again,
        s3.is_writable,
{
}

} // verus!

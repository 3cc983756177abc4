//! Composable reactors over edge-triggered readiness notifications.
//!
//! The library holds the parts of an event-driven networking core that can be
//! stated and proved: the slot vector behind the token namespace, the
//! reaction protocol with its combinators, and the decisions that the engine,
//! evented handles, listeners, signal receivers and work-stealing deques take
//! on each readiness event.
pub mod broadcast;
pub mod combinators;
pub mod consumers;
pub mod errors;
pub mod evented;
pub mod prevec;
pub mod queue;
pub mod reactor;
pub mod signal;
pub mod sources;
pub mod sync;
pub mod system;

pub use errors::Error;
pub use prevec::PreVec;
pub use reactor::{Event, Interest, MapValues, Reaction, Reactor};

//! The error kinds that the library reports.
use vstd::prelude::*;

verus! {

/// What went wrong in an operation of the library.
#[derive(Clone, Copy, Debug, PartialEq, Eq)]
pub enum Error {
    /// No live registration holds this token.
    NoConnection(usize),
    /// The connection under this token ended (peer close or a fatal I/O error).
    ConnectionRemoved(usize),
    /// A slot vector that may not grow has no vacant slot left.
    NoCapacity,
    /// A handle was registered for the first time twice.
    AlreadyRegistered,
    /// No Unix-domain connection was waiting.
    NoUdsConnection,
    /// A signal channel held nothing to receive.
    ChannelEmpty,
    /// Every sender of a signal channel is gone.
    ChannelDisconnected,
    /// A host, port or socket path was malformed.
    AddrParse,
}

} // verus!

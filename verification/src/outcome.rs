//! How a transfer stands after one attempt.

use vstd::prelude::*;

verus! {

/// The state of a transfer that has not failed.
#[derive(Clone, Copy, Debug, PartialEq, Eq, Structural)]
pub enum Progress {
    /// This many bytes moved, at least one, and more are pending.
    Progressed(usize),
    /// Nothing is left to move, whether this attempt moved the last bytes or
    /// the payload was complete before it.
    Complete,
    /// The endpoint was not ready: no byte moved, and the caller waits for
    /// the next readiness notification.
    WouldBlock,
}

/// Why a transfer failed. Each of these is final for the connection.
#[derive(Debug)]
pub enum Error {
    /// A read returned no bytes while some were still expected: the remote
    /// has closed the connection.
    PeerClosed,
    /// A write accepted no bytes while some were still to be sent.
    ZeroWrite,
    /// The endpoint reported an error other than would-block.
    Io(std::io::Error),
}

} // verus!

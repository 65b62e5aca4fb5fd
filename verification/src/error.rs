//! The ways in which a terminal session can fail.

use vstd::prelude::*;

verus! {

/// Why an operation on the terminal failed.
#[derive(Clone, Copy, Debug, PartialEq, Eq, Structural)]
pub enum TerminalError {
    /// The process is not attached to a usable terminal: its size could not
    /// be determined, or raw mode could not be enabled. Only the set-up of a
    /// controller fails in this way.
    TerminalUnavailable,
    /// A stream of the terminal failed: the output could not be flushed, or
    /// the input could not be read.
    IoFailure,
}

} // verus!

//! The error surface of the chain-extension boundary.
//!
//! Every failure that the environment or the dispatch gate can produce is one
//! of these kinds; callers see exactly one of them, and nothing is retried or
//! swallowed inside this crate.

use vstd::prelude::*;

verus! {

/// The reason a chain-extension operation was aborted.
#[derive(Clone, Copy, Debug, PartialEq, Eq, Structural)]
pub enum DispatchError {
    /// A weight charge would have exceeded the remaining budget.
    InsufficientWeight,
    /// A guest pointer/length pair reached outside guest memory.
    MemoryAccessFault,
    /// The bytes at the declared input length did not parse into the
    /// requested type.
    DecodeFailure,
    /// The guest-declared output capacity is smaller than the buffer to be
    /// written, and skipping was not requested or not applicable.
    OutputBufferTooSmall,
    /// The chain-extension gate is closed; no handler may be invoked.
    ExtensionsDisabled,
}

} // verus!

//! The error taxonomy of the core.
//!
//! Every variant is a local, recoverable condition reported to the caller; a
//! rejected query or append never corrupts the store it was aimed at.

use vstd::prelude::*;

verus! {

/// What went wrong with a storage or sweep request.
#[derive(Clone, Copy, PartialEq, Eq, Structural, Debug)]
pub enum Error {
    /// A series cannot be built with zero capacity.
    InvalidCapacity,
    /// A push arrived while the series already held `capacity` samples.
    CapacityExceeded,
    /// A positional, elapsed or timed read fell outside the valid bounds.
    OutOfRange,
    /// A timed range query ran backwards (`to` before `from`).
    InvalidRange,
    /// A parameter sweep was asked to cross a range with no candidates.
    EmptyRange,
    /// A bar append could not extend all five series as one unit.
    PartialAppendRejected,
}

} // verus!

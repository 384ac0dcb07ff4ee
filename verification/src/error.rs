//! Errors and advisory warnings.

use vstd::prelude::*;

verus! {

/// Why an operation was refused. A refused operation changes nothing.
#[derive(Clone, Copy, Debug, PartialEq, Eq)]
pub enum RailError {
    /// A distance outside the finite range was supplied.
    InvariantViolation,
    /// An index at or past the end of a list was supplied.
    IndexOutOfRange,
}

/// An advisory that accompanies a result. The operation went through.
#[derive(Clone, Copy, Debug, PartialEq, Eq)]
pub enum ValidationWarning {
    /// No rail could be hopped to, so the progress was clamped.
    HopFailed,
    /// The active point of a turnout was set back to the first one.
    CurrentPointReset,
}

} // verus!

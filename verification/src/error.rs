//! The ways an operation on the grid can be refused.

use vstd::prelude::*;

verus! {

/// Why an operation was refused. A refused operation leaves the grid as it
/// was.
#[derive(Clone, Copy, Debug, PartialEq, Eq, Structural)]
pub enum GridError {
    /// A position or an index lies outside the grid.
    BoundsError,
    /// Going on would break the invariant of the grid: no identifier is
    /// left that has not been handed out before, or an organism would be on
    /// the grid twice.
    InvariantViolation,
}

} // verus!

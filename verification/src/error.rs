//! The failures that the library reports.

use vstd::prelude::*;

verus! {

/// Why an operation was refused.
#[derive(Clone, Copy, Debug, PartialEq, Eq, Structural)]
pub enum Error {
    /// The shapes of two matrices do not fit the operation, or what a
    /// model is given has not the shape that the model takes.
    DimensionMismatch,
    /// A row or column index lies outside the matrix.
    OutOfBounds,
    /// A step size or a learning rate is not strictly positive.
    InvalidConfig,
}

} // verus!

//! The closed set of errors that the core can report.

use vstd::prelude::*;

verus! {

/// Every failure the core's operations can report.
#[derive(Clone, Copy, Debug, PartialEq, Eq, Structural)]
pub enum CoreError {
    /// An integer outside the valid sprite-index range was presented to the
    /// index-to-kind mapping.
    InvalidTileIndex,
    /// A coordinate outside the grid's extent was presented to a cell access.
    OutOfBounds,
    /// A cell was read before anything assigned it a tile kind.
    UninitializedCell,
}

} // verus!

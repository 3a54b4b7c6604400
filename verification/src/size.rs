//! Terminal dimensions.

use vstd::prelude::*;

verus! {

/// Dimensions of a terminal viewport in character cells.
#[derive(Debug, Clone, Copy, PartialEq, Eq, Structural)]
pub struct Size {
    /// Number of character rows.
    pub rows: u16,
    /// Number of character columns.
    pub cols: u16,
}

impl Size {
    /// Creates a size with the given number of rows and columns.
    pub fn new(rows: u16, cols: u16) -> (s: Size)
        ensures
            s.rows == rows,
            s.cols == cols,
    {
        Size { rows, cols }
    }
}

} // verus!

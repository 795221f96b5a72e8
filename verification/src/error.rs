//! Why a stored value could not be decoded.

use vstd::prelude::*;

verus! {

/// A stored row that does not describe a value of the data model. Columns
/// are counted from zero, in the order of the query that produced the row.
#[derive(Clone, Copy, Debug, PartialEq, Eq, Structural)]
pub enum DecodeError {
    /// The rows came in another number than was asked for.
    RowCount { expected: usize, found: usize },
    /// The row has another number of columns than the query selects.
    ColumnCount { expected: usize, found: usize },
    /// The column holds a value of another storage class than its field.
    ColumnType { column: usize },
    /// The column holds a number that its field cannot take.
    OutOfRange { column: usize },
    /// The unit column holds a code that names no unit.
    InvalidUnit { code: u32 },
    /// The column holds a text that is no hex colour.
    InvalidColor { column: usize },
}

} // verus!

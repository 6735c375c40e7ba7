use vstd::prelude::*;

verus! {

/// Why an operation on a grid was refused. A refused operation leaves the
/// grid as it was.
#[derive(Debug, Copy, Clone, PartialEq, Eq, Structural)]
pub enum GridError {
    /// A coordinate or an index lies outside the current size.
    OutOfBounds,
    /// A row or a column does not have the length the grid asks for.
    ShapeError,
    /// The capacity asked for does not fit in a `usize`.
    CapacityOverflow,
}

impl GridError {
    /// A short text for the error.
    pub fn message(&self) -> (text: &'static str)
        ensures
            text@ == match *self {
                GridError::OutOfBounds => "index out of bounds"@,
                GridError::ShapeError => "length is invalid"@,
                GridError::CapacityOverflow => "capacity overflow"@,
            },
    {
        match self {
            GridError::OutOfBounds => "index out of bounds",
            GridError::ShapeError => "length is invalid",
            GridError::CapacityOverflow => "capacity overflow",
        }
    }
}

} // verus!

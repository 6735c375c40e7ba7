use vstd::prelude::*;
use crate::coordinate::Coordinate;

verus! {

/// A number of columns and a number of rows. A size with a zero on either
/// axis describes an empty grid.
#[derive(Debug, Copy, Clone, PartialEq, Eq, Structural)]
pub struct Size {
    pub width: usize,
    pub height: usize,
}

impl Size {
    /// Whether `coordinate` addresses an element of a grid of this size.
    pub open spec fn covers(&self, coordinate: Coordinate) -> bool {
        coordinate.x < self.width && coordinate.y < self.height
    }

    pub fn new(width: usize, height: usize) -> (size: Size)
        ensures
            size == (Size { width, height }),
    {
        Size { width, height }
    }

    pub fn zero() -> (size: Size)
        ensures
            size == (Size { width: 0, height: 0 }),
    {
        Size { width: 0, height: 0 }
    }
}

} // verus!

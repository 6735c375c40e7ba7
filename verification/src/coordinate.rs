use vstd::prelude::*;

verus! {

/// The address of one element: `x` counts columns from the left, `y` counts
/// rows from the top, so `(0, 0)` is the top-left corner.
#[derive(Debug, Copy, Clone, PartialEq, Eq, Structural)]
pub struct Coordinate {
    pub x: usize,
    pub y: usize,
}

impl Coordinate {
    pub fn new(x: usize, y: usize) -> (coordinate: Coordinate)
        ensures
            coordinate == (Coordinate { x, y }),
    {
        Coordinate { x, y }
    }

    pub fn zero() -> (coordinate: Coordinate)
        ensures
            coordinate == (Coordinate { x: 0, y: 0 }),
    {
        Coordinate { x: 0, y: 0 }
    }
}

} // verus!

use vstd::prelude::*;

verus! {

/// A signed displacement, in columns and rows.
#[derive(Debug, Copy, Clone, PartialEq, Eq, Structural)]
pub struct Offset {
    pub x: isize,
    pub y: isize,
}

impl Offset {
    pub fn new(x: isize, y: isize) -> (offset: Offset)
        ensures
            offset == (Offset { x, y }),
    {
        Offset { x, y }
    }

    pub fn zero() -> (offset: Offset)
        ensures
            offset == (Offset { x: 0, y: 0 }),
    {
        Offset { x: 0, y: 0 }
    }
}

} // verus!

use vstd::prelude::*;
use crate::coordinate::Coordinate;
use crate::grid_iterator::GridIterator;

verus! {

/// A cursor that hands out what another cursor hands out, each element
/// together with its coordinate.
pub struct EnumerateCoordinate<I> {
    iterator: I,
}

impl<I> EnumerateCoordinate<I> {
    /// The cursor that this one reads from.
    pub closed spec fn inner(&self) -> I {
        self.iterator
    }

    pub fn new(iterator: I) -> (enumerator: EnumerateCoordinate<I>)
        ensures
            enumerator.inner() == iterator,
    {
        EnumerateCoordinate { iterator }
    }
}

impl<I: GridIterator> EnumerateCoordinate<I> {
    /// Hands out the next element of the inner cursor with the coordinate
    /// that the cursor gave for it, or nothing when the cursor is done.
    pub fn next(&mut self) -> (item: Option<(Coordinate, I::Item)>)
        requires
            old(self).inner().valid(),
        ensures
            item == match old(self).inner().upcoming() {
                Some(value) => Some((old(self).inner().spec_coordinate(), value)),
                None => None,
            },
            final(self).inner() == old(self).inner().advanced(),
            final(self).inner().valid(),
    {
        let coordinate = self.iterator.coordinate();
        match self.iterator.next() {
            Some(value) => Some((coordinate, value)),
            None => None,
        }
    }
}

} // verus!

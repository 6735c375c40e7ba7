use vstd::prelude::*;
use crate::coordinate::Coordinate;
use crate::enumerate_coordinate::EnumerateCoordinate;

verus! {

/// A cursor over elements of a grid: it hands out one element after the
/// other and knows the coordinate of the element that comes next.
pub trait GridIterator: Sized {
    /// What the cursor hands out.
    type Item;

    /// What `next` asks of the cursor: that its grid is valid.
    spec fn valid(&self) -> bool;

    /// The coordinate of the element that comes next.
    spec fn spec_coordinate(&self) -> Coordinate;

    /// The element that comes next, if one is left.
    spec fn upcoming(&self) -> Option<Self::Item>;

    /// The cursor as `next` leaves it.
    spec fn advanced(&self) -> Self;

    /// Hands out the element that comes next and moves on, or hands out
    /// nothing and stays when no element is left.
    fn next(&mut self) -> (item: Option<Self::Item>)
        requires
            old(self).valid(),
        ensures
            item == old(self).upcoming(),
            *final(self) == old(self).advanced(),
            final(self).valid(),
    ;

    /// The coordinate of the element that comes next.
    fn coordinate(&self) -> (coordinate: Coordinate)
        ensures
            coordinate == self.spec_coordinate(),
    ;

    /// A cursor that hands out each element together with its coordinate.
    fn enumerate_coordinate(self) -> (enumerator: EnumerateCoordinate<Self>)
        ensures
            enumerator.inner() == self,
    {
        EnumerateCoordinate::new(self)
    }
}

} // verus!

use vstd::prelude::*;
use crate::coordinate::Coordinate;
use crate::grid_iterator::GridIterator;
use crate::row::Row;

verus! {

/// A cursor over the elements of one row, from left to right.
pub struct IteratorRow<'a, T> {
    row: Row<'a, T>,
    index: usize,
}

impl<'a, T: Clone> IteratorRow<'a, T> {
    /// The row that the cursor reads.
    pub closed spec fn row(&self) -> Row<'a, T> {
        self.row
    }

    /// The position in the row that the cursor stands at.
    pub closed spec fn position(&self) -> usize {
        self.index
    }

    /// The cursor over `row` that stands at `position`.
    pub closed spec fn at(row: Row<'a, T>, position: usize) -> Self {
        IteratorRow { row, index: position }
    }

    /// A cursor is its row and its position.
    pub broadcast proof fn lemma_at(row: Row<'a, T>, position: usize)
        ensures
            (#[trigger] Self::at(row, position)).row() == row,
            Self::at(row, position).position() == position,
    {
    }

    /// Whether an element is left: the row lies within the grid and the
    /// position within the row.
    pub open spec fn has_next(&self) -> bool {
        self.row().in_grid() && self.position() < self.row().grid.spec_size().width
    }

    /// A cursor at the left end of `row`.
    pub fn new(row: Row<'a, T>) -> (iterator: IteratorRow<'a, T>)
        ensures
            iterator == Self::at(row, 0),
    {
        IteratorRow { row, index: 0 }
    }
}

impl<'a, T: Clone> GridIterator for IteratorRow<'a, T> {
    type Item = &'a T;

    open spec fn valid(&self) -> bool {
        self.row().grid.wf()
    }

    open spec fn spec_coordinate(&self) -> Coordinate {
        Coordinate { x: self.position(), y: self.row().index }
    }

    open spec fn upcoming(&self) -> Option<&'a T> {
        if self.has_next() {
            Some(&self.row()@[self.position() as int])
        } else {
            None
        }
    }

    open spec fn advanced(&self) -> Self {
        if self.has_next() {
            Self::at(self.row(), (self.position() + 1) as usize)
        } else {
            *self
        }
    }

    fn next(&mut self) -> (item: Option<&'a T>) {
        match self.row.value(self.index) {
            Ok(value) => {
                self.index += 1;
                Some(value)
            },
            Err(_) => None,
        }
    }

    fn coordinate(&self) -> (coordinate: Coordinate) {
        Coordinate::new(self.index, self.row.index)
    }
}

} // verus!

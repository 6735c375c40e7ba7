use vstd::prelude::*;
use crate::coordinate::Coordinate;
use crate::grid_iterator::GridIterator;
use crate::column::Column;

verus! {

/// A cursor over the elements of one column, from top to bottom.
pub struct IteratorColumn<'a, T> {
    column: Column<'a, T>,
    index: usize,
}

impl<'a, T: Clone> IteratorColumn<'a, T> {
    /// The column that the cursor reads.
    pub closed spec fn column(&self) -> Column<'a, T> {
        self.column
    }

    /// The position in the column that the cursor stands at.
    pub closed spec fn position(&self) -> usize {
        self.index
    }

    /// The cursor over `column` that stands at `position`.
    pub closed spec fn at(column: Column<'a, T>, position: usize) -> Self {
        IteratorColumn { column, index: position }
    }

    /// A cursor is its column and its position.
    pub broadcast proof fn lemma_at(column: Column<'a, T>, position: usize)
        ensures
            (#[trigger] Self::at(column, position)).column() == column,
            Self::at(column, position).position() == position,
    {
    }

    /// Whether an element is left: the column lies within the grid and the
    /// position within the column.
    pub open spec fn has_next(&self) -> bool {
        self.column().in_grid() && self.position() < self.column().grid.spec_size().height
    }

    /// A cursor at the top of `column`.
    pub fn new(column: Column<'a, T>) -> (iterator: IteratorColumn<'a, T>)
        ensures
            iterator == Self::at(column, 0),
    {
        IteratorColumn { column, index: 0 }
    }
}

impl<'a, T: Clone> GridIterator for IteratorColumn<'a, T> {
    type Item = &'a T;

    open spec fn valid(&self) -> bool {
        self.column().grid.wf()
    }

    open spec fn spec_coordinate(&self) -> Coordinate {
        Coordinate { x: self.column().index, y: self.position() }
    }

    open spec fn upcoming(&self) -> Option<&'a T> {
        if self.has_next() {
            Some(&self.column()@[self.position() as int])
        } else {
            None
        }
    }

    open spec fn advanced(&self) -> Self {
        if self.has_next() {
            Self::at(self.column(), (self.position() + 1) as usize)
        } else {
            *self
        }
    }

    fn next(&mut self) -> (item: Option<&'a T>) {
        match self.column.value(self.index) {
            Ok(value) => {
                self.index += 1;
                Some(value)
            },
            Err(_) => None,
        }
    }

    fn coordinate(&self) -> (coordinate: Coordinate) {
        Coordinate::new(self.column.index, self.index)
    }
}

} // verus!

use vstd::prelude::*;
use crate::coordinate::Coordinate;
use crate::grid::Grid;
use crate::grid_iterator::GridIterator;

verus! {

/// A cursor over all the elements of a grid in reading order: row after
/// row, each from left to right.
pub struct IteratorGrid<'a, T> {
    grid: &'a Grid<T>,
    coordinate: Coordinate,
}

impl<'a, T> IteratorGrid<'a, T> {
    /// The grid that the cursor reads.
    pub closed spec fn grid(&self) -> &'a Grid<T> {
        self.grid
    }

    /// The coordinate that the cursor stands at.
    pub closed spec fn position(&self) -> Coordinate {
        self.coordinate
    }

    /// The cursor over `grid` that stands at `position`.
    pub closed spec fn at(grid: &'a Grid<T>, position: Coordinate) -> Self {
        IteratorGrid { grid, coordinate: position }
    }

    /// A cursor is its grid and its position.
    pub broadcast proof fn lemma_at(grid: &'a Grid<T>, position: Coordinate)
        ensures
            (#[trigger] Self::at(grid, position)).grid() == grid,
            Self::at(grid, position).position() == position,
    {
    }

    /// Whether an element is left: the position lies within the grid.
    pub open spec fn has_next(&self) -> bool {
        self.position().x < self.grid().spec_size().width && self.position().y
            < self.grid().spec_size().height
    }

    /// The position after the one the cursor stands at: one to the right,
    /// or the start of the next row after the end of a row.
    pub open spec fn next_position(&self) -> Coordinate {
        if self.position().x + 1 == self.grid().spec_size().width {
            Coordinate { x: 0, y: (self.position().y + 1) as usize }
        } else {
            Coordinate { x: (self.position().x + 1) as usize, y: self.position().y }
        }
    }

    /// A cursor at the top-left corner of `grid`.
    pub fn new(grid: &'a Grid<T>) -> (iterator: IteratorGrid<'a, T>)
        ensures
            iterator == Self::at(grid, Coordinate { x: 0, y: 0 }),
    {
        IteratorGrid { grid, coordinate: Coordinate::new(0, 0) }
    }
}

impl<'a, T: Clone> GridIterator for IteratorGrid<'a, T> {
    type Item = &'a T;

    open spec fn valid(&self) -> bool {
        self.grid().wf()
    }

    open spec fn spec_coordinate(&self) -> Coordinate {
        self.position()
    }

    open spec fn upcoming(&self) -> Option<&'a T> {
        if self.has_next() {
            Some(&self.grid()@[self.position().y as int][self.position().x as int])
        } else {
            None
        }
    }

    open spec fn advanced(&self) -> Self {
        if self.has_next() {
            Self::at(self.grid(), self.next_position())
        } else {
            *self
        }
    }

    fn next(&mut self) -> (item: Option<&'a T>) {
        match self.grid.value(self.coordinate) {
            Ok(value) => {
                if self.coordinate.x + 1 == self.grid.size().width {
                    self.coordinate.x = 0;
                    self.coordinate.y += 1;
                } else {
                    self.coordinate.x += 1;
                }
                Some(value)
            },
            Err(_) => None,
        }
    }

    fn coordinate(&self) -> (coordinate: Coordinate) {
        self.coordinate
    }
}

} // verus!

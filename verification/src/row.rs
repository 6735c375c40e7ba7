use vstd::prelude::*;
use crate::coordinate::Coordinate;
use crate::error::GridError;
use crate::grid::Grid;
use crate::iterator_row::IteratorRow;

verus! {

/// A view of one row of a grid: the grid and the row's index. Position `x`
/// of the view is the element at coordinate `(x, index)`.
#[derive(Debug, PartialEq, Eq)]
pub struct Row<'a, T> {
    pub grid: &'a Grid<T>,
    pub index: usize,
}

impl<'a, T> Clone for Row<'a, T> {
    fn clone(&self) -> (row: Self)
        ensures
            row == *self,
    {
        Row { grid: self.grid, index: self.index }
    }
}

impl<'a, T: Clone> Row<'a, T> {
    /// Whether the view addresses a row of its grid.
    pub open spec fn in_grid(&self) -> bool {
        self.index < self.grid.spec_size().height
    }

    /// The elements of the row, from left to right.
    pub open spec fn view(&self) -> Seq<T> {
        self.grid@[self.index as int]
    }

    /// The number of elements in the row.
    pub fn length(&self) -> (length: usize)
        ensures
            length == self.grid.spec_size().width,
    {
        self.grid.size().width
    }

    /// The element at position `index`.
    pub fn value(&self, index: usize) -> (result: Result<&'a T, GridError>)
        requires
            self.grid.wf(),
        ensures
            match result {
                Ok(value) => self.in_grid() && index < self.grid.spec_size().width && *value
                    == self@[index as int],
                Err(error) => error == GridError::OutOfBounds && !(self.in_grid() && index
                    < self.grid.spec_size().width),
            },
    {
        self.grid.value(Coordinate::new(index, self.index))
    }

    /// The elements of the row, from left to right.
    pub fn values(&self) -> (result: Result<Vec<&'a T>, GridError>)
        requires
            self.grid.wf(),
        ensures
            match result {
                Ok(values) => {
                    &&& self.in_grid()
                    &&& values@.len() == self@.len()
                    &&& forall|x: int|
                        0 <= x < values@.len() ==> *(#[trigger] values@[x]) == self@[x]
                },
                Err(error) => error == GridError::OutOfBounds && !self.in_grid(),
            },
    {
        let size = self.grid.size();
        if self.index >= size.height {
            return Err(GridError::OutOfBounds);
        }
        proof {
            self.grid.lemma_shape();
        }
        let mut values: Vec<&'a T> = Vec::new();
        let mut x: usize = 0;
        while x < size.width
            invariant
                x <= size.width,
                self.grid.wf(),
                self.in_grid(),
                size == self.grid.spec_size(),
                values@.len() == x,
                forall|i: int| 0 <= i < x ==> *(#[trigger] values@[i]) == self@[i],
            decreases size.width - x,
        {
            match self.grid.value(Coordinate::new(x, self.index)) {
                Ok(value) => values.push(value),
                Err(_) => {},
            }
            x += 1;
        }
        Ok(values)
    }

    /// The first element of the row.
    pub fn left(&self) -> (result: Result<&'a T, GridError>)
        requires
            self.grid.wf(),
        ensures
            match result {
                Ok(value) => self.in_grid() && 0 < self.grid.spec_size().width && *value
                    == self@[0],
                Err(error) => error == GridError::OutOfBounds && !(self.in_grid() && 0
                    < self.grid.spec_size().width),
            },
    {
        self.grid.value(Coordinate::new(0, self.index))
    }

    /// The last element of the row.
    pub fn right(&self) -> (result: Result<&'a T, GridError>)
        requires
            self.grid.wf(),
        ensures
            match result {
                Ok(value) => self.in_grid() && 0 < self.grid.spec_size().width && *value
                    == self@[self.grid.spec_size().width - 1],
                Err(error) => error == GridError::OutOfBounds && !(self.in_grid() && 0
                    < self.grid.spec_size().width),
            },
    {
        let width = self.grid.size().width;
        if width == 0 {
            return Err(GridError::OutOfBounds);
        }
        self.grid.value(Coordinate::new(width - 1, self.index))
    }

    /// The row above this one, if this is not the first row.
    pub fn top(&self) -> (result: Option<Row<'a, T>>)
        ensures
            match result {
                Some(row) => 0 < self.index && row.index == self.index - 1 && row.grid
                    == self.grid,
                None => self.index == 0,
            },
    {
        if self.index == 0 {
            None
        } else {
            Some(Row { grid: self.grid, index: self.index - 1 })
        }
    }

    /// The row below this one, if there is a row below it in the grid.
    pub fn bottom(&self) -> (result: Option<Row<'a, T>>)
        ensures
            match result {
                Some(row) => self.index + 1 < self.grid.spec_size().height && row.index
                    == self.index + 1 && row.grid == self.grid,
                None => self.index + 1 >= self.grid.spec_size().height,
            },
    {
        let height = self.grid.size().height;
        if height == 0 || self.index >= height - 1 {
            None
        } else {
            Some(Row { grid: self.grid, index: self.index + 1 })
        }
    }

    /// A cursor over the elements of the row, at its start.
    pub fn iterator(&self) -> (iterator: IteratorRow<'a, T>)
        ensures
            iterator == IteratorRow::at(*self, 0),
    {
        IteratorRow::new(Row { grid: self.grid, index: self.index })
    }
}

} // verus!

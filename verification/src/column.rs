use vstd::prelude::*;
use crate::coordinate::Coordinate;
use crate::error::GridError;
use crate::grid::Grid;
use crate::iterator_column::IteratorColumn;
use crate::model::column_of;

verus! {

/// A view of one column of a grid: the grid and the column's index.
/// Position `y` of the view is the element at coordinate `(index, y)`.
#[derive(Debug, PartialEq, Eq)]
pub struct Column<'a, T> {
    pub grid: &'a Grid<T>,
    pub index: usize,
}

impl<'a, T> Clone for Column<'a, T> {
    fn clone(&self) -> (column: Self)
        ensures
            column == *self,
    {
        Column { grid: self.grid, index: self.index }
    }
}

impl<'a, T: Clone> Column<'a, T> {
    /// Whether the view addresses a column of its grid.
    pub open spec fn in_grid(&self) -> bool {
        self.index < self.grid.spec_size().width
    }

    /// The elements of the column, from top to bottom.
    pub open spec fn view(&self) -> Seq<T> {
        column_of(self.grid@, self.index as int)
    }

    /// The number of elements in the column.
    pub fn length(&self) -> (length: usize)
        ensures
            length == self.grid.spec_size().height,
    {
        self.grid.size().height
    }

    /// The element at position `index`.
    pub fn value(&self, index: usize) -> (result: Result<&'a T, GridError>)
        requires
            self.grid.wf(),
        ensures
            match result {
                Ok(value) => self.in_grid() && index < self.grid.spec_size().height && *value
                    == self@[index as int],
                Err(error) => error == GridError::OutOfBounds && !(self.in_grid() && index
                    < self.grid.spec_size().height),
            },
    {
        proof {
            self.grid.lemma_shape();
        }
        self.grid.value(Coordinate::new(self.index, index))
    }

    /// The elements of the column, from top to bottom.
    pub fn values(&self) -> (result: Result<Vec<&'a T>, GridError>)
        requires
            self.grid.wf(),
        ensures
            match result {
                Ok(values) => {
                    &&& self.in_grid()
                    &&& values@.len() == self@.len()
                    &&& forall|y: int|
                        0 <= y < values@.len() ==> *(#[trigger] values@[y]) == self@[y]
                },
                Err(error) => error == GridError::OutOfBounds && !self.in_grid(),
            },
    {
        let size = self.grid.size();
        if self.index >= size.width {
            return Err(GridError::OutOfBounds);
        }
        proof {
            self.grid.lemma_shape();
        }
        let mut values: Vec<&'a T> = Vec::new();
        let mut y: usize = 0;
        while y < size.height
            invariant
                y <= size.height,
                self.grid.wf(),
                self.in_grid(),
                size == self.grid.spec_size(),
                self.grid@.len() == size.height,
                values@.len() == y,
                forall|i: int| 0 <= i < y ==> *(#[trigger] values@[i]) == self@[i],
            decreases size.height - y,
        {
            match self.grid.value(Coordinate::new(self.index, y)) {
                Ok(value) => values.push(value),
                Err(_) => {},
            }
            y += 1;
        }
        Ok(values)
    }

    /// The first element of the column.
    pub fn top(&self) -> (result: Result<&'a T, GridError>)
        requires
            self.grid.wf(),
        ensures
            match result {
                Ok(value) => self.in_grid() && 0 < self.grid.spec_size().height && *value
                    == self@[0],
                Err(error) => error == GridError::OutOfBounds && !(self.in_grid() && 0
                    < self.grid.spec_size().height),
            },
    {
        self.value(0)
    }

    /// The last element of the column.
    pub fn bottom(&self) -> (result: Result<&'a T, GridError>)
        requires
            self.grid.wf(),
        ensures
            match result {
                Ok(value) => self.in_grid() && 0 < self.grid.spec_size().height && *value
                    == self@[self.grid.spec_size().height - 1],
                Err(error) => error == GridError::OutOfBounds && !(self.in_grid() && 0
                    < self.grid.spec_size().height),
            },
    {
        let height = self.grid.size().height;
        if height == 0 {
            return Err(GridError::OutOfBounds);
        }
        self.value(height - 1)
    }

    /// The column left of this one, if this is not the first column.
    pub fn left(&self) -> (result: Option<Column<'a, T>>)
        ensures
            match result {
                Some(column) => 0 < self.index && column.index == self.index - 1 && column.grid
                    == self.grid,
                None => self.index == 0,
            },
    {
        if self.index == 0 {
            None
        } else {
            Some(Column { grid: self.grid, index: self.index - 1 })
        }
    }

    /// The column right of this one, if there is a column right of it in
    /// the grid.
    pub fn right(&self) -> (result: Option<Column<'a, T>>)
        ensures
            match result {
                Some(column) => self.index + 1 < self.grid.spec_size().width && column.index
                    == self.index + 1 && column.grid == self.grid,
                None => self.index + 1 >= self.grid.spec_size().width,
            },
    {
        let width = self.grid.size().width;
        if width == 0 || self.index >= width - 1 {
            None
        } else {
            Some(Column { grid: self.grid, index: self.index + 1 })
        }
    }

    /// A cursor over the elements of the column, at its start.
    pub fn iterator(&self) -> (iterator: IteratorColumn<'a, T>)
        ensures
            iterator == IteratorColumn::at(*self, 0),
    {
        IteratorColumn::new(Column { grid: self.grid, index: self.index })
    }
}

} // verus!

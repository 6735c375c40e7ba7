use vstd::prelude::*;
use crate::buffer::{exchange, reverse, turn_left, turn_right, turned_left, turned_right};
use crate::coordinate::Coordinate;
use crate::error::GridError;
use crate::grid::Grid;
use crate::iterator_row::IteratorRow;
use crate::model::exchanged;
use crate::row::Row;

verus! {

/// A view of one row of a grid through which the row can be changed: the
/// grid, borrowed for the time of the view, and the row's index. Position
/// `x` of the view is the element at coordinate `(x, index)`.
#[derive(Debug, PartialEq, Eq)]
pub struct RowMut<'a, T> {
    pub grid: &'a mut Grid<T>,
    pub index: usize,
}

impl<'a, T: Clone> RowMut<'a, T> {
    /// Whether the view addresses a row of its grid.
    pub open spec fn in_grid(&self) -> bool {
        self.index < self.grid.spec_size().height
    }

    /// The elements of the row, from left to right.
    pub open spec fn view(&self) -> Seq<T> {
        self.grid@[self.index as int]
    }

    /// The number of elements in the row.
    pub open spec fn width(&self) -> usize {
        self.grid.spec_size().width
    }

    /// The number of rows in the grid.
    pub open spec fn height(&self) -> usize {
        self.grid.spec_size().height
    }

    /// What a change through the view leaves as it was: the index, the
    /// grid's validity, size and capacity, and every other row.
    pub open spec fn row_changed(before: &Self, after: &Self) -> bool {
        &&& after.index == before.index
        &&& after.grid.wf()
        &&& after.grid.spec_size() == before.grid.spec_size()
        &&& after.grid.spec_capacity() == before.grid.spec_capacity()
        &&& after.grid@.len() == before.grid@.len()
        &&& forall|y: int|
            0 <= y < before.grid@.len() && y != before.index ==> after.grid@[y] == before.grid@[y]
    }

    /// The number of elements in the row.
    pub fn length(&self) -> (length: usize)
        ensures
            length == self.width(),
    {
        self.grid.size().width
    }

    /// The element at position `index`.
    pub fn value(&self, index: usize) -> (result: Result<&T, GridError>)
        requires
            self.grid.wf(),
        ensures
            match result {
                Ok(value) => self.in_grid() && index < self.width() && *value
                    == self@[index as int],
                Err(error) => error == GridError::OutOfBounds && !(self.in_grid() && index
                    < self.width()),
            },
    {
        self.grid.value(Coordinate::new(index, self.index))
    }

    /// A mutable reference to the element at position `index`.
    pub fn value_mut(&mut self, index: usize) -> (result: Result<&mut T, GridError>)
        requires
            old(self).grid.wf(),
        ensures
            *final(final(self).grid) == *final(old(self).grid),
            Self::row_changed(old(self), final(self)),
            match result {
                Ok(value) => {
                    &&& old(self).in_grid()
                    &&& index < old(self).grid.spec_size().width
                    &&& *value == old(self)@[index as int]
                    &&& final(self)@ == old(self)@.update(index as int, *final(value))
                },
                Err(error) => {
                    &&& error == GridError::OutOfBounds
                    &&& !(old(self).in_grid() && index < old(self).grid.spec_size().width)
                    &&& final(self).grid@ == old(self).grid@
                },
            },
    {
        proof {
            self.grid.lemma_shape();
        }
        self.grid.value_mut(Coordinate::new(index, self.index))
    }

    /// Replaces the element at position `index` by `value`.
    pub fn set_value(&mut self, index: usize, value: T) -> (result: Result<(), GridError>)
        requires
            old(self).grid.wf(),
        ensures
            *final(final(self).grid) == *final(old(self).grid),
            Self::row_changed(old(self), final(self)),
            match result {
                Ok(_) => {
                    &&& old(self).in_grid()
                    &&& index < old(self).grid.spec_size().width
                    &&& final(self)@ == old(self)@.update(index as int, value)
                },
                Err(error) => {
                    &&& error == GridError::OutOfBounds
                    &&& !(old(self).in_grid() && index < old(self).grid.spec_size().width)
                    &&& final(self).grid@ == old(self).grid@
                },
            },
    {
        proof {
            self.grid.lemma_shape();
        }
        self.grid.set_value(Coordinate::new(index, self.index), value)
    }

    /// Exchanges the elements at positions `a` and `b`.
    pub fn swap_value(&mut self, a: usize, b: usize) -> (result: Result<(), GridError>)
        requires
            old(self).grid.wf(),
        ensures
            *final(final(self).grid) == *final(old(self).grid),
            Self::row_changed(old(self), final(self)),
            match result {
                Ok(_) => {
                    &&& old(self).in_grid()
                    &&& a < old(self).width()
                    &&& b < old(self).width()
                    &&& final(self)@ == exchanged(old(self)@, a as int, b as int)
                },
                Err(error) => {
                    &&& error == GridError::OutOfBounds
                    &&& !(old(self).in_grid() && a < old(self).width() && b < old(self).width())
                    &&& final(self).grid@ == old(self).grid@
                },
            },
    {
        proof {
            self.grid.lemma_shape();
        }
        self.grid.swap_value(Coordinate::new(a, self.index), Coordinate::new(b, self.index))
    }

    /// The elements of the row, from left to right.
    pub fn values(&self) -> (result: Result<Vec<&T>, GridError>)
        requires
            self.grid.wf(),
        ensures
            match result {
                Ok(values) => {
                    &&& self.in_grid()
                    &&& values@.len() == self@.len()
                    &&& forall|x: int|
                        0 <= x < values@.len() ==> *(#[trigger] values@[x]) == self@[x]
                },
                Err(error) => error == GridError::OutOfBounds && !self.in_grid(),
            },
    {
        let row = Row { grid: &*self.grid, index: self.index };
        row.values()
    }

    /// The first element of the row.
    pub fn left(&self) -> (result: Result<&T, GridError>)
        requires
            self.grid.wf(),
        ensures
            match result {
                Ok(value) => self.in_grid() && 0 < self.width() && *value == self@[0],
                Err(error) => error == GridError::OutOfBounds && !(self.in_grid() && 0
                    < self.width()),
            },
    {
        self.grid.value(Coordinate::new(0, self.index))
    }

    /// A mutable reference to the first element of the row.
    pub fn left_mut(&mut self) -> (result: Result<&mut T, GridError>)
        requires
            old(self).grid.wf(),
        ensures
            *final(final(self).grid) == *final(old(self).grid),
            Self::row_changed(old(self), final(self)),
            match result {
                Ok(value) => {
                    &&& old(self).in_grid()
                    &&& 0 < old(self).width()
                    &&& *value == old(self)@[0]
                    &&& final(self)@ == old(self)@.update(0, *final(value))
                },
                Err(error) => {
                    &&& error == GridError::OutOfBounds
                    &&& !(old(self).in_grid() && 0 < old(self).width())
                    &&& final(self).grid@ == old(self).grid@
                },
            },
    {
        self.value_mut(0)
    }

    /// The last element of the row.
    pub fn right(&self) -> (result: Result<&T, GridError>)
        requires
            self.grid.wf(),
        ensures
            match result {
                Ok(value) => self.in_grid() && 0 < self.width() && *value == self@[self.width()
                    - 1],
                Err(error) => error == GridError::OutOfBounds && !(self.in_grid() && 0
                    < self.width()),
            },
    {
        let width = self.grid.size().width;
        if width == 0 {
            return Err(GridError::OutOfBounds);
        }
        self.grid.value(Coordinate::new(width - 1, self.index))
    }

    /// A mutable reference to the last element of the row.
    pub fn right_mut(&mut self) -> (result: Result<&mut T, GridError>)
        requires
            old(self).grid.wf(),
        ensures
            *final(final(self).grid) == *final(old(self).grid),
            Self::row_changed(old(self), final(self)),
            match result {
                Ok(value) => {
                    &&& old(self).in_grid()
                    &&& 0 < old(self).width()
                    &&& *value == old(self)@[old(self).width() - 1]
                    &&& final(self)@ == old(self)@.update(old(self).width() - 1, *final(value))
                },
                Err(error) => {
                    &&& error == GridError::OutOfBounds
                    &&& !(old(self).in_grid() && 0 < old(self).width())
                    &&& final(self).grid@ == old(self).grid@
                },
            },
    {
        let width = self.grid.size().width;
        if width == 0 {
            return Err(GridError::OutOfBounds);
        }
        self.value_mut(width - 1)
    }

    /// A view of the row above this one, if this is not the first row.
    pub fn top(&self) -> (result: Option<Row<'_, T>>)
        ensures
            match result {
                Some(row) => 0 < self.index && row.index == self.index - 1 && *row.grid
                    == self.grid_value(),
                None => self.index == 0,
            },
    {
        if self.index == 0 {
            None
        } else {
            Some(Row { grid: &*self.grid, index: self.index - 1 })
        }
    }

    /// The grid as the view holds it.
    pub open spec fn grid_value(&self) -> Grid<T> {
        *self.grid
    }

    /// A view of the row above this one through which the grid can be
    /// changed, if this is not the first row. While it lives this view
    /// rests; afterwards this view holds the grid that the other one left.
    pub fn top_mut(&mut self) -> (result: Option<RowMut<'_, T>>)
        ensures
            *final(final(self).grid) == *final(old(self).grid),
            final(self).index == old(self).index,
            match result {
                Some(row) => {
                    &&& 0 < old(self).index
                    &&& row.index == old(self).index - 1
                    &&& *row.grid == *old(self).grid
                    &&& *final(row.grid) == *final(self).grid
                },
                None => old(self).index == 0 && *final(self).grid == *old(self).grid,
            },
    {
        if self.index == 0 {
            None
        } else {
            Some(RowMut { grid: &mut *self.grid, index: self.index - 1 })
        }
    }

    /// A view of the row below this one, if there is a row below it in the
    /// grid.
    pub fn bottom(&self) -> (result: Option<Row<'_, T>>)
        ensures
            match result {
                Some(row) => self.index + 1 < self.height() && row.index == self.index + 1
                    && *row.grid == self.grid_value(),
                None => self.index + 1 >= self.height(),
            },
    {
        let height = self.grid.size().height;
        if height == 0 || self.index >= height - 1 {
            None
        } else {
            Some(Row { grid: &*self.grid, index: self.index + 1 })
        }
    }

    /// A view of the row below this one through which the grid can be
    /// changed, if there is a row below it in the grid. While it lives this
    /// view rests; afterwards this view holds the grid that the other one
    /// left.
    pub fn bottom_mut(&mut self) -> (result: Option<RowMut<'_, T>>)
        ensures
            *final(final(self).grid) == *final(old(self).grid),
            final(self).index == old(self).index,
            match result {
                Some(row) => {
                    &&& old(self).index + 1 < old(self).height()
                    &&& row.index == old(self).index + 1
                    &&& *row.grid == *old(self).grid
                    &&& *final(row.grid) == *final(self).grid
                },
                None => old(self).index + 1 >= old(self).height() && *final(self).grid == *old(
                    self,
                ).grid,
            },
    {
        let height = self.grid.size().height;
        if height == 0 || self.index >= height - 1 {
            None
        } else {
            Some(RowMut { grid: &mut *self.grid, index: self.index + 1 })
        }
    }

    /// Reverses the row in place.
    pub fn reverse(&mut self) -> (result: Result<(), GridError>)
        requires
            old(self).grid.wf(),
        ensures
            *final(final(self).grid) == *final(old(self).grid),
            Self::row_changed(old(self), final(self)),
            match result {
                Ok(_) => old(self).in_grid() && final(self)@ == old(self)@.reverse(),
                Err(error) => {
                    &&& error == GridError::OutOfBounds
                    &&& !old(self).in_grid()
                    &&& final(self).grid@ == old(self).grid@
                },
            },
    {
        proof {
            self.grid.lemma_shape();
        }
        match self.grid.row_slice(self.index) {
            Ok(slice) => {
                reverse(slice);
                Ok(())
            },
            Err(error) => Err(error),
        }
    }

    /// Turns the row `number` places to the left in place: the element at
    /// position `number` comes first. `number` may be anything up to the
    /// length of the row.
    pub fn rotate_left(&mut self, number: usize) -> (result: Result<(), GridError>)
        requires
            old(self).grid.wf(),
        ensures
            *final(final(self).grid) == *final(old(self).grid),
            Self::row_changed(old(self), final(self)),
            match result {
                Ok(_) => {
                    &&& old(self).in_grid()
                    &&& number <= old(self).width()
                    &&& final(self)@ == turned_left(old(self)@, number as int)
                },
                Err(error) => {
                    &&& error == GridError::OutOfBounds
                    &&& !(old(self).in_grid() && number <= old(self).width())
                    &&& final(self).grid@ == old(self).grid@
                },
            },
    {
        proof {
            self.grid.lemma_shape();
        }
        if number > self.grid.size().width {
            return Err(GridError::OutOfBounds);
        }
        match self.grid.row_slice(self.index) {
            Ok(slice) => {
                turn_left(slice, number);
                Ok(())
            },
            Err(error) => Err(error),
        }
    }

    /// Turns the row `number` places to the right in place: the last
    /// `number` elements come first. `number` may be anything up to the
    /// length of the row.
    pub fn rotate_right(&mut self, number: usize) -> (result: Result<(), GridError>)
        requires
            old(self).grid.wf(),
        ensures
            *final(final(self).grid) == *final(old(self).grid),
            Self::row_changed(old(self), final(self)),
            match result {
                Ok(_) => {
                    &&& old(self).in_grid()
                    &&& number <= old(self).width()
                    &&& final(self)@ == turned_right(old(self)@, number as int)
                },
                Err(error) => {
                    &&& error == GridError::OutOfBounds
                    &&& !(old(self).in_grid() && number <= old(self).width())
                    &&& final(self).grid@ == old(self).grid@
                },
            },
    {
        proof {
            self.grid.lemma_shape();
        }
        if number > self.grid.size().width {
            return Err(GridError::OutOfBounds);
        }
        match self.grid.row_slice(self.index) {
            Ok(slice) => {
                turn_right(slice, number);
                Ok(())
            },
            Err(error) => Err(error),
        }
    }

    /// Exchanges the elements at positions `a` and `b`.
    pub fn swap(&mut self, a: usize, b: usize) -> (result: Result<(), GridError>)
        requires
            old(self).grid.wf(),
        ensures
            *final(final(self).grid) == *final(old(self).grid),
            Self::row_changed(old(self), final(self)),
            match result {
                Ok(_) => {
                    &&& old(self).in_grid()
                    &&& a < old(self).width()
                    &&& b < old(self).width()
                    &&& final(self)@ == exchanged(old(self)@, a as int, b as int)
                },
                Err(error) => {
                    &&& error == GridError::OutOfBounds
                    &&& !(old(self).in_grid() && a < old(self).width() && b < old(self).width())
                    &&& final(self).grid@ == old(self).grid@
                },
            },
    {
        proof {
            self.grid.lemma_shape();
        }
        if !(a < self.grid.size().width && b < self.grid.size().width) {
            return Err(GridError::OutOfBounds);
        }
        match self.grid.row_slice(self.index) {
            Ok(slice) => {
                exchange(slice, a, b);
                Ok(())
            },
            Err(error) => Err(error),
        }
    }

    /// The view as one that only reads.
    pub open spec fn as_row(&self) -> Row<'_, T> {
        Row { grid: &*self.grid, index: self.index }
    }

    /// A cursor over the elements of the row, at its start.
    pub fn iterator(&self) -> (iterator: IteratorRow<'_, T>)
        ensures
            iterator == IteratorRow::at(self.as_row(), 0),
    {
        IteratorRow::new(Row { grid: &*self.grid, index: self.index })
    }
}

} // verus!

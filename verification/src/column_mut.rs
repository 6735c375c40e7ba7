use vstd::prelude::*;
use crate::buffer::{range_reversed, turned_left, turned_right};
use crate::column::Column;
use crate::coordinate::Coordinate;
use crate::error::GridError;
use crate::grid::Grid;
use crate::iterator_column::IteratorColumn;
use crate::model::{column_of, exchanged};

verus! {

/// A view of one column of a grid through which the column can be changed:
/// the grid, borrowed for the time of the view, and the column's index.
/// Position `y` of the view is the element at coordinate `(index, y)`.
#[derive(Debug, PartialEq, Eq)]
pub struct ColumnMut<'a, T> {
    pub grid: &'a mut Grid<T>,
    pub index: usize,
}

impl<'a, T: Clone> ColumnMut<'a, T> {
    /// Whether the view addresses a column of its grid.
    pub open spec fn in_grid(&self) -> bool {
        self.index < self.grid.spec_size().width
    }

    /// The elements of the column, from top to bottom.
    pub open spec fn view(&self) -> Seq<T> {
        column_of(self.grid@, self.index as int)
    }

    /// The number of columns in the grid.
    pub open spec fn width(&self) -> usize {
        self.grid.spec_size().width
    }

    /// The number of elements in the column.
    pub open spec fn height(&self) -> usize {
        self.grid.spec_size().height
    }

    /// The grid as the view holds it.
    pub open spec fn grid_value(&self) -> Grid<T> {
        *self.grid
    }

    /// What a change through the view leaves as it was: the index, the
    /// grid's validity, size and capacity, and every other column.
    pub open spec fn column_changed(before: &Self, after: &Self) -> bool {
        &&& after.index == before.index
        &&& after.grid.wf()
        &&& after.grid.spec_size() == before.grid.spec_size()
        &&& after.grid.spec_capacity() == before.grid.spec_capacity()
        &&& after.grid@.len() == before.grid@.len()
        &&& forall|x: int, y: int|
            #![trigger after.grid@[y][x]]
            0 <= y < before.grid@.len() && 0 <= x < before.grid.spec_size().width && x
                != before.index ==> after.grid@[y][x] == before.grid@[y][x]
    }

    /// The number of elements in the column.
    pub fn length(&self) -> (length: usize)
        ensures
            length == self.height(),
    {
        self.grid.size().height
    }

    /// The element at position `index`.
    pub fn value(&self, index: usize) -> (result: Result<&T, GridError>)
        requires
            self.grid.wf(),
        ensures
            match result {
                Ok(value) => self.in_grid() && index < self.height() && *value
                    == self@[index as int],
                Err(error) => error == GridError::OutOfBounds && !(self.in_grid() && index
                    < self.height()),
            },
    {
        proof {
            self.grid.lemma_shape();
        }
        self.grid.value(Coordinate::new(self.index, index))
    }

    /// A mutable reference to the element at position `index`.
    pub fn value_mut(&mut self, index: usize) -> (result: Result<&mut T, GridError>)
        requires
            old(self).grid.wf(),
        ensures
            *final(final(self).grid) == *final(old(self).grid),
            Self::column_changed(old(self), final(self)),
            match result {
                Ok(value) => {
                    &&& old(self).in_grid()
                    &&& index < old(self).height()
                    &&& *value == old(self)@[index as int]
                    &&& final(self)@ =~= old(self)@.update(index as int, *final(value))
                },
                Err(error) => {
                    &&& error == GridError::OutOfBounds
                    &&& !(old(self).in_grid() && index < old(self).height())
                    &&& final(self).grid@ == old(self).grid@
                },
            },
    {
        proof {
            self.grid.lemma_shape();
        }
        self.grid.value_mut(Coordinate::new(self.index, index))
    }

    /// Replaces the element at position `index` by `value`.
    pub fn set_value(&mut self, index: usize, value: T) -> (result: Result<(), GridError>)
        requires
            old(self).grid.wf(),
        ensures
            *final(final(self).grid) == *final(old(self).grid),
            Self::column_changed(old(self), final(self)),
            match result {
                Ok(_) => {
                    &&& old(self).in_grid()
                    &&& index < old(self).height()
                    &&& final(self)@ =~= old(self)@.update(index as int, value)
                },
                Err(error) => {
                    &&& error == GridError::OutOfBounds
                    &&& !(old(self).in_grid() && index < old(self).height())
                    &&& final(self).grid@ == old(self).grid@
                },
            },
    {
        proof {
            self.grid.lemma_shape();
        }
        self.grid.set_value(Coordinate::new(self.index, index), value)
    }

    /// Exchanges the elements at positions `a` and `b`.
    pub fn swap_value(&mut self, a: usize, b: usize) -> (result: Result<(), GridError>)
        requires
            old(self).grid.wf(),
        ensures
            *final(final(self).grid) == *final(old(self).grid),
            Self::column_changed(old(self), final(self)),
            match result {
                Ok(_) => {
                    &&& old(self).in_grid()
                    &&& a < old(self).height()
                    &&& b < old(self).height()
                    &&& final(self)@ =~= exchanged(old(self)@, a as int, b as int)
                },
                Err(error) => {
                    &&& error == GridError::OutOfBounds
                    &&& !(old(self).in_grid() && a < old(self).height() && b < old(self).height())
                    &&& final(self).grid@ == old(self).grid@
                },
            },
    {
        proof {
            self.grid.lemma_shape();
        }
        self.grid.swap_value(Coordinate::new(self.index, a), Coordinate::new(self.index, b))
    }

    /// The elements of the column, from top to bottom.
    pub fn values(&self) -> (result: Result<Vec<&T>, GridError>)
        requires
            self.grid.wf(),
        ensures
            match result {
                Ok(values) => {
                    &&& self.in_grid()
                    &&& values@.len() == self@.len()
                    &&& forall|y: int|
                        0 <= y < values@.len() ==> *(#[trigger] values@[y]) == self@[y]
                },
                Err(error) => error == GridError::OutOfBounds && !self.in_grid(),
            },
    {
        let column = Column { grid: &*self.grid, index: self.index };
        column.values()
    }

    /// The first element of the column.
    pub fn top(&self) -> (result: Result<&T, GridError>)
        requires
            self.grid.wf(),
        ensures
            match result {
                Ok(value) => self.in_grid() && 0 < self.height() && *value == self@[0],
                Err(error) => error == GridError::OutOfBounds && !(self.in_grid() && 0
                    < self.height()),
            },
    {
        self.value(0)
    }

    /// A mutable reference to the first element of the column.
    pub fn top_mut(&mut self) -> (result: Result<&mut T, GridError>)
        requires
            old(self).grid.wf(),
        ensures
            *final(final(self).grid) == *final(old(self).grid),
            Self::column_changed(old(self), final(self)),
            match result {
                Ok(value) => {
                    &&& old(self).in_grid()
                    &&& 0 < old(self).height()
                    &&& *value == old(self)@[0]
                    &&& final(self)@ =~= old(self)@.update(0, *final(value))
                },
                Err(error) => {
                    &&& error == GridError::OutOfBounds
                    &&& !(old(self).in_grid() && 0 < old(self).height())
                    &&& final(self).grid@ == old(self).grid@
                },
            },
    {
        self.value_mut(0)
    }

    /// The last element of the column.
    pub fn bottom(&self) -> (result: Result<&T, GridError>)
        requires
            self.grid.wf(),
        ensures
            match result {
                Ok(value) => self.in_grid() && 0 < self.height() && *value == self@[self.height()
                    - 1],
                Err(error) => error == GridError::OutOfBounds && !(self.in_grid() && 0
                    < self.height()),
            },
    {
        let height = self.grid.size().height;
        if height == 0 {
            return Err(GridError::OutOfBounds);
        }
        self.value(height - 1)
    }

    /// A mutable reference to the last element of the column.
    pub fn bottom_mut(&mut self) -> (result: Result<&mut T, GridError>)
        requires
            old(self).grid.wf(),
        ensures
            *final(final(self).grid) == *final(old(self).grid),
            Self::column_changed(old(self), final(self)),
            match result {
                Ok(value) => {
                    &&& old(self).in_grid()
                    &&& 0 < old(self).height()
                    &&& *value == old(self)@[old(self).height() - 1]
                    &&& final(self)@ =~= old(self)@.update(old(self).height() - 1, *final(value))
                },
                Err(error) => {
                    &&& error == GridError::OutOfBounds
                    &&& !(old(self).in_grid() && 0 < old(self).height())
                    &&& final(self).grid@ == old(self).grid@
                },
            },
    {
        let height = self.grid.size().height;
        if height == 0 {
            return Err(GridError::OutOfBounds);
        }
        self.value_mut(height - 1)
    }

    /// A view of the column left of this one, if this is not the first
    /// column.
    pub fn left(&self) -> (result: Option<Column<'_, T>>)
        ensures
            match result {
                Some(column) => 0 < self.index && column.index == self.index - 1 && *column.grid
                    == self.grid_value(),
                None => self.index == 0,
            },
    {
        if self.index == 0 {
            None
        } else {
            Some(Column { grid: &*self.grid, index: self.index - 1 })
        }
    }

    /// A view of the column left of this one through which the grid can be
    /// changed, if this is not the first column. While it lives this view
    /// rests; afterwards this view holds the grid that the other one left.
    pub fn left_mut(&mut self) -> (result: Option<ColumnMut<'_, T>>)
        ensures
            *final(final(self).grid) == *final(old(self).grid),
            final(self).index == old(self).index,
            match result {
                Some(column) => {
                    &&& 0 < old(self).index
                    &&& column.index == old(self).index - 1
                    &&& *column.grid == *old(self).grid
                    &&& *final(column.grid) == *final(self).grid
                },
                None => old(self).index == 0 && *final(self).grid == *old(self).grid,
            },
    {
        if self.index == 0 {
            None
        } else {
            Some(ColumnMut { grid: &mut *self.grid, index: self.index - 1 })
        }
    }

    /// A view of the column right of this one, if there is a column right
    /// of it in the grid.
    pub fn right(&self) -> (result: Option<Column<'_, T>>)
        ensures
            match result {
                Some(column) => self.index + 1 < self.width() && column.index == self.index + 1
                    && *column.grid == self.grid_value(),
                None => self.index + 1 >= self.width(),
            },
    {
        let width = self.grid.size().width;
        if width == 0 || self.index >= width - 1 {
            None
        } else {
            Some(Column { grid: &*self.grid, index: self.index + 1 })
        }
    }

    /// A view of the column right of this one through which the grid can be
    /// changed, if there is a column right of it in the grid. While it lives
    /// this view rests; afterwards this view holds the grid that the other
    /// one left.
    pub fn right_mut(&mut self) -> (result: Option<ColumnMut<'_, T>>)
        ensures
            *final(final(self).grid) == *final(old(self).grid),
            final(self).index == old(self).index,
            match result {
                Some(column) => {
                    &&& old(self).index + 1 < old(self).width()
                    &&& column.index == old(self).index + 1
                    &&& *column.grid == *old(self).grid
                    &&& *final(column.grid) == *final(self).grid
                },
                None => old(self).index + 1 >= old(self).width() && *final(self).grid == *old(
                    self,
                ).grid,
            },
    {
        let width = self.grid.size().width;
        if width == 0 || self.index >= width - 1 {
            None
        } else {
            Some(ColumnMut { grid: &mut *self.grid, index: self.index + 1 })
        }
    }

    /// Exchanges the elements at positions `a` and `b`.
    pub fn swap(&mut self, a: usize, b: usize) -> (result: Result<(), GridError>)
        requires
            old(self).grid.wf(),
        ensures
            *final(final(self).grid) == *final(old(self).grid),
            Self::column_changed(old(self), final(self)),
            match result {
                Ok(_) => {
                    &&& old(self).in_grid()
                    &&& a < old(self).height()
                    &&& b < old(self).height()
                    &&& final(self)@ =~= exchanged(old(self)@, a as int, b as int)
                },
                Err(error) => {
                    &&& error == GridError::OutOfBounds
                    &&& !(old(self).in_grid() && a < old(self).height() && b < old(self).height())
                    &&& final(self).grid@ == old(self).grid@
                },
            },
    {
        self.swap_value(a, b)
    }

    /// Reverses the elements from position `lo` up to, not including,
    /// `hi`, by exchanging them pair by pair from both ends.
    fn reverse_range(&mut self, lo: usize, hi: usize)
        requires
            old(self).grid.wf(),
            old(self).in_grid(),
            lo <= hi <= old(self).height(),
        ensures
            *final(final(self).grid) == *final(old(self).grid),
            Self::column_changed(old(self), final(self)),
            final(self)@ =~= range_reversed(old(self)@, lo as int, hi as int),
    {
        proof {
            self.grid.lemma_shape();
        }
        let mut i: usize = lo;
        let mut j: usize = hi;
        while j - i > 1
            invariant
                lo <= i <= j <= hi <= old(self).height(),
                i + j == lo + hi,
                self.in_grid(),
                self.grid.wf(),
                *final(self.grid) == *final(old(self).grid),
                Self::column_changed(old(self), self),
                self@.len() == old(self)@.len(),
                old(self)@.len() == old(self).height(),
                forall|k: int|
                    0 <= k < self@.len() ==> self@[k] == if lo <= k < i || j <= k < hi {
                        old(self)@[lo + hi - 1 - k]
                    } else {
                        old(self)@[k]
                    },
            decreases j - i,
        {
            let _ = self.swap_value(i, j - 1);
            i += 1;
            j -= 1;
        }
    }

    /// Reverses the column in place.
    pub fn reverse(&mut self) -> (result: Result<(), GridError>)
        requires
            old(self).grid.wf(),
        ensures
            *final(final(self).grid) == *final(old(self).grid),
            Self::column_changed(old(self), final(self)),
            match result {
                Ok(_) => old(self).in_grid() && final(self)@ =~= old(self)@.reverse(),
                Err(error) => {
                    &&& error == GridError::OutOfBounds
                    &&& !old(self).in_grid()
                    &&& final(self).grid@ == old(self).grid@
                },
            },
    {
        proof {
            self.grid.lemma_shape();
        }
        if self.index >= self.grid.size().width {
            return Err(GridError::OutOfBounds);
        }
        let length = self.length();
        self.reverse_range(0, length);
        Ok(())
    }

    /// Turns the column `number` places to the top in place: the element at
    /// position `number` comes first, and the first `number` elements follow
    /// the rest. `number` may be anything up to the length of the column;
    /// with 0 or the length nothing moves. The turn is made of exchanges of
    /// two elements at a time.
    pub fn rotate_top(&mut self, number: usize) -> (result: Result<(), GridError>)
        requires
            old(self).grid.wf(),
        ensures
            *final(final(self).grid) == *final(old(self).grid),
            Self::column_changed(old(self), final(self)),
            match result {
                Ok(_) => {
                    &&& old(self).in_grid()
                    &&& number <= old(self).height()
                    &&& final(self)@ =~= turned_left(old(self)@, number as int)
                },
                Err(error) => {
                    &&& error == GridError::OutOfBounds
                    &&& !(old(self).in_grid() && number <= old(self).height())
                    &&& final(self).grid@ == old(self).grid@
                },
            },
    {
        proof {
            self.grid.lemma_shape();
        }
        let length = self.length();
        if self.index >= self.grid.size().width || number > length {
            return Err(GridError::OutOfBounds);
        }
        self.reverse_range(0, number);
        self.reverse_range(number, length);
        self.reverse_range(0, length);
        Ok(())
    }

    /// Turns the column `number` places to the bottom in place: the last
    /// `number` elements come first. `number` may be anything up to the
    /// length of the column; with 0 or the length nothing moves. The turn is
    /// made of exchanges of two elements at a time.
    pub fn rotate_bottom(&mut self, number: usize) -> (result: Result<(), GridError>)
        requires
            old(self).grid.wf(),
        ensures
            *final(final(self).grid) == *final(old(self).grid),
            Self::column_changed(old(self), final(self)),
            match result {
                Ok(_) => {
                    &&& old(self).in_grid()
                    &&& number <= old(self).height()
                    &&& final(self)@ =~= turned_right(old(self)@, number as int)
                },
                Err(error) => {
                    &&& error == GridError::OutOfBounds
                    &&& !(old(self).in_grid() && number <= old(self).height())
                    &&& final(self).grid@ == old(self).grid@
                },
            },
    {
        proof {
            self.grid.lemma_shape();
        }
        let length = self.length();
        if self.index >= self.grid.size().width || number > length {
            return Err(GridError::OutOfBounds);
        }
        self.rotate_top(length - number)
    }

    /// The view as one that only reads.
    pub open spec fn as_column(&self) -> Column<'_, T> {
        Column { grid: &*self.grid, index: self.index }
    }

    /// A cursor over the elements of the column, at its start.
    pub fn iterator(&self) -> (iterator: IteratorColumn<'_, T>)
        ensures
            iterator == IteratorColumn::at(self.as_column(), 0),
    {
        IteratorColumn::new(Column { grid: &*self.grid, index: self.index })
    }
}

} // verus!

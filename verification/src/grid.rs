use vstd::prelude::*;
use crate::buffer::{exchange, extend_buffer, filled_buffer};
use crate::column::Column;
use crate::column_mut::ColumnMut;
use crate::coordinate::Coordinate;
use crate::error::GridError;
use crate::iterator_grid::IteratorGrid;
use crate::model::{
    column_of, common_length, contents, exchanged, flipped_horizontally, flipped_vertically,
    rectangular, rotated_left, rotated_right, row_major, transposed, uniform,
    with_column_inserted, with_column_removed, with_columns_swapped, with_value,
    with_values_swapped,
};
use crate::row::Row;
use crate::row_mut::RowMut;
use crate::size::Size;

verus! {

/// A two-dimensional array stored row by row.
///
/// Besides its elements the grid keeps spare room on both axes: every row
/// buffer is meant to hold `capacity().width` elements without growing, and
/// the grid holds `capacity().height` row buffers, of which those past the
/// current height are empty and wait to be used again.
#[derive(Debug, PartialEq, Eq)]
pub struct Grid<T> {
    size: Size,
    rows: Vec<Vec<T>>,
    row_capacity: usize,
}

impl<T> Grid<T> {
    /// The invariant of the storage: the capacity covers the size on both
    /// axes, the first `height` row buffers hold `width` elements each, and
    /// the spare row buffers are empty.
    pub closed spec fn wf(&self) -> bool {
        &&& self.size.height <= self.rows@.len()
        &&& self.size.width <= self.row_capacity
        &&& forall|y: int|
            0 <= y < self.rows@.len() ==> (#[trigger] self.rows@[y])@.len() == if y
                < self.size.height {
                self.size.width as nat
            } else {
                0
            }
    }

    /// The elements: `height` rows of `width` elements each, so that the
    /// element at coordinate `(x, y)` is `self@[y][x]`.
    pub closed spec fn view(&self) -> Seq<Seq<T>> {
        Seq::new(self.size.height as nat, |y: int| self.rows@[y]@)
    }

    /// The width and height of the grid.
    pub closed spec fn spec_size(&self) -> Size {
        self.size
    }

    /// The reserved width of the rows and the number of row buffers held.
    pub closed spec fn spec_capacity(&self) -> Size {
        Size { width: self.row_capacity, height: self.rows.len() }
    }

    /// A well-formed grid is a rectangle of its size, within its capacity.
    pub proof fn lemma_shape(&self)
        requires
            self.wf(),
        ensures
            rectangular(self@, self.spec_size().width as nat, self.spec_size().height as nat),
            self.spec_size().width <= self.spec_capacity().width,
            self.spec_size().height <= self.spec_capacity().height,
    {
    }
}

impl<T: Clone> Grid<T> {
    /// An empty grid without any capacity.
    pub fn new() -> (grid: Grid<T>)
        ensures
            grid.wf(),
            grid.spec_size() == (Size { width: 0, height: 0 }),
            grid.spec_capacity() == (Size { width: 0, height: 0 }),
            grid@ == Seq::<Seq<T>>::empty(),
    {
        let grid = Grid { size: Size::new(0, 0), rows: Vec::with_capacity(0), row_capacity: 0 };
        assert(grid@ =~= Seq::<Seq<T>>::empty());
        grid
    }

    /// A grid of the given size in which every element is a clone of `value`.
    /// Its capacity is its size.
    pub fn with_size(size: Size, value: T) -> (grid: Grid<T>)
        ensures
            grid.wf(),
            grid.spec_size() == size,
            grid.spec_capacity() == size,
            rectangular(grid@, size.width as nat, size.height as nat),
            forall|x: int, y: int|
                0 <= x < size.width && 0 <= y < size.height ==> cloned::<T>(
                    value,
                    #[trigger] grid@[y][x],
                ),
    {
        let mut rows: Vec<Vec<T>> = Vec::with_capacity(size.height);
        while rows.len() < size.height
            invariant
                rows@.len() <= size.height,
                forall|y: int| 0 <= y < rows@.len() ==> (#[trigger] rows@[y])@.len() == size.width,
                forall|x: int, y: int|
                    0 <= x < size.width && 0 <= y < rows@.len() ==> cloned::<T>(
                        value,
                        #[trigger] rows@[y]@[x],
                    ),
            decreases size.height - rows@.len(),
        {
            let row = filled_buffer(size.width, size.width, &value);
            rows.push(row);
        }
        Grid { size, rows, row_capacity: size.width }
    }

    /// An empty grid that holds `capacity.height` empty row buffers, each
    /// with room reserved for `capacity.width` elements.
    pub fn with_capacity(capacity: Size) -> (grid: Grid<T>)
        ensures
            grid.wf(),
            grid.spec_size() == (Size { width: 0, height: 0 }),
            grid.spec_capacity() == capacity,
            grid@ == Seq::<Seq<T>>::empty(),
    {
        let mut rows: Vec<Vec<T>> = Vec::with_capacity(capacity.height);
        while rows.len() < capacity.height
            invariant
                rows@.len() <= capacity.height,
                forall|y: int| 0 <= y < rows@.len() ==> (#[trigger] rows@[y])@.len() == 0,
            decreases capacity.height - rows@.len(),
        {
            rows.push(Vec::with_capacity(capacity.width));
        }
        let grid = Grid { size: Size::new(0, 0), rows, row_capacity: capacity.width };
        assert(grid@ =~= Seq::<Seq<T>>::empty());
        grid
    }

    /// The grid whose rows are the given vectors, from top to bottom. The
    /// vectors must all have one length, which becomes the width; an empty
    /// list gives the empty grid. The capacity is the size.
    pub fn from_rows(rows: Vec<Vec<T>>) -> (result: Result<Grid<T>, GridError>)
        ensures
            match result {
                Ok(grid) => {
                    &&& uniform(contents(rows@))
                    &&& grid.wf()
                    &&& grid@ == contents(rows@)
                    &&& grid.spec_size().width == common_length(contents(rows@))
                    &&& grid.spec_size().height == rows@.len()
                    &&& grid.spec_capacity() == grid.spec_size()
                },
                Err(error) => error == GridError::ShapeError && !uniform(contents(rows@)),
            },
    {
        let height = rows.len();
        let width = if height == 0 {
            0
        } else {
            rows[0].len()
        };
        let mut y: usize = 0;
        while y < height
            invariant
                height == rows@.len(),
                y <= height,
                height > 0 ==> width == rows@[0]@.len(),
                forall|k: int| 0 <= k < y ==> (#[trigger] rows@[k])@.len() == width,
            decreases height - y,
        {
            if rows[y].len() != width {
                assert(contents(rows@)[y as int].len() != contents(rows@)[0].len());
                return Err(GridError::ShapeError);
            }
            y += 1;
        }
        let grid = Grid { size: Size::new(width, height), rows, row_capacity: width };
        assert(grid@ =~= contents(rows@));
        Ok(grid)
    }

    /// The grid whose columns are the given vectors, from left to right. The
    /// vectors must all have one length, which becomes the height; an empty
    /// list gives the empty grid. The capacity is the size. The vectors are
    /// taken as rows, flipped and turned to the left.
    pub fn from_columns(columns: Vec<Vec<T>>) -> (result: Result<Grid<T>, GridError>)
        ensures
            match result {
                Ok(grid) => {
                    &&& uniform(contents(columns@))
                    &&& grid.wf()
                    &&& grid@ == transposed(
                        contents(columns@),
                        common_length(contents(columns@)),
                    )
                    &&& grid.spec_size().width == columns@.len()
                    &&& grid.spec_size().height == common_length(contents(columns@))
                    &&& grid.spec_capacity() == grid.spec_size()
                },
                Err(error) => error == GridError::ShapeError && !uniform(contents(columns@)),
            },
    {
        match Self::from_rows(columns) {
            Ok(mut grid) => {
                proof {
                    grid.lemma_shape();
                }
                grid.flip_horizontally();
                grid.rotate_left();
                proof {
                    let given = contents(columns@);
                    let length = common_length(given);
                    assert forall|x: int| 0 <= x < length implies grid@[x] == transposed(
                        given,
                        length,
                    )[x] by {
                        assert(grid@[x] =~= transposed(given, length)[x]);
                    }
                    assert(grid@ =~= transposed(given, length));
                }
                Ok(grid)
            },
            Err(error) => Err(error),
        }
    }

    /// An empty grid without any capacity.
    pub fn zero() -> (grid: Grid<T>)
        ensures
            grid.wf(),
            grid.spec_size() == (Size { width: 0, height: 0 }),
            grid.spec_capacity() == (Size { width: 0, height: 0 }),
            grid@ == Seq::<Seq<T>>::empty(),
    {
        Self::new()
    }

    /// The width and height of the grid.
    pub fn size(&self) -> (size: Size)
        ensures
            size == self.spec_size(),
    {
        self.size
    }

    /// The reserved width of the rows and the number of row buffers held.
    pub fn capacity(&self) -> (capacity: Size)
        ensures
            capacity == self.spec_capacity(),
    {
        Size::new(self.row_capacity, self.rows.len())
    }

    /// Adds `additional.width` to the reserved width of the rows and
    /// `additional.height` empty row buffers to the spare ones. The size and
    /// the elements stay. It is refused, and nothing changes, when one of
    /// the two sums does not fit in a `usize`.
    pub fn reserve(&mut self, additional: Size) -> (result: Result<(), GridError>)
        requires
            old(self).wf(),
        ensures
            final(self).wf(),
            final(self).spec_size() == old(self).spec_size(),
            final(self)@ == old(self)@,
            match result {
                Ok(_) => {
                    &&& final(self).spec_capacity().width == old(self).spec_capacity().width
                        + additional.width
                    &&& final(self).spec_capacity().height == old(self).spec_capacity().height
                        + additional.height
                },
                Err(error) => {
                    &&& error == GridError::CapacityOverflow
                    &&& (old(self).spec_capacity().width + additional.width > usize::MAX || old(
                        self,
                    ).spec_capacity().height + additional.height > usize::MAX)
                    &&& final(self).spec_capacity() == old(self).spec_capacity()
                },
            },
    {
        let count = self.rows.len();
        if additional.width > usize::MAX - self.row_capacity || additional.height > usize::MAX
            - count {
            return Err(GridError::CapacityOverflow);
        }
        let height = self.size.height;
        let mut y: usize = 0;
        while y < height
            invariant
                y <= height <= count,
                self.rows@.len() == count,
                self.size == old(self).size,
                self.row_capacity == old(self).row_capacity,
                forall|k: int| 0 <= k < count ==> (#[trigger] self.rows@[k])@ == old(self).rows@[k]@,
            decreases height - y,
        {
            self.rows[y].reserve(additional.width);
            y += 1;
        }
        self.row_capacity += additional.width;
        let row_capacity = self.row_capacity;
        self.rows.reserve(additional.height);
        let target = count + additional.height;
        while self.rows.len() < target
            invariant
                count <= self.rows@.len() <= target,
                self.size == old(self).size,
                height == self.size.height,
                height <= count,
                self.row_capacity == row_capacity,
                forall|k: int| 0 <= k < count ==> (#[trigger] self.rows@[k])@ == old(self).rows@[k]@,
                forall|k: int| count <= k < self.rows@.len() ==> (#[trigger] self.rows@[k])@.len() == 0,
            decreases target - self.rows@.len(),
        {
            self.rows.push(Vec::with_capacity(row_capacity));
        }
        assert(self@ =~= old(self)@);
        Ok(())
    }

    /// The element at `coordinate`.
    pub fn value(&self, coordinate: Coordinate) -> (result: Result<&T, GridError>)
        requires
            self.wf(),
        ensures
            match result {
                Ok(value) => self.spec_size().covers(coordinate) && *value
                    == self@[coordinate.y as int][coordinate.x as int],
                Err(error) => error == GridError::OutOfBounds && !self.spec_size().covers(coordinate),
            },
    {
        if coordinate.x < self.size.width && coordinate.y < self.size.height {
            Ok(&self.rows[coordinate.y][coordinate.x])
        } else {
            Err(GridError::OutOfBounds)
        }
    }

    /// A mutable reference to the element at `coordinate`. What is written
    /// through it becomes the element; nothing else changes.
    pub fn value_mut(&mut self, coordinate: Coordinate) -> (result: Result<&mut T, GridError>)
        requires
            old(self).wf(),
        ensures
            final(self).wf(),
            final(self).spec_size() == old(self).spec_size(),
            final(self).spec_capacity() == old(self).spec_capacity(),
            match result {
                Ok(value) => {
                    &&& old(self).spec_size().covers(coordinate)
                    &&& *value == old(self)@[coordinate.y as int][coordinate.x as int]
                    &&& final(self)@ == with_value(
                        old(self)@,
                        coordinate.x as int,
                        coordinate.y as int,
                        *final(value),
                    )
                },
                Err(error) => {
                    &&& error == GridError::OutOfBounds
                    &&& !old(self).spec_size().covers(coordinate)
                    &&& final(self)@ == old(self)@
                },
            },
    {
        if coordinate.x < self.size.width && coordinate.y < self.size.height {
            let value = &mut self.rows[coordinate.y][coordinate.x];
            Ok(value)
        } else {
            Err(GridError::OutOfBounds)
        }
    }

    /// Replaces the element at `coordinate` by `value`.
    pub fn set_value(&mut self, coordinate: Coordinate, value: T) -> (result: Result<(), GridError>)
        requires
            old(self).wf(),
        ensures
            final(self).wf(),
            final(self).spec_size() == old(self).spec_size(),
            final(self).spec_capacity() == old(self).spec_capacity(),
            match result {
                Ok(_) => {
                    &&& old(self).spec_size().covers(coordinate)
                    &&& final(self)@ == with_value(
                        old(self)@,
                        coordinate.x as int,
                        coordinate.y as int,
                        value,
                    )
                },
                Err(error) => {
                    &&& error == GridError::OutOfBounds
                    &&& !old(self).spec_size().covers(coordinate)
                    &&& final(self)@ == old(self)@
                },
            },
    {
        if coordinate.x < self.size.width && coordinate.y < self.size.height {
            self.rows[coordinate.y][coordinate.x] = value;
            assert(self@ =~= with_value(
                old(self)@,
                coordinate.x as int,
                coordinate.y as int,
                value,
            ));
            Ok(())
        } else {
            Err(GridError::OutOfBounds)
        }
    }

    /// Gives the grid the size `size`. Elements at coordinates that both the
    /// old and the new size cover are kept; every other element of the new
    /// grid is a clone of `value`. Rows that fall out of the grid are emptied
    /// and kept as spare buffers, and the capacity grows, on each axis by
    /// itself, to cover the new size: it never shrinks.
    pub fn resize(&mut self, size: Size, value: T)
        requires
            old(self).wf(),
        ensures
            final(self).wf(),
            final(self).spec_size() == size,
            final(self).spec_capacity().width == if old(self).spec_capacity().width < size.width {
                size.width
            } else {
                old(self).spec_capacity().width
            },
            final(self).spec_capacity().height == if old(self).spec_capacity().height
                < size.height {
                size.height
            } else {
                old(self).spec_capacity().height
            },
            rectangular(final(self)@, size.width as nat, size.height as nat),
            forall|x: int, y: int|
                #![trigger final(self)@[y][x]]
                0 <= x < size.width && 0 <= y < size.height ==> if x < old(self).spec_size().width
                    && y < old(self).spec_size().height {
                    final(self)@[y][x] == old(self)@[y][x]
                } else {
                    cloned::<T>(value, final(self)@[y][x])
                },
    {
        let row_capacity = if self.row_capacity < size.width {
            size.width
        } else {
            self.row_capacity
        };
        let ghost before = self.rows@;
        let ghost old_width = self.size.width;
        let ghost old_height = self.size.height;
        while self.rows.len() < size.height
            invariant
                before.len() <= self.rows@.len(),
                before.len() <= size.height ==> self.rows@.len() <= size.height,
                before.len() > size.height ==> self.rows@.len() == before.len(),
                forall|y: int| 0 <= y < before.len() ==> self.rows@[y] == before[y],
                forall|y: int|
                    before.len() <= y < self.rows@.len() ==> (#[trigger] self.rows@[y])@.len() == 0,
            decreases size.height - self.rows@.len(),
        {
            self.rows.push(Vec::with_capacity(row_capacity));
        }
        let ghost grown = self.rows@;
        let mut y: usize = 0;
        while y < size.height
            invariant
                y <= size.height <= grown.len(),
                self.rows@.len() == grown.len(),
                forall|k: int| y <= k < grown.len() ==> self.rows@[k] == grown[k],
                forall|k: int| 0 <= k < y ==> (#[trigger] self.rows@[k])@.len() == size.width,
                forall|x: int, k: int|
                    #![trigger self.rows@[k]@[x]]
                    0 <= x < size.width && 0 <= k < y ==> if x < grown[k]@.len() {
                        self.rows@[k]@[x] == grown[k]@[x]
                    } else {
                        cloned::<T>(value, self.rows@[k]@[x])
                    },
            decreases size.height - y,
        {
            self.rows[y].truncate(size.width);
            extend_buffer(&mut self.rows[y], size.width, &value);
            y += 1;
        }
        let count = self.rows.len();
        while y < count
            invariant
                size.height <= y <= count,
                count == grown.len(),
                self.rows@.len() == grown.len(),
                forall|k: int| y <= k < grown.len() ==> self.rows@[k] == grown[k],
                forall|k: int| 0 <= k < size.height ==> (#[trigger] self.rows@[k])@.len() == size.width,
                forall|k: int| size.height <= k < y ==> (#[trigger] self.rows@[k])@.len() == 0,
                forall|x: int, k: int|
                    #![trigger self.rows@[k]@[x]]
                    0 <= x < size.width && 0 <= k < size.height ==> if x < grown[k]@.len() {
                        self.rows@[k]@[x] == grown[k]@[x]
                    } else {
                        cloned::<T>(value, self.rows@[k]@[x])
                    },
            decreases count - y,
        {
            self.rows[y].truncate(0);
            y += 1;
        }
        self.size = size;
        self.row_capacity = row_capacity;
        proof {
            assert forall|x: int, y: int|
                #![trigger self@[y][x]]
                0 <= x < size.width && 0 <= y < size.height implies if x < old_width && y
                < old_height {
                self@[y][x] == old(self)@[y][x]
            } else {
                cloned::<T>(value, self@[y][x])
            } by {
                assert(self@[y][x] == self.rows@[y]@[x]);
                if y < before.len() {
                    assert(grown[y] == before[y]);
                    assert(before[y]@.len() == if y < old_height {
                        old_width as nat
                    } else {
                        0
                    });
                } else {
                    assert(grown[y]@.len() == 0);
                }
            }
        }
    }

    /// Replaces every element by a clone of `value`.
    pub fn fill(&mut self, value: T)
        requires
            old(self).wf(),
        ensures
            final(self).wf(),
            final(self).spec_size() == old(self).spec_size(),
            final(self).spec_capacity() == old(self).spec_capacity(),
            rectangular(
                final(self)@,
                old(self).spec_size().width as nat,
                old(self).spec_size().height as nat,
            ),
            forall|x: int, y: int|
                0 <= x < old(self).spec_size().width && 0 <= y < old(self).spec_size().height
                    ==> cloned::<T>(value, #[trigger] final(self)@[y][x]),
    {
        let width = self.size.width;
        let height = self.size.height;
        let ghost count = self.rows@.len();
        let mut y: usize = 0;
        while y < height
            invariant
                y <= height,
                self.wf(),
                self.size == old(self).size,
                self.size.width == width,
                self.size.height == height,
                self.row_capacity == old(self).row_capacity,
                self.rows@.len() == count,
                count == old(self).rows@.len(),
                forall|x: int, k: int|
                    0 <= x < width && 0 <= k < y ==> cloned::<T>(value, #[trigger] self.rows@[k]@[x]),
            decreases height - y,
        {
            let mut x: usize = 0;
            while x < width
                invariant
                    y < height,
                    x <= width,
                    self.wf(),
                    self.size == old(self).size,
                    self.size.width == width,
                    self.size.height == height,
                    self.row_capacity == old(self).row_capacity,
                    self.rows@.len() == count,
                    forall|i: int, k: int|
                        0 <= i < width && 0 <= k < y ==> cloned::<T>(
                            value,
                            #[trigger] self.rows@[k]@[i],
                        ),
                    forall|i: int| 0 <= i < x ==> cloned::<T>(value, #[trigger] self.rows@[y as int]@[i]),
                decreases width - x,
            {
                self.rows[y][x] = value.clone();
                x += 1;
            }
            y += 1;
        }
    }

    /// Removes every element: the size becomes `(0, 0)`, the capacity stays.
    pub fn clear(&mut self)
        requires
            old(self).wf(),
        ensures
            final(self).wf(),
            final(self).spec_size() == (Size { width: 0, height: 0 }),
            final(self).spec_capacity() == old(self).spec_capacity(),
            final(self)@ == Seq::<Seq<T>>::empty(),
    {
        let count = self.rows.len();
        let mut y: usize = 0;
        while y < count
            invariant
                y <= count,
                self.rows@.len() == count,
                self.row_capacity == old(self).row_capacity,
                forall|k: int| 0 <= k < y ==> (#[trigger] self.rows@[k])@.len() == 0,
            decreases count - y,
        {
            self.rows[y].clear();
            y += 1;
        }
        self.size = Size::new(0, 0);
        assert(self@ =~= Seq::<Seq<T>>::empty());
    }

    /// Exchanges the elements at `a` and `b`, which may lie in one row or in
    /// two, or be one and the same.
    pub fn swap_value(&mut self, a: Coordinate, b: Coordinate) -> (result: Result<(), GridError>)
        requires
            old(self).wf(),
        ensures
            final(self).wf(),
            final(self).spec_size() == old(self).spec_size(),
            final(self).spec_capacity() == old(self).spec_capacity(),
            match result {
                Ok(_) => {
                    &&& old(self).spec_size().covers(a)
                    &&& old(self).spec_size().covers(b)
                    &&& final(self)@ == with_values_swapped(
                        old(self)@,
                        a.x as int,
                        a.y as int,
                        b.x as int,
                        b.y as int,
                    )
                },
                Err(error) => {
                    &&& error == GridError::OutOfBounds
                    &&& !(old(self).spec_size().covers(a) && old(self).spec_size().covers(b))
                    &&& final(self)@ == old(self)@
                },
            },
    {
        if !(a.x < self.size.width && a.y < self.size.height && b.x < self.size.width && b.y
            < self.size.height) {
            return Err(GridError::OutOfBounds);
        }
        if a.y == b.y {
            exchange(self.rows[a.y].as_mut_slice(), a.x, b.x);
        } else {
            let mut held: Vec<T> = Vec::new();
            core::mem::swap(&mut self.rows[a.y], &mut held);
            core::mem::swap(&mut held[a.x], &mut self.rows[b.y][b.x]);
            core::mem::swap(&mut self.rows[a.y], &mut held);
        }
        assert(self@ =~= with_values_swapped(
            old(self)@,
            a.x as int,
            a.y as int,
            b.x as int,
            b.y as int,
        ));
        Ok(())
    }

    /// The elements in reading order: row after row, each from left to right.
    pub fn values(&self) -> (values: Vec<&T>)
        requires
            self.wf(),
        ensures
            values@.len() == row_major(self@).len(),
            forall|k: int| 0 <= k < values@.len() ==> *(#[trigger] values@[k]) == row_major(self@)[k],
    {
        let width = self.size.width;
        let height = self.size.height;
        let mut values: Vec<&T> = Vec::new();
        let mut y: usize = 0;
        assert(self@.subrange(0, 0) =~= Seq::<Seq<T>>::empty());
        while y < height
            invariant
                y <= height,
                self.wf(),
                self.size.width == width,
                self.size.height == height,
                values@.len() == row_major(self@.subrange(0, y as int)).len(),
                forall|k: int|
                    0 <= k < values@.len() ==> *(#[trigger] values@[k]) == row_major(
                        self@.subrange(0, y as int),
                    )[k],
            decreases height - y,
        {
            let ghost done = row_major(self@.subrange(0, y as int));
            let mut x: usize = 0;
            while x < width
                invariant
                    y < height,
                    x <= width,
                    self.wf(),
                    self.size.width == width,
                    self.size.height == height,
                    values@.len() == done.len() + x,
                    forall|k: int| 0 <= k < done.len() ==> *(#[trigger] values@[k]) == done[k],
                    forall|i: int|
                        0 <= i < x ==> *(#[trigger] values@[done.len() + i]) == self@[y as int][i],
                decreases width - x,
            {
                values.push(&self.rows[y][x]);
                x += 1;
            }
            proof {
                let next = self@.subrange(0, y + 1);
                assert(next.drop_last() =~= self@.subrange(0, y as int));
                assert(next.last() == self@[y as int]);
                assert(row_major(next) == done + self@[y as int]);
                assert forall|k: int| 0 <= k < values@.len() implies *(#[trigger] values@[k])
                    == row_major(next)[k] by {
                    if k >= done.len() {
                        assert(*values@[done.len() + (k - done.len())] == self@[y as int][k
                            - done.len()]);
                    }
                }
            }
            y += 1;
        }
        assert(self@.subrange(0, height as int) =~= self@);
        values
    }

    /// A cursor over all the elements in reading order, at its start.
    pub fn iterator(&self) -> (iterator: IteratorGrid<'_, T>)
        ensures
            iterator == IteratorGrid::at(self, Coordinate { x: 0, y: 0 }),
    {
        IteratorGrid::new(self)
    }

    /// Exchanges the rows `a` and `b` by exchanging their buffers.
    pub fn swap_row(&mut self, a: usize, b: usize) -> (result: Result<(), GridError>)
        requires
            old(self).wf(),
        ensures
            final(self).wf(),
            final(self).spec_size() == old(self).spec_size(),
            final(self).spec_capacity() == old(self).spec_capacity(),
            match result {
                Ok(_) => {
                    &&& a < old(self).spec_size().height
                    &&& b < old(self).spec_size().height
                    &&& final(self)@ == exchanged(old(self)@, a as int, b as int)
                },
                Err(error) => {
                    &&& error == GridError::OutOfBounds
                    &&& !(a < old(self).spec_size().height && b < old(self).spec_size().height)
                    &&& final(self)@ == old(self)@
                },
            },
    {
        if !(a < self.size.height && b < self.size.height) {
            return Err(GridError::OutOfBounds);
        }
        if a != b {
            let mut held: Vec<T> = Vec::new();
            core::mem::swap(&mut self.rows[a], &mut held);
            core::mem::swap(&mut self.rows[b], &mut held);
            core::mem::swap(&mut self.rows[a], &mut held);
        }
        assert(self@ =~= exchanged(old(self)@, a as int, b as int));
        Ok(())
    }

    /// Inserts `row` so that it becomes row `index`; the rows from `index` on
    /// move down by one. A spare row buffer is given up for it if there is
    /// one, so the capacity grows only when the new height exceeds it.
    pub fn insert_row(&mut self, index: usize, row: Vec<T>) -> (result: Result<(), GridError>)
        requires
            old(self).wf(),
        ensures
            final(self).wf(),
            final(self).spec_capacity().width == old(self).spec_capacity().width,
            match result {
                Ok(_) => {
                    &&& index <= old(self).spec_size().height
                    &&& row@.len() == old(self).spec_size().width
                    &&& final(self)@ == old(self)@.insert(index as int, row@)
                    &&& final(self).spec_size().width == old(self).spec_size().width
                    &&& final(self).spec_size().height == old(self).spec_size().height + 1
                    &&& final(self).spec_capacity().height == if old(self).spec_size().height
                        < old(self).spec_capacity().height {
                        old(self).spec_capacity().height as int
                    } else {
                        old(self).spec_capacity().height + 1
                    }
                },
                Err(error) => {
                    &&& error == if index > old(self).spec_size().height {
                        GridError::OutOfBounds
                    } else {
                        GridError::ShapeError
                    }
                    &&& index > old(self).spec_size().height || row@.len() != old(
                        self,
                    ).spec_size().width
                    &&& final(self)@ == old(self)@
                    &&& final(self).spec_size() == old(self).spec_size()
                    &&& final(self).spec_capacity() == old(self).spec_capacity()
                },
            },
    {
        if index > self.size.height {
            return Err(GridError::OutOfBounds);
        }
        if row.len() != self.size.width {
            return Err(GridError::ShapeError);
        }
        if self.size.height < self.rows.len() {
            self.rows.pop();
        }
        self.rows.insert(index, row);
        // The buffers are counted in a `usize`, and the height was below
        // their number before this one came in.
        let count = self.rows.len();
        assert(self.size.height < count);
        self.size.height += 1;
        assert(self@ =~= old(self)@.insert(index as int, row@));
        Ok(())
    }

    /// Removes row `index`; the rows below it move up by one. An empty
    /// buffer joins the spare ones in its place, so the capacity stays.
    pub fn remove_row(&mut self, index: usize) -> (result: Result<(), GridError>)
        requires
            old(self).wf(),
        ensures
            final(self).wf(),
            final(self).spec_capacity() == old(self).spec_capacity(),
            match result {
                Ok(_) => {
                    &&& index < old(self).spec_size().height
                    &&& final(self)@ == old(self)@.remove(index as int)
                    &&& final(self).spec_size().width == old(self).spec_size().width
                    &&& final(self).spec_size().height == old(self).spec_size().height - 1
                },
                Err(error) => {
                    &&& error == GridError::OutOfBounds
                    &&& index >= old(self).spec_size().height
                    &&& final(self)@ == old(self)@
                    &&& final(self).spec_size() == old(self).spec_size()
                },
            },
    {
        if index >= self.size.height {
            return Err(GridError::OutOfBounds);
        }
        self.rows.remove(index);
        self.rows.push(Vec::with_capacity(self.row_capacity));
        self.size.height -= 1;
        assert(self@ =~= old(self)@.remove(index as int));
        Ok(())
    }

    /// Exchanges the columns `a` and `b`, one row at a time: a column is not
    /// stored in one piece.
    pub fn swap_column(&mut self, a: usize, b: usize) -> (result: Result<(), GridError>)
        requires
            old(self).wf(),
        ensures
            final(self).wf(),
            final(self).spec_size() == old(self).spec_size(),
            final(self).spec_capacity() == old(self).spec_capacity(),
            match result {
                Ok(_) => {
                    &&& a < old(self).spec_size().width
                    &&& b < old(self).spec_size().width
                    &&& final(self)@ == with_columns_swapped(old(self)@, a as int, b as int)
                },
                Err(error) => {
                    &&& error == GridError::OutOfBounds
                    &&& !(a < old(self).spec_size().width && b < old(self).spec_size().width)
                    &&& final(self)@ == old(self)@
                },
            },
    {
        if !(a < self.size.width && b < self.size.width) {
            return Err(GridError::OutOfBounds);
        }
        let height = self.size.height;
        let mut y: usize = 0;
        while y < height
            invariant
                y <= height,
                height == self.size.height,
                self.size == old(self).size,
                self.row_capacity == old(self).row_capacity,
                old(self).wf(),
                a < self.size.width,
                b < self.size.width,
                self.rows@.len() == old(self).rows@.len(),
                forall|k: int| y <= k < self.rows@.len() ==> self.rows@[k] == old(self).rows@[k],
                forall|k: int|
                    0 <= k < y ==> (#[trigger] self.rows@[k])@ == exchanged(
                        old(self).rows@[k]@,
                        a as int,
                        b as int,
                    ),
            decreases height - y,
        {
            exchange(self.rows[y].as_mut_slice(), a, b);
            y += 1;
        }
        assert(self@ =~= with_columns_swapped(old(self)@, a as int, b as int));
        Ok(())
    }

    /// Inserts `column` so that it becomes column `index`; the columns from
    /// `index` on move right by one. The reserved width grows only when the
    /// new width exceeds it. The new width has to fit in a `usize`.
    pub fn insert_column(&mut self, index: usize, column: Vec<T>) -> (result: Result<(), GridError>)
        requires
            old(self).wf(),
            old(self).spec_size().width < usize::MAX,
        ensures
            final(self).wf(),
            final(self).spec_capacity().height == old(self).spec_capacity().height,
            match result {
                Ok(_) => {
                    &&& index <= old(self).spec_size().width
                    &&& column@.len() == old(self).spec_size().height
                    &&& final(self)@ == with_column_inserted(old(self)@, index as int, column@)
                    &&& final(self).spec_size().width == old(self).spec_size().width + 1
                    &&& final(self).spec_size().height == old(self).spec_size().height
                    &&& final(self).spec_capacity().width == if old(self).spec_size().width
                        < old(self).spec_capacity().width {
                        old(self).spec_capacity().width as int
                    } else {
                        old(self).spec_capacity().width + 1
                    }
                },
                Err(error) => {
                    &&& error == if index > old(self).spec_size().width {
                        GridError::OutOfBounds
                    } else {
                        GridError::ShapeError
                    }
                    &&& index > old(self).spec_size().width || column@.len() != old(
                        self,
                    ).spec_size().height
                    &&& final(self)@ == old(self)@
                    &&& final(self).spec_size() == old(self).spec_size()
                    &&& final(self).spec_capacity() == old(self).spec_capacity()
                },
            },
    {
        if index > self.size.width {
            return Err(GridError::OutOfBounds);
        }
        if column.len() != self.size.height {
            return Err(GridError::ShapeError);
        }
        let mut column = column;
        let ghost items = column@;
        let mut y: usize = self.size.height;
        while y > 0
            invariant
                y <= self.size.height,
                self.size == old(self).size,
                self.row_capacity == old(self).row_capacity,
                old(self).wf(),
                index <= self.size.width,
                items.len() == self.size.height,
                column@ == items.subrange(0, y as int),
                self.rows@.len() == old(self).rows@.len(),
                forall|k: int|
                    0 <= k < self.rows@.len() && !(y <= k < self.size.height) ==> self.rows@[k]
                        == old(self).rows@[k],
                forall|k: int|
                    y <= k < self.size.height ==> (#[trigger] self.rows@[k])@ == old(
                        self,
                    ).rows@[k]@.insert(index as int, items[k]),
            decreases y,
        {
            y -= 1;
            let item = column.pop().unwrap();
            self.rows[y].insert(index, item);
            assert(column@ =~= items.subrange(0, y as int));
        }
        self.size.width += 1;
        if self.size.width > self.row_capacity {
            self.row_capacity = self.size.width;
        }
        assert(self@ =~= with_column_inserted(old(self)@, index as int, items));
        Ok(())
    }

    /// Removes column `index`; the columns right of it move left by one. The
    /// capacity stays.
    pub fn remove_column(&mut self, index: usize) -> (result: Result<(), GridError>)
        requires
            old(self).wf(),
        ensures
            final(self).wf(),
            final(self).spec_capacity() == old(self).spec_capacity(),
            match result {
                Ok(_) => {
                    &&& index < old(self).spec_size().width
                    &&& final(self)@ == with_column_removed(old(self)@, index as int)
                    &&& final(self).spec_size().width == old(self).spec_size().width - 1
                    &&& final(self).spec_size().height == old(self).spec_size().height
                },
                Err(error) => {
                    &&& error == GridError::OutOfBounds
                    &&& index >= old(self).spec_size().width
                    &&& final(self)@ == old(self)@
                    &&& final(self).spec_size() == old(self).spec_size()
                },
            },
    {
        if index >= self.size.width {
            return Err(GridError::OutOfBounds);
        }
        let height = self.size.height;
        let mut y: usize = 0;
        while y < height
            invariant
                y <= height,
                height == self.size.height,
                self.size == old(self).size,
                self.row_capacity == old(self).row_capacity,
                old(self).wf(),
                index < self.size.width,
                self.rows@.len() == old(self).rows@.len(),
                forall|k: int| y <= k < self.rows@.len() ==> self.rows@[k] == old(self).rows@[k],
                forall|k: int|
                    0 <= k < y ==> (#[trigger] self.rows@[k])@ == old(self).rows@[k]@.remove(
                        index as int,
                    ),
            decreases height - y,
        {
            self.rows[y].remove(index);
            y += 1;
        }
        self.size.width -= 1;
        assert(self@ =~= with_column_removed(old(self)@, index as int));
        Ok(())
    }

    /// A view of row `index`.
    pub fn row(&self, index: usize) -> (result: Result<Row<'_, T>, GridError>)
        ensures
            match result {
                Ok(row) => index < self.spec_size().height && row.index == index && *row.grid
                    == *self,
                Err(error) => error == GridError::OutOfBounds && index >= self.spec_size().height,
            },
    {
        if index < self.size.height {
            Ok(Row { grid: self, index })
        } else {
            Err(GridError::OutOfBounds)
        }
    }

    /// A view of row `index` through which the grid can be changed. The grid
    /// is, when the view is given up, what the view has made of it.
    pub fn row_mut(&mut self, index: usize) -> (result: Result<RowMut<'_, T>, GridError>)
        ensures
            match result {
                Ok(row) => {
                    &&& index < old(self).spec_size().height
                    &&& row.index == index
                    &&& *row.grid == *old(self)
                    &&& *final(row.grid) == *final(self)
                },
                Err(error) => {
                    &&& error == GridError::OutOfBounds
                    &&& index >= old(self).spec_size().height
                    &&& *final(self) == *old(self)
                },
            },
    {
        if index < self.size.height {
            Ok(RowMut { grid: self, index })
        } else {
            Err(GridError::OutOfBounds)
        }
    }

    /// The elements of row `row` as a slice, for reordering them in place.
    /// A slice keeps its length, and the grid is then the old one with that
    /// row as the slice is left.
    pub fn row_slice(&mut self, row: usize) -> (result: Result<&mut [T], GridError>)
        requires
            old(self).wf(),
        ensures
            final(self).spec_size() == old(self).spec_size(),
            final(self).spec_capacity() == old(self).spec_capacity(),
            match result {
                Ok(slice) => {
                    &&& row < old(self).spec_size().height
                    &&& slice@ == old(self)@[row as int]
                    &&& final(slice)@.len() == slice@.len() ==> final(self).wf() && final(self)@
                        == old(self)@.update(row as int, final(slice)@)
                },
                Err(error) => {
                    &&& error == GridError::OutOfBounds
                    &&& row >= old(self).spec_size().height
                    &&& final(self).wf()
                    &&& final(self)@ == old(self)@
                },
            },
    {
        if row < self.size.height {
            Ok(self.rows[row].as_mut_slice())
        } else {
            Err(GridError::OutOfBounds)
        }
    }

    /// A view of column `index`.
    pub fn column(&self, index: usize) -> (result: Result<Column<'_, T>, GridError>)
        ensures
            match result {
                Ok(column) => index < self.spec_size().width && column.index == index
                    && *column.grid == *self,
                Err(error) => error == GridError::OutOfBounds && index >= self.spec_size().width,
            },
    {
        if index < self.size.width {
            Ok(Column { grid: self, index })
        } else {
            Err(GridError::OutOfBounds)
        }
    }

    /// A view of column `index` through which the grid can be changed. The
    /// grid is, when the view is given up, what the view has made of it.
    pub fn column_mut(&mut self, index: usize) -> (result: Result<ColumnMut<'_, T>, GridError>)
        ensures
            match result {
                Ok(column) => {
                    &&& index < old(self).spec_size().width
                    &&& column.index == index
                    &&& *column.grid == *old(self)
                    &&& *final(column.grid) == *final(self)
                },
                Err(error) => {
                    &&& error == GridError::OutOfBounds
                    &&& index >= old(self).spec_size().width
                    &&& *final(self) == *old(self)
                },
            },
    {
        if index < self.size.width {
            Ok(ColumnMut { grid: self, index })
        } else {
            Err(GridError::OutOfBounds)
        }
    }

    /// The views of all the rows, from top to bottom.
    pub fn rows(&self) -> (rows: Vec<Row<'_, T>>)
        ensures
            rows@.len() == self.spec_size().height,
            forall|y: int|
                0 <= y < rows@.len() ==> (#[trigger] rows@[y]).index == y && *rows@[y].grid
                    == *self,
    {
        let mut rows: Vec<Row<'_, T>> = Vec::with_capacity(self.size.height);
        let mut index: usize = 0;
        while index < self.size.height
            invariant
                index <= self.size.height,
                rows@.len() == index,
                forall|y: int|
                    0 <= y < rows@.len() ==> (#[trigger] rows@[y]).index == y && *rows@[y].grid
                        == *self,
            decreases self.size.height - index,
        {
            rows.push(Row { grid: self, index });
            index += 1;
        }
        rows
    }

    /// The views of all the columns, from left to right.
    pub fn columns(&self) -> (columns: Vec<Column<'_, T>>)
        ensures
            columns@.len() == self.spec_size().width,
            forall|x: int|
                0 <= x < columns@.len() ==> (#[trigger] columns@[x]).index == x
                    && *columns@[x].grid == *self,
    {
        let mut columns: Vec<Column<'_, T>> = Vec::with_capacity(self.size.width);
        let mut index: usize = 0;
        while index < self.size.width
            invariant
                index <= self.size.width,
                columns@.len() == index,
                forall|x: int|
                    0 <= x < columns@.len() ==> (#[trigger] columns@[x]).index == x
                        && *columns@[x].grid == *self,
            decreases self.size.width - index,
        {
            columns.push(Column { grid: self, index });
            index += 1;
        }
        columns
    }

    /// Reverses every row in place, so that the columns come in the
    /// opposite order.
    pub fn flip_horizontally(&mut self)
        requires
            old(self).wf(),
        ensures
            final(self).wf(),
            final(self).spec_size() == old(self).spec_size(),
            final(self).spec_capacity() == old(self).spec_capacity(),
            final(self)@ == flipped_horizontally(old(self)@),
    {
        let height = self.size.height;
        let mut index: usize = 0;
        while index < height
            invariant
                index <= height,
                self.wf(),
                self.spec_size() == old(self).spec_size(),
                self.spec_capacity() == old(self).spec_capacity(),
                height == self.spec_size().height,
                self@.len() == old(self)@.len(),
                forall|y: int| index <= y < height ==> self@[y] == old(self)@[y],
                forall|y: int| 0 <= y < index ==> self@[y] == old(self)@[y].reverse(),
            decreases height - index,
        {
            match self.row_mut(index) {
                Ok(mut row) => {
                    let _ = row.reverse();
                },
                Err(_) => {},
            }
            index += 1;
        }
        assert(self@ =~= flipped_horizontally(old(self)@));
    }

    /// Reverses every column in place, so that the rows come in the
    /// opposite order.
    pub fn flip_vertically(&mut self)
        requires
            old(self).wf(),
        ensures
            final(self).wf(),
            final(self).spec_size() == old(self).spec_size(),
            final(self).spec_capacity() == old(self).spec_capacity(),
            final(self)@ == flipped_vertically(old(self)@),
    {
        let width = self.size.width;
        let ghost height = self.size.height as int;
        let mut index: usize = 0;
        while index < width
            invariant
                index <= width,
                self.wf(),
                old(self).wf(),
                self.spec_size() == old(self).spec_size(),
                self.spec_capacity() == old(self).spec_capacity(),
                width == self.spec_size().width,
                height == self.spec_size().height,
                self@.len() == old(self)@.len(),
                forall|x: int, y: int|
                    #![trigger self@[y][x]]
                    0 <= y < height && 0 <= x < width ==> self@[y][x] == if x < index {
                        old(self)@[height - 1 - y][x]
                    } else {
                        old(self)@[y][x]
                    },
            decreases width - index,
        {
            let ghost before = self@;
            match self.column_mut(index) {
                Ok(mut column) => {
                    let _ = column.reverse();
                },
                Err(_) => {},
            }
            proof {
                assert forall|x: int, y: int|
                    #![trigger self@[y][x]]
                    0 <= y < height && 0 <= x < width implies self@[y][x] == if x < index + 1 {
                        old(self)@[height - 1 - y][x]
                    } else {
                        old(self)@[y][x]
                    } by {
                    if x == index {
                        assert(column_of(self@, x)[y] == column_of(before, x).reverse()[y]);
                        assert(before[height - 1 - y][x] == old(self)@[height - 1 - y][x]);
                    } else {
                        assert(before[y][x] == self@[y][x]);
                    }
                }
            }
            index += 1;
        }
        proof {
            self.lemma_shape();
            old(self).lemma_shape();
            assert forall|y: int| 0 <= y < height implies self@[y] == flipped_vertically(
                old(self)@,
            )[y] by {
                assert(self@[y].len() == width);
                assert(old(self)@[height - 1 - y].len() == width);
                assert forall|x: int| 0 <= x < width implies self@[y][x] == old(self)@[height - 1
                    - y][x] by {}
                assert(self@[y] =~= old(self)@[height - 1 - y]);
            }
            assert(self@ =~= flipped_vertically(old(self)@));
        }
    }

    /// Turns the grid a quarter turn to the left: the last column becomes
    /// the first row. The turned grid is built apart and takes the place of
    /// this one at the end; its capacity is its size.
    pub fn rotate_left(&mut self)
        requires
            old(self).wf(),
        ensures
            final(self).wf(),
            final(self).spec_size() == (Size {
                width: old(self).spec_size().height,
                height: old(self).spec_size().width,
            }),
            final(self).spec_capacity() == final(self).spec_size(),
            final(self)@ == rotated_left(old(self)@, old(self).spec_size().width as nat),
    {
        let width = self.size.width;
        let height = self.size.height;
        let size = Size::new(height, width);
        let mut grid = Self::with_capacity(size);
        let ghost before = self@;
        let mut i: usize = 0;
        while i < height
            invariant
                i <= height,
                old(self).wf(),
                before == old(self)@,
                width == old(self).size.width,
                height == old(self).size.height,
                self.rows@.len() == old(self).rows@.len(),
                grid.rows@.len() == width,
                grid.row_capacity == height,
                grid.size == (Size { width: 0, height: 0 }),
                forall|k: int| i <= k < height ==> self.rows@[k]@ == before[k],
                forall|j: int| 0 <= j < width ==> (#[trigger] grid.rows@[j])@.len() == i,
                forall|j: int, k: int|
                    #![trigger grid.rows@[j]@[k]]
                    0 <= j < width && 0 <= k < i ==> grid.rows@[j]@[k] == before[k][width - 1 - j],
            decreases height - i,
        {
            let mut j: usize = 0;
            while j < width
                invariant
                    i < height,
                    j <= width,
                    old(self).wf(),
                    before == old(self)@,
                    width == old(self).size.width,
                    height == old(self).size.height,
                    self.rows@.len() == old(self).rows@.len(),
                    grid.rows@.len() == width,
                    grid.row_capacity == height,
                    grid.size == (Size { width: 0, height: 0 }),
                    forall|k: int| i < k < height ==> self.rows@[k]@ == before[k],
                    self.rows@[i as int]@ == before[i as int].subrange(0, width - j),
                    forall|c: int|
                        0 <= c < width ==> (#[trigger] grid.rows@[c])@.len() == if c < j {
                            i + 1
                        } else {
                            i as int
                        },
                    forall|c: int, k: int|
                        #![trigger grid.rows@[c]@[k]]
                        0 <= c < width && 0 <= k < i ==> grid.rows@[c]@[k] == before[k][width - 1
                            - c],
                    forall|c: int|
                        0 <= c < j ==> (#[trigger] grid.rows@[c])@[i as int] == before[i as int][width
                            - 1 - c],
                decreases width - j,
            {
                let value = self.rows[i].pop().unwrap();
                grid.rows[j].push(value);
                j += 1;
            }
            i += 1;
        }
        grid.size = size;
        proof {
            assert forall|j: int| 0 <= j < width implies grid@[j] == rotated_left(
                before,
                width as nat,
            )[j] by {
                assert(grid@[j] == grid.rows@[j]@);
                assert(grid@[j] =~= rotated_left(before, width as nat)[j]);
            }
            assert(grid@ =~= rotated_left(before, width as nat));
        }
        *self = grid;
    }

    /// Turns the grid a quarter turn to the right: the first column, read
    /// from the bottom up, becomes the first row. The turned grid is built
    /// apart and takes the place of this one at the end; its capacity is its
    /// size.
    pub fn rotate_right(&mut self)
        requires
            old(self).wf(),
        ensures
            final(self).wf(),
            final(self).spec_size() == (Size {
                width: old(self).spec_size().height,
                height: old(self).spec_size().width,
            }),
            final(self).spec_capacity() == final(self).spec_size(),
            final(self)@ == rotated_right(old(self)@, old(self).spec_size().width as nat),
    {
        let width = self.size.width;
        let height = self.size.height;
        let size = Size::new(height, width);
        let mut grid = Self::with_capacity(size);
        let ghost before = self@;
        let mut i: usize = height;
        while i > 0
            invariant
                i <= height,
                old(self).wf(),
                before == old(self)@,
                width == old(self).size.width,
                height == old(self).size.height,
                self.rows@.len() == old(self).rows@.len(),
                grid.rows@.len() == width,
                grid.row_capacity == height,
                grid.size == (Size { width: 0, height: 0 }),
                forall|k: int| 0 <= k < i ==> self.rows@[k]@ == before[k],
                forall|j: int| 0 <= j < width ==> (#[trigger] grid.rows@[j])@.len() == height - i,
                forall|j: int, k: int|
                    #![trigger grid.rows@[j]@[k]]
                    0 <= j < width && 0 <= k < height - i ==> grid.rows@[j]@[k] == before[height
                        - 1 - k][j],
            decreases i,
        {
            i -= 1;
            let mut j: usize = width;
            while j > 0
                invariant
                    i < height,
                    j <= width,
                    old(self).wf(),
                    before == old(self)@,
                    width == old(self).size.width,
                    height == old(self).size.height,
                    self.rows@.len() == old(self).rows@.len(),
                    grid.rows@.len() == width,
                    grid.row_capacity == height,
                    grid.size == (Size { width: 0, height: 0 }),
                    forall|k: int| 0 <= k < i ==> self.rows@[k]@ == before[k],
                    self.rows@[i as int]@ == before[i as int].subrange(0, j as int),
                    forall|c: int|
                        0 <= c < width ==> (#[trigger] grid.rows@[c])@.len() == if c >= j {
                            height - i
                        } else {
                            height - i - 1
                        },
                    forall|c: int, k: int|
                        #![trigger grid.rows@[c]@[k]]
                        0 <= c < width && 0 <= k < height - i - 1 ==> grid.rows@[c]@[k]
                            == before[height - 1 - k][c],
                    forall|c: int|
                        j <= c < width ==> (#[trigger] grid.rows@[c])@[height - i - 1]
                            == before[i as int][c],
                decreases j,
            {
                j -= 1;
                let value = self.rows[i].pop().unwrap();
                grid.rows[j].push(value);
            }
        }
        grid.size = size;
        proof {
            assert forall|j: int| 0 <= j < width implies grid@[j] == rotated_right(
                before,
                width as nat,
            )[j] by {
                assert(grid@[j] == grid.rows@[j]@);
                assert(grid@[j] =~= rotated_right(before, width as nat)[j]);
            }
            assert(grid@ =~= rotated_right(before, width as nat));
        }
        *self = grid;
    }
}

} // verus!

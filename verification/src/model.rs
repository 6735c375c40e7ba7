use vstd::prelude::*;

verus! {

/// `rows` holds `height` rows of `width` elements each.
pub open spec fn rectangular<T>(rows: Seq<Seq<T>>, width: nat, height: nat) -> bool {
    &&& rows.len() == height
    &&& forall|y: int| 0 <= y < rows.len() ==> (#[trigger] rows[y]).len() == width
}

/// All the sequences have the length of the first one.
pub open spec fn uniform<T>(rows: Seq<Seq<T>>) -> bool {
    forall|y: int| 0 <= y < rows.len() ==> (#[trigger] rows[y]).len() == rows[0].len()
}

/// The length shared by the sequences of a uniform list, 0 for an empty list.
pub open spec fn common_length<T>(rows: Seq<Seq<T>>) -> nat {
    if rows.len() == 0 {
        0
    } else {
        rows[0].len()
    }
}

/// The contents of a list of vectors.
pub open spec fn contents<T>(rows: Seq<Vec<T>>) -> Seq<Seq<T>> {
    Seq::new(rows.len(), |y: int| rows[y]@)
}

/// The elements in reading order: row after row, each from left to right.
pub open spec fn row_major<T>(rows: Seq<Seq<T>>) -> Seq<T>
    decreases rows.len(),
{
    if rows.len() == 0 {
        Seq::empty()
    } else {
        row_major(rows.drop_last()) + rows.last()
    }
}

/// `s` with the elements at `a` and `b` exchanged.
pub open spec fn exchanged<T>(s: Seq<T>, a: int, b: int) -> Seq<T> {
    s.update(a, s[b]).update(b, s[a])
}

/// `rows` with the element at column `x` of row `y` replaced by `value`.
pub open spec fn with_value<T>(rows: Seq<Seq<T>>, x: int, y: int, value: T) -> Seq<Seq<T>> {
    rows.update(y, rows[y].update(x, value))
}

/// `rows` with the elements at `(ax, ay)` and `(bx, by)` exchanged.
pub open spec fn with_values_swapped<T>(rows: Seq<Seq<T>>, ax: int, ay: int, bx: int, by: int) -> Seq<
    Seq<T>,
> {
    with_value(with_value(rows, ax, ay, rows[by][bx]), bx, by, rows[ay][ax])
}

/// Column `x` of `rows`, from top to bottom.
pub open spec fn column_of<T>(rows: Seq<Seq<T>>, x: int) -> Seq<T> {
    Seq::new(rows.len(), |y: int| rows[y][x])
}

/// `rows` with `column` inserted before column `x`.
pub open spec fn with_column_inserted<T>(rows: Seq<Seq<T>>, x: int, column: Seq<T>) -> Seq<Seq<T>> {
    Seq::new(rows.len(), |y: int| rows[y].insert(x, column[y]))
}

/// `rows` without column `x`.
pub open spec fn with_column_removed<T>(rows: Seq<Seq<T>>, x: int) -> Seq<Seq<T>> {
    Seq::new(rows.len(), |y: int| rows[y].remove(x))
}

/// `rows` with columns `a` and `b` exchanged.
pub open spec fn with_columns_swapped<T>(rows: Seq<Seq<T>>, a: int, b: int) -> Seq<Seq<T>> {
    Seq::new(rows.len(), |y: int| exchanged(rows[y], a, b))
}

/// Every row read from right to left.
pub open spec fn flipped_horizontally<T>(rows: Seq<Seq<T>>) -> Seq<Seq<T>> {
    Seq::new(rows.len(), |y: int| rows[y].reverse())
}

/// The rows from bottom to top, so that every column is reversed.
pub open spec fn flipped_vertically<T>(rows: Seq<Seq<T>>) -> Seq<Seq<T>> {
    rows.reverse()
}

/// A quarter turn to the left of `rows`, each `width` wide: the last column
/// becomes the first row.
pub open spec fn rotated_left<T>(rows: Seq<Seq<T>>, width: nat) -> Seq<Seq<T>> {
    Seq::new(width, |j: int| Seq::new(rows.len(), |i: int| rows[i][width - 1 - j]))
}

/// A quarter turn to the right of `rows`, each `width` wide: the first
/// column, read from the bottom up, becomes the first row.
pub open spec fn rotated_right<T>(rows: Seq<Seq<T>>, width: nat) -> Seq<Seq<T>> {
    Seq::new(width, |j: int| Seq::new(rows.len(), |i: int| rows[rows.len() - 1 - i][j]))
}

/// Rows and columns exchanged: `width` rows, one for each column of `rows`.
pub open spec fn transposed<T>(rows: Seq<Seq<T>>, width: nat) -> Seq<Seq<T>> {
    Seq::new(width, |x: int| column_of(rows, x))
}

} // verus!

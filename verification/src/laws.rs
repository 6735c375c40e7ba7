use vstd::prelude::*;
use crate::buffer::{turned_left, turned_right};
use crate::model::{
    column_of, exchanged, flipped_horizontally, flipped_vertically, rectangular, rotated_left,
    rotated_right, row_major, with_column_inserted, with_column_removed, with_value,
    with_values_swapped,
};

verus! {

/// What is written at a coordinate is what is read there afterwards, and
/// every other element is what it was.
pub proof fn lemma_write_then_read<T>(rows: Seq<Seq<T>>, x: int, y: int, value: T)
    requires
        0 <= y < rows.len(),
        0 <= x < rows[y].len(),
    ensures
        with_value(rows, x, y, value)[y][x] == value,
        with_value(rows, x, y, value).len() == rows.len(),
        forall|i: int, j: int|
            0 <= j < rows.len() && 0 <= i < rows[j].len() && !(i == x && j == y) ==> #[trigger] with_value(
                rows,
                x,
                y,
                value,
            )[j][i] == rows[j][i],
{
}

/// Inserting a row and then removing the row at the same index gives back
/// the rows as they were.
pub proof fn lemma_insert_then_remove_row<T>(rows: Seq<Seq<T>>, index: int, row: Seq<T>)
    requires
        0 <= index <= rows.len(),
    ensures
        rows.insert(index, row).remove(index) == rows,
{
    assert(rows.insert(index, row).remove(index) =~= rows);
}

/// Inserting a column and then removing the column at the same index gives
/// back the rows as they were.
pub proof fn lemma_insert_then_remove_column<T>(
    rows: Seq<Seq<T>>,
    width: nat,
    index: int,
    column: Seq<T>,
)
    requires
        rectangular(rows, width, rows.len()),
        0 <= index <= width,
    ensures
        with_column_removed(with_column_inserted(rows, index, column), index) == rows,
{
    let back = with_column_removed(with_column_inserted(rows, index, column), index);
    assert forall|y: int| 0 <= y < rows.len() implies back[y] == rows[y] by {
        assert(rows[y].insert(index, column[y]).remove(index) =~= rows[y]);
    }
    assert(back =~= rows);
}

/// Flipping vertically reverses every column.
pub proof fn lemma_flip_vertically_reverses_columns<T>(rows: Seq<Seq<T>>, x: int)
    ensures
        column_of(flipped_vertically(rows), x) == column_of(rows, x).reverse(),
{
    assert(column_of(flipped_vertically(rows), x) =~= column_of(rows, x).reverse());
}

/// A quarter turn to the left followed by one to the right gives back the
/// rows as they were.
pub proof fn lemma_rotate_left_then_right<T>(rows: Seq<Seq<T>>, width: nat)
    requires
        rectangular(rows, width, rows.len()),
    ensures
        rectangular(rotated_left(rows, width), rows.len(), width),
        rotated_right(rotated_left(rows, width), rows.len()) == rows,
{
    let turned = rotated_left(rows, width);
    let back = rotated_right(turned, rows.len());
    assert forall|y: int| 0 <= y < rows.len() implies back[y] == rows[y] by {
        assert(back[y] =~= rows[y]);
    }
    assert(back =~= rows);
}

/// A quarter turn to the right followed by one to the left gives back the
/// rows as they were.
pub proof fn lemma_rotate_right_then_left<T>(rows: Seq<Seq<T>>, width: nat)
    requires
        rectangular(rows, width, rows.len()),
    ensures
        rectangular(rotated_right(rows, width), rows.len(), width),
        rotated_left(rotated_right(rows, width), rows.len()) == rows,
{
    let turned = rotated_right(rows, width);
    let back = rotated_left(turned, rows.len());
    assert forall|y: int| 0 <= y < rows.len() implies back[y] == rows[y] by {
        assert(back[y] =~= rows[y]);
    }
    assert(back =~= rows);
}

/// Flipping horizontally twice gives back the rows as they were.
pub proof fn lemma_flip_horizontally_twice<T>(rows: Seq<Seq<T>>)
    ensures
        flipped_horizontally(flipped_horizontally(rows)) == rows,
{
    let back = flipped_horizontally(flipped_horizontally(rows));
    assert forall|y: int| 0 <= y < rows.len() implies back[y] == rows[y] by {
        assert(back[y] =~= rows[y]);
    }
    assert(back =~= rows);
}

/// Flipping vertically twice gives back the rows as they were.
pub proof fn lemma_flip_vertically_twice<T>(rows: Seq<Seq<T>>)
    ensures
        flipped_vertically(flipped_vertically(rows)) == rows,
{
    assert(flipped_vertically(flipped_vertically(rows)) =~= rows);
}

/// Exchanging an element with itself changes nothing.
pub proof fn lemma_swap_with_itself<T>(rows: Seq<Seq<T>>, x: int, y: int)
    requires
        0 <= y < rows.len(),
        0 <= x < rows[y].len(),
    ensures
        with_values_swapped(rows, x, y, x, y) == rows,
{
    assert(with_values_swapped(rows, x, y, x, y)[y] =~= rows[y]);
    assert(with_values_swapped(rows, x, y, x, y) =~= rows);
}

/// An exchange of two elements, in one row or in two, does what copying
/// both and writing each copy in the other's place does: each of the two
/// places holds what the other held, and every other element is what it
/// was.
pub proof fn lemma_swap_exchanges<T>(rows: Seq<Seq<T>>, ax: int, ay: int, bx: int, by: int)
    requires
        0 <= ay < rows.len(),
        0 <= ax < rows[ay].len(),
        0 <= by < rows.len(),
        0 <= bx < rows[by].len(),
    ensures
        with_values_swapped(rows, ax, ay, bx, by).len() == rows.len(),
        with_values_swapped(rows, ax, ay, bx, by)[ay][ax] == rows[by][bx],
        with_values_swapped(rows, ax, ay, bx, by)[by][bx] == rows[ay][ax],
        forall|i: int, j: int|
            0 <= j < rows.len() && 0 <= i < rows[j].len() && !(i == ax && j == ay) && !(i == bx
                && j == by) ==> #[trigger] with_values_swapped(rows, ax, ay, bx, by)[j][i]
                == rows[j][i],
        forall|j: int|
            0 <= j < rows.len() ==> (#[trigger] with_values_swapped(rows, ax, ay, bx, by)[j]).len()
                == rows[j].len(),
{
}

/// Turning a row to the left and then as far to the right gives back the
/// row as it was.
pub proof fn lemma_turn_left_then_right<T>(row: Seq<T>, number: int)
    requires
        0 <= number <= row.len(),
    ensures
        turned_right(turned_left(row, number), number) == row,
{
    assert(turned_right(turned_left(row, number), number) =~= row);
}

/// Turning a row to the right and then as far to the left gives back the
/// row as it was.
pub proof fn lemma_turn_right_then_left<T>(row: Seq<T>, number: int)
    requires
        0 <= number <= row.len(),
    ensures
        turned_left(turned_right(row, number), number) == row,
{
    assert(turned_left(turned_right(row, number), number) =~= row);
}

/// A turn by nothing and a turn by the whole length move nothing, in either
/// direction.
pub proof fn lemma_turn_whole<T>(row: Seq<T>)
    ensures
        turned_left(row, 0) == row,
        turned_left(row, row.len() as int) == row,
        turned_right(row, 0) == row,
        turned_right(row, row.len() as int) == row,
{
    assert(turned_left(row, 0) =~= row);
    assert(turned_left(row, row.len() as int) =~= row);
    assert(turned_right(row, 0) =~= row);
    assert(turned_right(row, row.len() as int) =~= row);
}

/// A sum below twice the length, taken modulo the length.
pub proof fn lemma_wrap(v: int, len: int)
    requires
        0 < len,
        0 <= v < 2 * len,
    ensures
        v % len == if v >= len {
            v - len
        } else {
            v
        },
{
    if v >= len {
        vstd::arithmetic::div_mod::lemma_small_mod((v - len) as nat, len as nat);
        vstd::arithmetic::div_mod::lemma_mod_add_multiples_vanish(v - len, len);
    } else {
        vstd::arithmetic::div_mod::lemma_small_mod(v as nat, len as nat);
    }
}

/// A turn to the left, or to the top, is cyclic: after it position `i`
/// holds what stood `number` places further on, counted round the end.
pub proof fn lemma_turned_left_is_cyclic<T>(row: Seq<T>, number: int, i: int)
    requires
        0 <= number <= row.len(),
        0 <= i < row.len(),
    ensures
        turned_left(row, number).len() == row.len(),
        0 <= (i + number) % (row.len() as int) < row.len(),
        turned_left(row, number)[i] == row[(i + number) % (row.len() as int)],
{
    lemma_wrap(i + number, row.len() as int);
}

/// A turn to the right, or to the bottom, is cyclic: after it what stood at
/// position `i` stands `number` places further on, counted round the end.
pub proof fn lemma_turned_right_is_cyclic<T>(row: Seq<T>, number: int, i: int)
    requires
        0 <= number <= row.len(),
        0 <= i < row.len(),
    ensures
        turned_right(row, number).len() == row.len(),
        0 <= (i + number) % (row.len() as int) < row.len(),
        turned_right(row, number)[(i + number) % (row.len() as int)] == row[i],
{
    lemma_wrap(i + number, row.len() as int);
}

/// In reading order the element at coordinate `(x, y)` of a grid `width`
/// wide is element `y * width + x`, and there are `width * height`
/// elements.
pub proof fn lemma_row_major_index<T>(rows: Seq<Seq<T>>, width: nat, x: int, y: int)
    requires
        rectangular(rows, width, rows.len()),
        0 <= y < rows.len(),
        0 <= x < width,
    ensures
        row_major(rows).len() == rows.len() * width,
        0 <= y * width + x < row_major(rows).len(),
        row_major(rows)[y * width + x] == rows[y][x],
    decreases rows.len(),
{
    lemma_row_major_len(rows, width);
    let above = rows.drop_last();
    lemma_row_major_len(above, width);
    assert((rows.len() - 1) * width + width == rows.len() * width) by (nonlinear_arith);
    if y == rows.len() - 1 {
        assert(row_major(rows)[above.len() * width + x] == rows.last()[x]);
    } else {
        lemma_row_major_index(above, width, x, y);
        assert(above[y] == rows[y]);
    }
}

/// In reading order a grid `width` wide has `width` elements for each row.
pub proof fn lemma_row_major_len<T>(rows: Seq<Seq<T>>, width: nat)
    requires
        rectangular(rows, width, rows.len()),
    ensures
        row_major(rows).len() == rows.len() * width,
    decreases rows.len(),
{
    if rows.len() > 0 {
        lemma_row_major_len(rows.drop_last(), width);
        assert((rows.len() - 1) * width + width == rows.len() * width) by (nonlinear_arith);
    } else {
        assert(0 * width == 0) by (nonlinear_arith);
    }
}

} // verus!

use ingrid::{Coordinate, Grid, GridError, GridIterator, Size};

fn all_are(grid: &Grid<i32>, value: i32) -> bool {
    let mut iterator = grid.iterator();
    let mut all = true;
    while let Some(item) = iterator.next() {
        all = all && *item == value;
    }
    all
}

#[test]
fn grid_new() {
    let grid = Grid::<()>::new();
    assert_eq!(grid.size(), Size::new(0, 0));
    assert_eq!(grid.capacity(), Size::new(0, 0));
}

#[test]
fn grid_with_size() {
    let grid = Grid::with_size(Size::new(2, 3), 42);

    assert_eq!(grid.size(), Size::new(2, 3));
    assert_eq!(all_are(&grid, 42), true);

    assert_eq!(grid.capacity(), Size::new(2, 3));
}

#[test]
fn grid_with_capacity() {
    let grid = Grid::<()>::with_capacity(Size::new(5, 5));

    assert_eq!(grid.size(), Size::new(0, 0));
    assert_eq!(grid.capacity(), Size::new(5, 5));
}

#[test]
fn grid_size() {
    let mut grid = Grid::zero();
    assert_eq!(grid.size(), Size::new(0, 0));

    grid.resize(Size::new(3, 0), 42);
    assert_eq!(grid.size(), Size::new(3, 0));

    grid.resize(Size::new(0, 3), 42);
    assert_eq!(grid.size(), Size::new(0, 3));

    grid.resize(Size::new(3, 3), 42);
    assert_eq!(grid.size(), Size::new(3, 3));
}

#[test]
fn grid_resize() {
    // [0,  0, 0] => [ 0]
    // [0, 42, 0]    [ 0]
    // [0,  0, 0]    [ 0]
    //               [42]
    //               [42]
    let mut grid = Grid::from_rows(vec![vec![0,  0, 0],
                                        vec![0, 42, 0],
                                        vec![0,  0, 0]]).unwrap();

    grid.resize(Size::new(1, 5), 42);
    assert_eq!(grid.size(), Size::new(1, 5));

    assert_eq!(grid.value(Coordinate::new(0, 0)).unwrap(), &0);
    assert_eq!(grid.value(Coordinate::new(0, 1)).unwrap(), &0);
    assert_eq!(grid.value(Coordinate::new(0, 2)).unwrap(), &0);
    assert_eq!(grid.value(Coordinate::new(0, 3)).unwrap(), &42);
    assert_eq!(grid.value(Coordinate::new(0, 4)).unwrap(), &42);

    // Capacity doesn't change unless it's too small.
    assert_eq!(grid.capacity(), Size::new(3, 5));
}

#[test]
fn grid_fill() {
    let mut grid = Grid::with_size(Size::new(3, 3), 0);
    assert_eq!(all_are(&grid, 42), false);

    grid.fill(42);
    assert_eq!(all_are(&grid, 42), true);
}

#[test]
fn grid_clear() {
    let mut grid = Grid::zero();

    grid.clear();
    assert_eq!(grid.size(), Size::new(0, 0));
    assert_eq!(grid.capacity(), Size::new(0, 0));

    grid.resize(Size::new(3, 0), 42);
    grid.clear();
    assert_eq!(grid.size(), Size::new(0, 0));
    assert_eq!(grid.capacity(), Size::new(3, 0));

    grid.resize(Size::new(0, 3), 42);
    grid.clear();
    assert_eq!(grid.size(), Size::new(0, 0));
    assert_eq!(grid.capacity(), Size::new(3, 3));

    grid.resize(Size::new(5, 5), 42);
    grid.clear();
    assert_eq!(grid.size(), Size::new(0, 0));
    assert_eq!(grid.capacity(), Size::new(5, 5));
}

#[test]
fn grid_from_rows() {
    let grid = Grid::from_rows(vec![vec![1, 2, 3], vec![4, 5, 6]]).unwrap();

    assert_eq!(grid.size(), Size::new(3, 2));
    assert_eq!(grid.value(Coordinate::new(0, 0)).unwrap(), &1);
    assert_eq!(grid.value(Coordinate::new(1, 0)).unwrap(), &2);
    assert_eq!(grid.value(Coordinate::new(2, 0)).unwrap(), &3);
    assert_eq!(grid.value(Coordinate::new(0, 1)).unwrap(), &4);
    assert_eq!(grid.value(Coordinate::new(1, 1)).unwrap(), &5);
    assert_eq!(grid.value(Coordinate::new(2, 1)).unwrap(), &6);

    assert_eq!(grid.capacity(), Size::new(3, 2));

    assert_eq!(Grid::from_rows(vec![vec![1, 2, 3], vec![4, 5, 6], vec![7, 8]]).err(), Some(GridError::ShapeError));
}

#[test]
fn grid_from_columns() {
    let grid = Grid::from_columns(vec![vec![1, 3, 5], vec![2, 4, 6]]).unwrap();

    assert_eq!(grid.size(), Size::new(2, 3));
    assert_eq!(grid.value(Coordinate::new(0, 0)).unwrap(), &1);
    assert_eq!(grid.value(Coordinate::new(1, 0)).unwrap(), &2);
    assert_eq!(grid.value(Coordinate::new(0, 1)).unwrap(), &3);
    assert_eq!(grid.value(Coordinate::new(1, 1)).unwrap(), &4);
    assert_eq!(grid.value(Coordinate::new(0, 2)).unwrap(), &5);
    assert_eq!(grid.value(Coordinate::new(1, 2)).unwrap(), &6);

    assert_eq!(grid.capacity(), Size::new(2, 3));

    assert_eq!(Grid::from_columns(vec![vec![1, 4, 7], vec![2, 5, 8], vec![3, 6]]).err(), Some(GridError::ShapeError));
}

#[test]
fn grid_value() {
    let grid = Grid::from_rows(vec![vec![1, 2],
                                    vec![3, 4]]).unwrap();

    assert_eq!(grid.value(Coordinate::new(0, 0)).unwrap(), &1);
    assert_eq!(grid.value(Coordinate::new(1, 0)).unwrap(), &2);
    assert_eq!(grid.value(Coordinate::new(0, 1)).unwrap(), &3);
    assert_eq!(grid.value(Coordinate::new(1, 1)).unwrap(), &4);

    assert_eq!(grid.value(Coordinate::new(0, 2)).err(), Some(GridError::OutOfBounds));
}

#[test]
fn grid_value_mut() {
    let mut grid = Grid::from_rows(vec![vec![1, 2],
                                        vec![3, 0]]).unwrap();

    *grid.value_mut(Coordinate::new(1, 1)).unwrap() = 4;

    assert_eq!(grid.value(Coordinate::new(0, 0)).unwrap(), &1);
    assert_eq!(grid.value(Coordinate::new(1, 0)).unwrap(), &2);
    assert_eq!(grid.value(Coordinate::new(0, 1)).unwrap(), &3);
    assert_eq!(grid.value(Coordinate::new(1, 1)).unwrap(), &4);

    assert_eq!(grid.value_mut(Coordinate::new(0, 2)).err(), Some(GridError::OutOfBounds));
}

#[test]
fn grid_set_value() {
    let mut grid = Grid::from_rows(vec![vec![1, 2],
                                        vec![3, 0]]).unwrap();

    grid.set_value(Coordinate::new(1, 1), 4).unwrap();

    assert_eq!(grid.value(Coordinate::new(0, 0)).unwrap(), &1);
    assert_eq!(grid.value(Coordinate::new(1, 0)).unwrap(), &2);
    assert_eq!(grid.value(Coordinate::new(0, 1)).unwrap(), &3);
    assert_eq!(grid.value(Coordinate::new(1, 1)).unwrap(), &4);

    assert_eq!(grid.set_value(Coordinate::new(0, 2), 5).err(), Some(GridError::OutOfBounds));
}

#[test]
fn grid_swap_value() {
    let mut grid = Grid::from_rows(vec![vec![1, 4],
                                        vec![3, 2]]).unwrap();

    grid.swap_value(Coordinate::new(1, 0), Coordinate::new(1, 1)).unwrap();

    assert_eq!(grid.value(Coordinate::new(0, 0)).unwrap(), &1);
    assert_eq!(grid.value(Coordinate::new(1, 0)).unwrap(), &2);
    assert_eq!(grid.value(Coordinate::new(0, 1)).unwrap(), &3);
    assert_eq!(grid.value(Coordinate::new(1, 1)).unwrap(), &4);
}

#[test]
fn grid_values() {
    let grid = Grid::from_rows(vec![vec![1, 2],
                                    vec![3, 4]]).unwrap();

    assert_eq!(grid.values(), vec![&1, &2, &3, &4]);
}

#[test]
fn grid_index() {
    let grid = Grid::from_rows(vec![vec![1, 2],
                                    vec![3, 4]]).unwrap();

    assert_eq!(*grid.value(Coordinate::new(0, 0)).unwrap(), 1);
    assert_eq!(*grid.value(Coordinate::new(1, 0)).unwrap(), 2);
    assert_eq!(*grid.value(Coordinate::new(0, 1)).unwrap(), 3);
    assert_eq!(*grid.value(Coordinate::new(1, 1)).unwrap(), 4);

    assert_eq!(grid.value(Coordinate::new(0, 2)).err(), Some(GridError::OutOfBounds));
}

#[test]
fn grid_index_mut() {
    let mut grid = Grid::from_rows(vec![vec![1, 2],
                                        vec![3, 0]]).unwrap();

    *grid.value_mut(Coordinate::new(1, 1)).unwrap() = 4;

    assert_eq!(*grid.value(Coordinate::new(0, 0)).unwrap(), 1);
    assert_eq!(*grid.value(Coordinate::new(1, 0)).unwrap(), 2);
    assert_eq!(*grid.value(Coordinate::new(0, 1)).unwrap(), 3);
    assert_eq!(*grid.value(Coordinate::new(1, 1)).unwrap(), 4);

    assert_eq!(grid.value(Coordinate::new(0, 2)).err(), Some(GridError::OutOfBounds));
}

#[test]
fn grid_iterator() {
    let grid = Grid::from_rows(vec![vec![1, 2],
                                    vec![3, 4]]).unwrap();

    let mut iterator = grid.iterator();
    assert_eq!(iterator.next(), Some(&1));
    assert_eq!(iterator.next(), Some(&2));
    assert_eq!(iterator.next(), Some(&3));
    assert_eq!(iterator.next(), Some(&4));
    assert_eq!(iterator.next(), None);
}

#[test]
fn grid_row() {
    let grid = Grid::from_rows(vec![vec![1, 2], vec![3, 4]]).unwrap();

    assert_eq!(grid.row(0).unwrap().values().unwrap(), vec![&1, &2]);
    assert_eq!(grid.row(1).unwrap().values().unwrap(), vec![&3, &4]);

    assert_eq!(grid.row(2).err(), Some(GridError::OutOfBounds));
}

#[test]
fn grid_row_mut() {
    let mut grid = Grid::from_rows(vec![vec![1, 2],
                                        vec![3, 4]]).unwrap();

    assert_eq!(grid.row_mut(0).unwrap().values().unwrap(), vec![&1, &2]);
    assert_eq!(grid.row_mut(1).unwrap().values().unwrap(), vec![&3, &4]);

    assert_eq!(grid.row_mut(2).err(), Some(GridError::OutOfBounds));
}

#[test]
fn grid_swap_row() {
    let mut grid = Grid::from_rows(vec![vec![3, 4],
                                        vec![1, 2]]).unwrap();

    grid.swap_row(0, 1).unwrap();
    assert_eq!(grid.row(0).unwrap().values().unwrap(), vec![&1, &2]);
    assert_eq!(grid.row(1).unwrap().values().unwrap(), vec![&3, &4]);

    assert_eq!(grid.swap_row(1, 2).err(), Some(GridError::OutOfBounds));
}

#[test]
fn grid_rows() {
    let grid = Grid::from_rows(vec![vec![1, 2],
                                    vec![3, 4]]).unwrap();

    assert_eq!(grid.rows(), vec![grid.row(0).unwrap(), grid.row(1).unwrap()]);
}

#[test]
fn grid_insert_row() {
    let mut grid = Grid::from_rows(vec![vec![4, 5, 6]]).unwrap();

    assert_eq!(grid.capacity(), Size::new(3, 1));

    // Test inserting a row at the very beginning.
    grid.insert_row(0, vec![1, 2, 3]).unwrap();

    assert_eq!(grid.size(), Size::new(3, 2));
    assert_eq!(*grid.value(Coordinate::new(0, 0)).unwrap(), 1);
    assert_eq!(*grid.value(Coordinate::new(1, 0)).unwrap(), 2);
    assert_eq!(*grid.value(Coordinate::new(2, 0)).unwrap(), 3);

    assert_eq!(grid.capacity(), Size::new(3, 2));

    // Test inserting a row at the very end
    grid.insert_row(2, vec![7, 8, 9]).unwrap();

    assert_eq!(grid.size(), Size::new(3, 3));
    assert_eq!(*grid.value(Coordinate::new(0, 2)).unwrap(), 7);
    assert_eq!(*grid.value(Coordinate::new(1, 2)).unwrap(), 8);
    assert_eq!(*grid.value(Coordinate::new(2, 2)).unwrap(), 9);

    assert_eq!(grid.capacity(), Size::new(3, 3));

    assert_eq!(*grid.value(Coordinate::new(0, 1)).unwrap(), 4);
    assert_eq!(*grid.value(Coordinate::new(1, 1)).unwrap(), 5);
    assert_eq!(*grid.value(Coordinate::new(2, 1)).unwrap(), 6);
}

#[test]
fn grid_insert_row_with_capacity() {
    let mut grid = Grid::from_rows(vec![vec![4, 5, 6]]).unwrap();
    grid.reserve(Size::new(0, 2)).unwrap();

    assert_eq!(grid.capacity(), Size::new(3, 3));

    // Test inserting a row at the very beginning.
    grid.insert_row(0, vec![1, 2, 3]).unwrap();

    assert_eq!(grid.size(), Size::new(3, 2));
    assert_eq!(*grid.value(Coordinate::new(0, 0)).unwrap(), 1);
    assert_eq!(*grid.value(Coordinate::new(1, 0)).unwrap(), 2);
    assert_eq!(*grid.value(Coordinate::new(2, 0)).unwrap(), 3);

    assert_eq!(grid.capacity(), Size::new(3, 3));

    // Test inserting a row at the very end
    grid.insert_row(2, vec![7, 8, 9]).unwrap();

    assert_eq!(grid.size(), Size::new(3, 3));
    assert_eq!(*grid.value(Coordinate::new(0, 2)).unwrap(), 7);
    assert_eq!(*grid.value(Coordinate::new(1, 2)).unwrap(), 8);
    assert_eq!(*grid.value(Coordinate::new(2, 2)).unwrap(), 9);

    assert_eq!(grid.capacity(), Size::new(3, 3));

    assert_eq!(*grid.value(Coordinate::new(0, 1)).unwrap(), 4);
    assert_eq!(*grid.value(Coordinate::new(1, 1)).unwrap(), 5);
    assert_eq!(*grid.value(Coordinate::new(2, 1)).unwrap(), 6);
}

#[test]
fn grid_insert_row_zero() {
    // Test inserting a row in empty grid.
    let mut grid = Grid::<()>::new();
    grid.insert_row(0, vec![]).unwrap();
    assert_eq!(grid.size(), Size::new(0, 1));

    let mut grid = Grid::new();
    grid.resize(Size::new(3, 0), 42);
    grid.insert_row(0, vec![1, 2, 3]).unwrap();

    assert_eq!(*grid.value(Coordinate::new(0, 0)).unwrap(), 1);
    assert_eq!(*grid.value(Coordinate::new(1, 0)).unwrap(), 2);
    assert_eq!(*grid.value(Coordinate::new(2, 0)).unwrap(), 3);

    assert_eq!(grid.size(), Size::new(3, 1));
}

#[test]
fn grid_insert_row_invalid_index() {
    // Test inserting a row with invalid index.
    let mut grid = Grid::from_rows(vec![vec![1, 2, 3],
                                        vec![4, 5, 6]]).unwrap();

    assert_eq!(grid.insert_row(3, vec![7, 8, 9]).err(), Some(GridError::OutOfBounds));
}

#[test]
fn grid_insert_row_invalid_row() {
    // Test inserting a row with invalid elements.
    let mut grid = Grid::from_rows(vec![vec![1, 2, 3],
                                        vec![4, 5, 6]]).unwrap();

    assert_eq!(grid.insert_row(2, vec![7, 8]).err(), Some(GridError::ShapeError));
}

#[test]
fn grid_remove_row() {
    let mut grid = Grid::from_rows(vec![vec![1, 2, 3],
                                        vec![4, 5, 6],
                                        vec![7, 8, 9]]).unwrap();

    assert_eq!(grid.capacity(), Size::new(3, 3));

    // Test removing the row at the very beginning
    grid.remove_row(0).unwrap();

    assert_eq!(grid.size(), Size::new(3, 2));
    assert_eq!(*grid.value(Coordinate::new(0, 0)).unwrap(), 4);
    assert_eq!(*grid.value(Coordinate::new(1, 0)).unwrap(), 5);
    assert_eq!(*grid.value(Coordinate::new(2, 0)).unwrap(), 6);

    assert_eq!(grid.capacity(), Size::new(3, 3));

    // Test removing the row at the very end
    grid.remove_row(1).unwrap();

    assert_eq!(grid.size(), Size::new(3, 1));
    assert_eq!(*grid.value(Coordinate::new(0, 0)).unwrap(), 4);
    assert_eq!(*grid.value(Coordinate::new(1, 0)).unwrap(), 5);
    assert_eq!(*grid.value(Coordinate::new(2, 0)).unwrap(), 6);

    assert_eq!(grid.capacity(), Size::new(3, 3));

    // Test removing the very last row
    grid.remove_row(0).unwrap();
    assert_eq!(grid.size(), Size::new(3, 0));

    assert_eq!(grid.capacity(), Size::new(3, 3));
}

#[test]
fn grid_column() {
    let grid = Grid::from_rows(vec![vec![1, 2],
                                    vec![3, 4]]).unwrap();

    assert_eq!(grid.column(0).unwrap().values().unwrap(), vec![&1, &3]);
    assert_eq!(grid.column(1).unwrap().values().unwrap(), vec![&2, &4]);

    assert_eq!(grid.column(2).err(), Some(GridError::OutOfBounds));
}

#[test]
fn grid_column_mut() {
    let mut grid = Grid::from_rows(vec![vec![1, 2],
                                        vec![3, 4]]).unwrap();

    assert_eq!(grid.column_mut(0).unwrap().values().unwrap(), vec![&1, &3]);
    assert_eq!(grid.column_mut(1).unwrap().values().unwrap(), vec![&2, &4]);

    assert_eq!(grid.column_mut(2).err(), Some(GridError::OutOfBounds));
}

#[test]
fn grid_swap_column() {
    let mut grid = Grid::from_rows(vec![vec![2, 1],
                                        vec![4, 3]]).unwrap();

    grid.swap_column(0, 1).unwrap();
    assert_eq!(grid.column(0).unwrap().values().unwrap(), vec![&1, &3]);
    assert_eq!(grid.column(1).unwrap().values().unwrap(), vec![&2, &4]);

    assert_eq!(grid.swap_column(1, 2).err(), Some(GridError::OutOfBounds));
}

#[test]
fn grid_columns() {
    let grid = Grid::from_rows(vec![vec![1, 2],
                                    vec![3, 4]]).unwrap();

    assert_eq!(grid.columns(), vec![grid.column(0).unwrap(), grid.column(1).unwrap()]);
}

#[test]
fn grid_insert_column() {
    let mut grid = Grid::from_rows(vec![vec![2],
                                        vec![5],
                                        vec![8]]).unwrap();

    assert_eq!(grid.capacity(), Size::new(1, 3));

    // Test inserting a column the very beginning.
    grid.insert_column(0, vec![1, 4, 7]).unwrap();

    assert_eq!(grid.size(), Size::new(2, 3));
    assert_eq!(*grid.value(Coordinate::new(0, 0)).unwrap(), 1);
    assert_eq!(*grid.value(Coordinate::new(0, 1)).unwrap(), 4);
    assert_eq!(*grid.value(Coordinate::new(0, 2)).unwrap(), 7);

    assert_eq!(grid.capacity(), Size::new(2, 3));

    // Test inserting a column at the very end
    grid.insert_column(2, vec![3, 6, 9]).unwrap();

    assert_eq!(grid.size(), Size::new(3, 3));
    assert_eq!(*grid.value(Coordinate::new(2, 0)).unwrap(), 3);
    assert_eq!(*grid.value(Coordinate::new(2, 1)).unwrap(), 6);
    assert_eq!(*grid.value(Coordinate::new(2, 2)).unwrap(), 9);

    assert_eq!(grid.capacity(), Size::new(3, 3));

    assert_eq!(*grid.value(Coordinate::new(1, 0)).unwrap(), 2);
    assert_eq!(*grid.value(Coordinate::new(1, 1)).unwrap(), 5);
    assert_eq!(*grid.value(Coordinate::new(1, 2)).unwrap(), 8);
}

#[test]
fn grid_insert_column_with_capacity() {
    let mut grid = Grid::from_rows(vec![vec![2],
                                        vec![5],
                                        vec![8]]).unwrap();
    grid.reserve(Size::new(2, 0)).unwrap();

    assert_eq!(grid.capacity(), Size::new(3, 3));

    // Test inserting a column the very beginning.
    grid.insert_column(0, vec![1, 4, 7]).unwrap();

    assert_eq!(grid.size(), Size::new(2, 3));
    assert_eq!(*grid.value(Coordinate::new(0, 0)).unwrap(), 1);
    assert_eq!(*grid.value(Coordinate::new(0, 1)).unwrap(), 4);
    assert_eq!(*grid.value(Coordinate::new(0, 2)).unwrap(), 7);

    assert_eq!(grid.capacity(), Size::new(3, 3));

    // Test inserting a column at the very end
    grid.insert_column(2, vec![3, 6, 9]).unwrap();

    assert_eq!(grid.size(), Size::new(3, 3));
    assert_eq!(*grid.value(Coordinate::new(2, 0)).unwrap(), 3);
    assert_eq!(*grid.value(Coordinate::new(2, 1)).unwrap(), 6);
    assert_eq!(*grid.value(Coordinate::new(2, 2)).unwrap(), 9);

    assert_eq!(grid.capacity(), Size::new(3, 3));

    assert_eq!(*grid.value(Coordinate::new(1, 0)).unwrap(), 2);
    assert_eq!(*grid.value(Coordinate::new(1, 1)).unwrap(), 5);
    assert_eq!(*grid.value(Coordinate::new(1, 2)).unwrap(), 8);
}

#[test]
fn grid_insert_column_zero() {
    // Test inserting a column in empty grid.
    let mut grid = Grid::<()>::new();
    grid.insert_column(0, vec![]).unwrap();
    assert_eq!(grid.size(), Size::new(1, 0));

    let mut grid = Grid::new();
    grid.resize(Size::new(0, 3), 42);
    grid.insert_column(0, vec![1, 4, 7]).unwrap();

    assert_eq!(*grid.value(Coordinate::new(0, 0)).unwrap(), 1);
    assert_eq!(*grid.value(Coordinate::new(0, 1)).unwrap(), 4);
    assert_eq!(*grid.value(Coordinate::new(0, 2)).unwrap(), 7);

    assert_eq!(grid.size(), Size::new(1, 3));
}

#[test]
fn grid_insert_column_invalid_index() {
    // Test inserting a column with invalid index.
    let mut grid = Grid::from_rows(vec![vec![1, 2],
                                        vec![4, 5],
                                        vec![7, 8]]).unwrap();

    assert_eq!(grid.insert_column(3, vec![3, 6, 9]).err(), Some(GridError::OutOfBounds));
}

#[test]
fn grid_insert_column_invalid_column() {
    // Test inserting a column with invalid elements.
    let mut grid = Grid::from_rows(vec![vec![1, 2],
                                        vec![4, 5],
                                        vec![7, 8]]).unwrap();

    assert_eq!(grid.insert_column(2, vec![3, 6]).err(), Some(GridError::ShapeError));
}

#[test]
fn grid_remove_column() {
    let mut grid = Grid::from_rows(vec![vec![1, 2, 3],
                                        vec![4, 5, 6],
                                        vec![7, 8, 9]]).unwrap();

    assert_eq!(grid.capacity(), Size::new(3, 3));

    // Test removing the column at the very beginning
    grid.remove_column(0).unwrap();

    assert_eq!(grid.size(), Size::new(2, 3));
    assert_eq!(*grid.value(Coordinate::new(0, 0)).unwrap(), 2);
    assert_eq!(*grid.value(Coordinate::new(0, 1)).unwrap(), 5);
    assert_eq!(*grid.value(Coordinate::new(0, 2)).unwrap(), 8);

    assert_eq!(grid.capacity(), Size::new(3, 3));

    // Test removing the column at the very end
    grid.remove_column(1).unwrap();

    assert_eq!(grid.size(), Size::new(1, 3));
    assert_eq!(*grid.value(Coordinate::new(0, 0)).unwrap(), 2);
    assert_eq!(*grid.value(Coordinate::new(0, 1)).unwrap(), 5);
    assert_eq!(*grid.value(Coordinate::new(0, 2)).unwrap(), 8);

    assert_eq!(grid.capacity(), Size::new(3, 3));

    // Test removing the very last column
    grid.remove_column(0).unwrap();
    assert_eq!(grid.size(), Size::new(0, 3));

    assert_eq!(grid.capacity(), Size::new(3, 3));
}

#[test]
fn grid_flip_horizontally() {
    // [1, 2, 3] => [3, 2, 1]
    // [4, 5, 6]    [6, 5, 4]
    // [7, 8, 9]    [9, 8, 7]
    let mut grid = Grid::from_rows(vec![vec![1, 2, 3],
                                        vec![4, 5, 6],
                                        vec![7, 8, 9]]).unwrap();

    grid.flip_horizontally();

    assert_eq!(grid.size(), Size::new(3, 3));
    assert_eq!(grid.capacity(), Size::new(3, 3));

    assert_eq!(*grid.value(Coordinate::new(0, 0)).unwrap(), 3);
    assert_eq!(*grid.value(Coordinate::new(1, 0)).unwrap(), 2);
    assert_eq!(*grid.value(Coordinate::new(2, 0)).unwrap(), 1);
    assert_eq!(*grid.value(Coordinate::new(0, 1)).unwrap(), 6);
    assert_eq!(*grid.value(Coordinate::new(1, 1)).unwrap(), 5);
    assert_eq!(*grid.value(Coordinate::new(2, 1)).unwrap(), 4);
    assert_eq!(*grid.value(Coordinate::new(0, 2)).unwrap(), 9);
    assert_eq!(*grid.value(Coordinate::new(1, 2)).unwrap(), 8);
    assert_eq!(*grid.value(Coordinate::new(2, 2)).unwrap(), 7);

    // [1, 2, 3] => [3, 2, 1]
    // [4, 5, 6]    [6, 5, 4]
    let mut grid = Grid::from_rows(vec![vec![1, 2, 3],
                                        vec![4, 5, 6]]).unwrap();

    grid.flip_horizontally();

    assert_eq!(grid.size(), Size::new(3, 2));
    assert_eq!(grid.capacity(), Size::new(3, 2));

    assert_eq!(*grid.value(Coordinate::new(0, 0)).unwrap(), 3);
    assert_eq!(*grid.value(Coordinate::new(1, 0)).unwrap(), 2);
    assert_eq!(*grid.value(Coordinate::new(2, 0)).unwrap(), 1);
    assert_eq!(*grid.value(Coordinate::new(0, 1)).unwrap(), 6);
    assert_eq!(*grid.value(Coordinate::new(1, 1)).unwrap(), 5);
    assert_eq!(*grid.value(Coordinate::new(2, 1)).unwrap(), 4);

    // [1, 2] => [2, 1]
    // [3, 4]    [4, 3]
    // [5, 6]    [6, 5]
    let mut grid = Grid::from_rows(vec![vec![1, 2],
                                        vec![3, 4],
                                        vec![5, 6]]).unwrap();

    grid.flip_horizontally();

    assert_eq!(grid.size(), Size::new(2, 3));
    assert_eq!(grid.capacity(), Size::new(2, 3));

    assert_eq!(*grid.value(Coordinate::new(0, 0)).unwrap(), 2);
    assert_eq!(*grid.value(Coordinate::new(1, 0)).unwrap(), 1);
    assert_eq!(*grid.value(Coordinate::new(0, 1)).unwrap(), 4);
    assert_eq!(*grid.value(Coordinate::new(1, 1)).unwrap(), 3);
    assert_eq!(*grid.value(Coordinate::new(0, 2)).unwrap(), 6);
    assert_eq!(*grid.value(Coordinate::new(1, 2)).unwrap(), 5);

    // [1] => [1]
    let mut grid = Grid::from_rows(vec![vec![1]]).unwrap();

    grid.flip_horizontally();

    assert_eq!(grid.size(), Size::new(1, 1));
    assert_eq!(grid.capacity(), Size::new(1, 1));

    assert_eq!(*grid.value(Coordinate::new(0, 0)).unwrap(), 1);

    // [] => []
    let mut grid = Grid::<()>::zero();

    grid.flip_horizontally();

    assert_eq!(grid.size(), Size::new(0, 0));
    assert_eq!(grid.capacity(), Size::new(0, 0));
}

#[test]
fn grid_flip_vertically() {
    // [1, 2, 3] => [7, 8, 9]
    // [4, 5, 6]    [4, 5, 6]
    // [7, 8, 9]    [1, 2, 3]
    let mut grid = Grid::from_rows(vec![vec![1, 2, 3],
                                        vec![4, 5, 6],
                                        vec![7, 8, 9]]).unwrap();

    grid.flip_vertically();

    assert_eq!(grid.size(), Size::new(3, 3));
    assert_eq!(grid.capacity(), Size::new(3, 3));

    assert_eq!(*grid.value(Coordinate::new(0, 0)).unwrap(), 7);
    assert_eq!(*grid.value(Coordinate::new(1, 0)).unwrap(), 8);
    assert_eq!(*grid.value(Coordinate::new(2, 0)).unwrap(), 9);
    assert_eq!(*grid.value(Coordinate::new(0, 1)).unwrap(), 4);
    assert_eq!(*grid.value(Coordinate::new(1, 1)).unwrap(), 5);
    assert_eq!(*grid.value(Coordinate::new(2, 1)).unwrap(), 6);
    assert_eq!(*grid.value(Coordinate::new(0, 2)).unwrap(), 1);
    assert_eq!(*grid.value(Coordinate::new(1, 2)).unwrap(), 2);
    assert_eq!(*grid.value(Coordinate::new(2, 2)).unwrap(), 3);

    // [1, 2, 3] => [4, 5, 6]
    // [4, 5, 6]    [1, 2, 3]
    let mut grid = Grid::from_rows(vec![vec![1, 2, 3],
                                        vec![4, 5, 6]]).unwrap();

    grid.flip_vertically();

    assert_eq!(grid.size(), Size::new(3, 2));
    assert_eq!(grid.capacity(), Size::new(3, 2));

    assert_eq!(*grid.value(Coordinate::new(0, 0)).unwrap(), 4);
    assert_eq!(*grid.value(Coordinate::new(1, 0)).unwrap(), 5);
    assert_eq!(*grid.value(Coordinate::new(2, 0)).unwrap(), 6);
    assert_eq!(*grid.value(Coordinate::new(0, 1)).unwrap(), 1);
    assert_eq!(*grid.value(Coordinate::new(1, 1)).unwrap(), 2);
    assert_eq!(*grid.value(Coordinate::new(2, 1)).unwrap(), 3);

    // [1, 2] => [5, 6]
    // [3, 4]    [3, 4]
    // [5, 6]    [1, 2]
    let mut grid = Grid::from_rows(vec![vec![1, 2],
                                        vec![3, 4],
                                        vec![5, 6]]).unwrap();

    grid.flip_vertically();

    assert_eq!(grid.size(), Size::new(2, 3));
    assert_eq!(grid.capacity(), Size::new(2, 3));

    assert_eq!(*grid.value(Coordinate::new(0, 0)).unwrap(), 5);
    assert_eq!(*grid.value(Coordinate::new(1, 0)).unwrap(), 6);
    assert_eq!(*grid.value(Coordinate::new(0, 1)).unwrap(), 3);
    assert_eq!(*grid.value(Coordinate::new(1, 1)).unwrap(), 4);
    assert_eq!(*grid.value(Coordinate::new(0, 2)).unwrap(), 1);
    assert_eq!(*grid.value(Coordinate::new(1, 2)).unwrap(), 2);

    // [1] => [1]
    let mut grid = Grid::from_rows(vec![vec![1]]).unwrap();

    grid.flip_vertically();

    assert_eq!(grid.size(), Size::new(1, 1));
    assert_eq!(grid.capacity(), Size::new(1, 1));

    assert_eq!(*grid.value(Coordinate::new(0, 0)).unwrap(), 1);

    // [] => []
    let mut grid = Grid::<()>::zero();

    grid.flip_vertically();

    assert_eq!(grid.size(), Size::new(0, 0));
    assert_eq!(grid.capacity(), Size::new(0, 0));
}

#[test]
fn grid_rotate_left() {
    // [1, 2, 3] => [3, 6, 9]
    // [4, 5, 6]    [2, 5, 8]
    // [7, 8, 9]    [1, 4, 7]
    let mut grid = Grid::from_rows(vec![vec![1, 2, 3],
                                        vec![4, 5, 6],
                                        vec![7, 8, 9]]).unwrap();

    grid.rotate_left();

    assert_eq!(grid.size(), Size::new(3, 3));
    assert_eq!(grid.capacity(), Size::new(3, 3));

    assert_eq!(*grid.value(Coordinate::new(0, 0)).unwrap(), 3);
    assert_eq!(*grid.value(Coordinate::new(1, 0)).unwrap(), 6);
    assert_eq!(*grid.value(Coordinate::new(2, 0)).unwrap(), 9);
    assert_eq!(*grid.value(Coordinate::new(0, 1)).unwrap(), 2);
    assert_eq!(*grid.value(Coordinate::new(1, 1)).unwrap(), 5);
    assert_eq!(*grid.value(Coordinate::new(2, 1)).unwrap(), 8);
    assert_eq!(*grid.value(Coordinate::new(0, 2)).unwrap(), 1);
    assert_eq!(*grid.value(Coordinate::new(1, 2)).unwrap(), 4);
    assert_eq!(*grid.value(Coordinate::new(2, 2)).unwrap(), 7);

    // [1, 2, 3] => [3, 6]
    // [4, 5, 6]    [2, 5]
    //              [1, 4]
    let mut grid = Grid::from_rows(vec![vec![1, 2, 3],
                                        vec![4, 5, 6]]).unwrap();

    grid.rotate_left();

    assert_eq!(grid.size(), Size::new(2, 3));
    assert_eq!(grid.capacity(), Size::new(2, 3));

    assert_eq!(*grid.value(Coordinate::new(0, 0)).unwrap(), 3);
    assert_eq!(*grid.value(Coordinate::new(1, 0)).unwrap(), 6);
    assert_eq!(*grid.value(Coordinate::new(0, 1)).unwrap(), 2);
    assert_eq!(*grid.value(Coordinate::new(1, 1)).unwrap(), 5);
    assert_eq!(*grid.value(Coordinate::new(0, 2)).unwrap(), 1);
    assert_eq!(*grid.value(Coordinate::new(1, 2)).unwrap(), 4);

    // [1, 2] => [2, 4, 6]
    // [3, 4]    [1, 3, 5]
    // [5, 6]
    let mut grid = Grid::from_rows(vec![vec![1, 2],
                                        vec![3, 4],
                                        vec![5, 6]]).unwrap();

    grid.rotate_left();

    assert_eq!(grid.size(), Size::new(3, 2));
    assert_eq!(grid.capacity(), Size::new(3, 2));

    assert_eq!(*grid.value(Coordinate::new(0, 0)).unwrap(), 2);
    assert_eq!(*grid.value(Coordinate::new(1, 0)).unwrap(), 4);
    assert_eq!(*grid.value(Coordinate::new(2, 0)).unwrap(), 6);
    assert_eq!(*grid.value(Coordinate::new(0, 1)).unwrap(), 1);
    assert_eq!(*grid.value(Coordinate::new(1, 1)).unwrap(), 3);
    assert_eq!(*grid.value(Coordinate::new(2, 1)).unwrap(), 5);

    // [1] => [1]
    let mut grid = Grid::from_rows(vec![vec![1]]).unwrap();

    grid.rotate_left();

    assert_eq!(grid.size(), Size::new(1, 1));
    assert_eq!(grid.capacity(), Size::new(1, 1));

    assert_eq!(*grid.value(Coordinate::new(0, 0)).unwrap(), 1);

    // [] => []
    let mut grid = Grid::<()>::zero();

    grid.rotate_left();

    assert_eq!(grid.size(), Size::new(0, 0));
    assert_eq!(grid.capacity(), Size::new(0, 0));
}

#[test]
fn grid_rotate_right() {
    // [1, 2, 3] => [7, 4, 1]
    // [4, 5, 6]    [8, 5, 2]
    // [7, 8, 9]    [9, 6, 3]
    let mut grid = Grid::from_rows(vec![vec![1, 2, 3],
                                        vec![4, 5, 6],
                                        vec![7, 8, 9]]).unwrap();

    grid.rotate_right();

    assert_eq!(grid.size(), Size::new(3, 3));
    assert_eq!(grid.capacity(), Size::new(3, 3));

    assert_eq!(*grid.value(Coordinate::new(0, 0)).unwrap(), 7);
    assert_eq!(*grid.value(Coordinate::new(1, 0)).unwrap(), 4);
    assert_eq!(*grid.value(Coordinate::new(2, 0)).unwrap(), 1);
    assert_eq!(*grid.value(Coordinate::new(0, 1)).unwrap(), 8);
    assert_eq!(*grid.value(Coordinate::new(1, 1)).unwrap(), 5);
    assert_eq!(*grid.value(Coordinate::new(2, 1)).unwrap(), 2);
    assert_eq!(*grid.value(Coordinate::new(0, 2)).unwrap(), 9);
    assert_eq!(*grid.value(Coordinate::new(1, 2)).unwrap(), 6);
    assert_eq!(*grid.value(Coordinate::new(2, 2)).unwrap(), 3);

    // [1, 2, 3] => [4, 1]
    // [4, 5, 6]    [5, 2]
    //              [6, 3]
    let mut grid = Grid::from_rows(vec![vec![1, 2, 3],
                                        vec![4, 5, 6]]).unwrap();

    grid.rotate_right();

    assert_eq!(grid.size(), Size::new(2, 3));
    assert_eq!(grid.capacity(), Size::new(2, 3));

    assert_eq!(*grid.value(Coordinate::new(0, 0)).unwrap(), 4);
    assert_eq!(*grid.value(Coordinate::new(1, 0)).unwrap(), 1);
    assert_eq!(*grid.value(Coordinate::new(0, 1)).unwrap(), 5);
    assert_eq!(*grid.value(Coordinate::new(1, 1)).unwrap(), 2);
    assert_eq!(*grid.value(Coordinate::new(0, 2)).unwrap(), 6);
    assert_eq!(*grid.value(Coordinate::new(1, 2)).unwrap(), 3);

    // [1, 2] => [5, 3, 1]
    // [3, 4]    [6, 4, 2]
    // [5, 6]
    let mut grid = Grid::from_rows(vec![vec![1, 2],
                                        vec![3, 4],
                                        vec![5, 6]]).unwrap();

    grid.rotate_right();

    assert_eq!(grid.size(), Size::new(3, 2));
    assert_eq!(grid.capacity(), Size::new(3, 2));

    assert_eq!(*grid.value(Coordinate::new(0, 0)).unwrap(), 5);
    assert_eq!(*grid.value(Coordinate::new(1, 0)).unwrap(), 3);
    assert_eq!(*grid.value(Coordinate::new(2, 0)).unwrap(), 1);
    assert_eq!(*grid.value(Coordinate::new(0, 1)).unwrap(), 6);
    assert_eq!(*grid.value(Coordinate::new(1, 1)).unwrap(), 4);
    assert_eq!(*grid.value(Coordinate::new(2, 1)).unwrap(), 2);

    // [1] => [1]
    let mut grid = Grid::from_rows(vec![vec![1]]).unwrap();

    grid.rotate_right();

    assert_eq!(grid.size(), Size::new(1, 1));
    assert_eq!(grid.capacity(), Size::new(1, 1));

    assert_eq!(*grid.value(Coordinate::new(0, 0)).unwrap(), 1);

    // [] => []
    let mut grid = Grid::<()>::zero();

    grid.rotate_right();

    assert_eq!(grid.size(), Size::new(0, 0));
    assert_eq!(grid.capacity(), Size::new(0, 0));
}

#[test]
fn grid_capacity() {
    let grid = Grid::<()>::zero();
    assert_eq!(grid.capacity(), Size::new(0, 0));

    let grid = Grid::from_rows(vec![vec![1, 2],
                                    vec![3, 4]]).unwrap();
    assert_eq!(grid.capacity(), Size::new(2, 2));
}

#[test]
fn grid_reserve() {
    let mut grid = Grid::<()>::zero();
    assert_eq!(grid.capacity(), Size::new(0, 0));

    grid.reserve(Size::new(3, 0)).unwrap();
    assert_eq!(grid.capacity(), Size::new(3, 0));

    grid.reserve(Size::new(0, 3)).unwrap();
    assert_eq!(grid.capacity(), Size::new(3, 3));

    grid.reserve(Size::new(2, 2)).unwrap();
    assert_eq!(grid.capacity(), Size::new(5, 5));
}

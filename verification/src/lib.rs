//! A resizable two-dimensional array with row and column views, flips,
//! quarter turns and element swaps, each with a proved contract.

pub mod buffer;
pub mod column;
pub mod column_mut;
pub mod coordinate;
pub mod enumerate_coordinate;
pub mod error;
pub mod grid;
pub mod grid_iterator;
pub mod iterator_column;
pub mod iterator_grid;
pub mod iterator_row;
pub mod laws;
pub mod model;
pub mod offset;
pub mod row;
pub mod row_mut;
pub mod size;

pub use column::Column;
pub use column_mut::ColumnMut;
pub use coordinate::Coordinate;
pub use enumerate_coordinate::EnumerateCoordinate;
pub use error::GridError;
pub use grid::Grid;
pub use grid_iterator::GridIterator;
pub use iterator_column::IteratorColumn;
pub use iterator_grid::IteratorGrid;
pub use iterator_row::IteratorRow;
pub use offset::Offset;
pub use row::Row;
pub use row_mut::RowMut;
pub use size::Size;

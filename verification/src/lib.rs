//! A table of text cells and the layout of the widget tree that displays it.

pub mod builder;
pub mod layout;
pub mod table;

pub use layout::{CellLayout, CellStyle, Extent, Ink, RowLayout, TableLayout, Width};
pub use table::Table;

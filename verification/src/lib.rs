//! Layout engine for a two-dimensional table of independently sized cells.
//!
//! A table is made of lines, each a run of elements. Lines and elements are
//! sized independently along two axes; the engine reconciles fixed and
//! flexible sizes, places any cell without laying out the whole table, and
//! converts between a pixel offset and a position inside a cell.

pub mod geometry;
pub mod head;
pub mod layout;
pub mod painter;
pub mod policy;
pub mod table;
pub mod util;

pub use head::HeaderData;
pub use layout::{AxisLayout, AxisPart, TableAxis, TableLayout};
pub use painter::DefaultTablePainter;
pub use policy::{Static, TablePolicy};
pub use util::set_len;

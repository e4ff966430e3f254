//! The layout engine: parts, axes made of parts, and the table made of two
//! axes.

pub mod axis;
pub mod laws;
pub mod part;
pub mod table;

pub use axis::{AxisLayout, AxisModel};
pub use part::{AxisPart, Budget, PartModel};
pub use table::{TableAxis, TableLayout, TableModel};

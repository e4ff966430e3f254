//! Where the grid of a table is drawn.

use vstd::prelude::*;
use crate::layout::axis::{span, AxisLayout};
use crate::layout::table::{TableAxis, TableLayout};

verus! {

/// Draws a table as a plain grid: a separator before the first part of each
/// axis and one after every part.
#[derive(Clone, Copy, Debug)]
pub struct DefaultTablePainter;

impl DefaultTablePainter {
    /// The pixels along the axis that `table_axis` names at which a
    /// separator is drawn: the start of every part, and the end of the last.
    pub fn separators(&self, layout: &TableLayout, table_axis: TableAxis) -> (lines: Vec<i128>)
        ensures
            lines@.len() == layout@.table_axis(table_axis).parts.len() + 1,
            forall|i: int|
                0 <= i < lines@.len() ==> #[trigger] lines@[i] == layout@.table_axis(
                    table_axis,
                ).start(i),
    {
        let axis: &AxisLayout = layout.table_axis(table_axis);
        let mut lines: Vec<i128> = Vec::new();
        let mut advance: i128 = 0;
        let mut index: usize = 0;
        lines.push(advance);
        while index < axis.length()
            invariant
                index <= axis@.parts.len(),
                lines@.len() == index + 1,
                advance == span(axis@.parts, index as int),
                0 <= advance <= index * u32::MAX,
                forall|i: int| 0 <= i < lines@.len() ==> #[trigger] lines@[i] == axis@.start(i),
            decreases axis@.parts.len() - index,
        {
            advance = advance + axis.get(index).size() as i128;
            index += 1;
            lines.push(advance);
        }
        lines
    }
}

} // verus!

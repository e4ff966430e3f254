//! How a table follows its data: which lines it gains or loses when the
//! data changes.

use vstd::prelude::*;
use crate::layout::table::TableLayout;

verus! {

/// Decides how the lines of a table, and with them its layout, follow a
/// change of the data. `L` is what the table holds for each line.
pub trait TablePolicy<T, L> {
    /// Called with the data before and after a change, the lines of the
    /// table and its layout.
    fn update(&mut self, old_data: &T, data: &T, lines: &mut Vec<L>, meta: &mut TableLayout);
}

/// The policy of a table whose lines are declared once and never change.
#[derive(Clone, Copy, Debug)]
pub struct Static;

impl<T, L> TablePolicy<T, L> for Static {
    /// Leaves the lines and the layout as they are.
    fn update(&mut self, old_data: &T, data: &T, lines: &mut Vec<L>, meta: &mut TableLayout)
        ensures
            final(lines)@ == old(lines)@,
            final(meta)@ == old(meta)@,
    {
    }
}

} // verus!

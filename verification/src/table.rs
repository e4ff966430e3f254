//! What a table checks of its lines before it lays them out: every line
//! holds the same number of elements, and the layout has one part for each.

use vstd::prelude::*;
use crate::layout::axis::AxisModel;
use crate::layout::part::{AxisPart, PartModel};
use crate::layout::table::{TableLayout, TableModel};

verus! {

/// The lines of a table differ in length: the line at `line` holds `found`
/// elements where the first line holds `expected`.
#[derive(Clone, Copy, PartialEq, Eq, Structural, Debug)]
pub struct LengthMismatch {
    pub line: usize,
    pub found: usize,
    pub expected: usize,
}

/// Whether all lines hold the same number of elements.
pub open spec fn same_length(counts: Seq<usize>) -> bool {
    forall|line: int| 0 <= line < counts.len() ==> #[trigger] counts[line] == counts[0]
}

/// The number of elements in each line of a table whose lines hold
/// `counts` elements in turn: that of the first line, or none where the
/// table has no line.
pub open spec fn common_length(counts: Seq<usize>) -> usize {
    if counts.len() == 0 {
        0
    } else {
        counts[0]
    }
}

/// Whether `line` is the first line that does not hold as many elements as
/// the first line.
pub open spec fn first_odd_line(counts: Seq<usize>, line: int) -> bool {
    &&& 0 < line < counts.len()
    &&& counts[line] != counts[0]
    &&& forall|before: int| 0 <= before < line ==> #[trigger] counts[before] == counts[0]
}

/// The number of elements that every line of a table holds, given the
/// number in each line in turn. Fails with the first line that differs from
/// the first.
pub fn element_count(counts: &Vec<usize>) -> (result: Result<usize, LengthMismatch>)
    ensures
        result is Ok <==> same_length(counts@),
        result matches Ok(elements) ==> elements == common_length(counts@),
        result matches Err(odd) ==> first_odd_line(counts@, odd.line as int) && odd.found
            == counts@[odd.line as int] && odd.expected == counts@[0],
{
    if counts.len() == 0 {
        return Ok(0);
    }
    let elements = counts[0];
    let mut line: usize = 1;
    while line < counts.len()
        invariant
            1 <= line <= counts@.len(),
            elements == counts@[0],
            forall|before: int| 0 <= before < line ==> #[trigger] counts@[before] == counts@[0],
        decreases counts@.len() - line,
    {
        let line_elements = counts[line];
        if line_elements != elements {
            return Err(LengthMismatch { line, found: line_elements, expected: elements });
        }
        line += 1;
    }
    Ok(elements)
}

/// Brings the element axis of `layout` in step with the lines of the table,
/// given the number of elements in each line in turn. Where all lines agree,
/// the axis is cut off or filled up with flexible parts to that number.
/// Where they do not, the layout stays as it is.
pub fn reconcile_elements(layout: &mut TableLayout, counts: &Vec<usize>) -> (result: Result<
    usize,
    LengthMismatch,
>)
    ensures
        result is Ok <==> same_length(counts@),
        result matches Ok(elements) ==> elements == common_length(counts@) && final(layout)@ == (
        TableModel {
            elements: old(layout)@.elements.set_length(elements as nat, PartModel::fresh(None)),
            ..old(layout)@
        }),
        result matches Err(odd) ==> first_odd_line(counts@, odd.line as int) && odd.found
            == counts@[odd.line as int] && odd.expected == counts@[0] && final(layout)@ == old(
            layout,
        )@,
{
    match element_count(counts) {
        Ok(elements) => {
            layout.elements_mut().set_length(elements, AxisPart::new(None));
            Ok(elements)
        },
        Err(odd) => Err(odd),
    }
}

/// Adds a line to the table: a flexible part at the end of the line axis.
pub fn add_line(layout: &mut TableLayout)
    ensures
        final(layout)@ == (TableModel {
            lines: old(layout)@.lines.add_part(PartModel::fresh(None)),
            ..old(layout)@
        }),
{
    layout.lines_mut().add_part(AxisPart::new(None));
}

} // verus!

//! One axis of a table: a run of parts and the budget they share.

use vstd::prelude::*;
use crate::layout::part::{extent_of, space_of, AxisPart, Budget, PartModel};
use crate::util::set_len;

verus! {

/// The sizes of the first `count` parts added up; of all parts where there
/// are fewer than `count`.
pub open spec fn span(parts: Seq<PartModel>, count: int) -> int
    decreases count,
{
    if count <= 0 {
        0
    } else if count > parts.len() {
        span(parts, parts.len() as int)
    } else {
        span(parts, count - 1) + parts[count - 1].size
    }
}

/// What an [`AxisLayout`] is: its parts in order, and the budget that is
/// left of the space on offer. A budget of `None` is unbounded.
pub struct AxisModel {
    pub parts: Seq<PartModel>,
    pub budget: Option<int>,
}

impl AxisModel {
    /// The pixel at which the part at `index` starts: the sizes of all parts
    /// before it, added up.
    pub open spec fn start(self, index: int) -> int {
        span(self.parts, index)
    }

    /// The pixel at which the part at `index` ends: the sizes of all parts
    /// up to it, itself counted in, added up.
    pub open spec fn end(self, index: int) -> int {
        span(self.parts, index + 1)
    }

    /// The extent of the whole axis: the sizes of all parts added up.
    pub open spec fn size(self) -> int {
        span(self.parts, self.parts.len() as int)
    }

    /// The axis at the start of a pass over `available` pixels: every
    /// flexible part is back at its minimum, and the budget is what the
    /// parts leave of the space on offer.
    pub open spec fn prepare_layout(self, available: Option<int>) -> AxisModel {
        let parts = Seq::new(self.parts.len(), |i: int| self.parts[i].reset());
        AxisModel {
            parts,
            budget: match available {
                Some(a) => Some(a - span(parts, parts.len() as int)),
                None => None,
            },
        }
    }

    /// The range of sizes the part at `index` may be measured at.
    pub open spec fn constrains(self, index: int) -> (nat, Option<int>) {
        (self.parts[index].min, self.parts[index].ceiling(self.budget))
    }

    /// The axis after the part at `index` was measured at `measured` pixels.
    pub open spec fn set_size(self, index: int, measured: nat) -> AxisModel {
        AxisModel {
            parts: self.parts.update(index, self.parts[index].grown(measured)),
            budget: self.parts[index].left(measured, self.budget),
        }
    }

    /// Whether the part at `index` is the first whose span, both ends
    /// counted, holds the pixel `offset`.
    pub open spec fn holds(self, offset: int, index: int) -> bool {
        &&& 0 <= index < self.parts.len()
        &&& offset <= self.end(index)
        &&& forall|before: int| 0 <= before < index ==> #[trigger] self.end(before) < offset
    }

    /// Whether some part holds the pixel `offset`: the axis has a part, and
    /// the offset lies between zero and the extent of the axis.
    pub open spec fn covers(self, offset: int) -> bool {
        self.parts.len() > 0 && 0 <= offset <= self.size()
    }

    /// The pixel `offset` as a position inside a part: how far into the
    /// part it lies, and the index of the part, which is the first that
    /// holds it.
    pub open spec fn as_cell_offset(self, offset: int) -> (int, int) {
        let index = choose|index: int| self.holds(offset, index);
        (offset - self.start(index), index)
    }

    /// The pixel that lies `cell.0` pixels into the part at `cell.1`: the
    /// sizes of all parts before that index, and the inner offset on top.
    pub open spec fn from_cell_offset(self, cell: (int, int)) -> int {
        self.start(cell.1) + cell.0
    }

    /// The pixels at which the part at `index` starts and ends.
    pub open spec fn current_layout(self, index: int) -> (int, int) {
        (self.start(index), self.end(index))
    }

    /// The axis cut off or filled up with `template` to `length` parts.
    pub open spec fn set_length(self, length: nat, template: PartModel) -> AxisModel {
        AxisModel {
            parts: Seq::new(
                length,
                |i: int|
                    if i < self.parts.len() {
                        self.parts[i]
                    } else {
                        template
                    },
            ),
            budget: self.budget,
        }
    }

    /// The axis with `part` added at its end.
    pub open spec fn add_part(self, part: PartModel) -> AxisModel {
        AxisModel { parts: self.parts.push(part), budget: self.budget }
    }

    /// The axis with `part` in the place of the part at `index`.
    pub open spec fn set(self, index: int, part: PartModel) -> AxisModel {
        AxisModel { parts: self.parts.update(index, part), budget: self.budget }
    }
}

/// Two runs of parts that agree on their first `count` parts have the same
/// span over them.
pub proof fn lemma_span_agrees(a: Seq<PartModel>, b: Seq<PartModel>, count: int)
    requires
        count <= a.len(),
        count <= b.len(),
        forall|i: int| 0 <= i < count ==> a[i].size == b[i].size,
    ensures
        span(a, count) == span(b, count),
    decreases count,
{
    if count > 0 {
        lemma_span_agrees(a, b, count - 1);
    }
}

impl AxisModel {
    /// At most one part is the first to hold a pixel.
    pub proof fn lemma_holds_once(self, offset: int, one: int, other: int)
        requires
            self.holds(offset, one),
            self.holds(offset, other),
        ensures
            one == other,
    {
    }

    /// Where an axis covers a pixel, one of its parts holds it.
    pub proof fn lemma_covered_is_held(self, offset: int) -> (index: int)
        requires
            self.covers(offset),
        ensures
            self.holds(offset, index),
            self.as_cell_offset(offset) == (offset - self.start(index), index),
            0 <= offset - self.start(index) <= self.parts[index].size,
    {
        let index = self.first_holding(offset, 0);
        let chosen = choose|index: int| self.holds(offset, index);
        self.lemma_holds_once(offset, index, chosen);
        if index > 0 {
            assert(self.end(index - 1) < offset);
        }
        index
    }

    /// Walks the parts from `from` on, none before which reaches `offset`,
    /// to the first that does.
    proof fn first_holding(self, offset: int, from: int) -> (index: int)
        requires
            0 <= from < self.parts.len(),
            offset <= self.size(),
            forall|before: int| 0 <= before < from ==> #[trigger] self.end(before) < offset,
        ensures
            self.holds(offset, index),
        decreases self.parts.len() - from,
    {
        if offset <= self.end(from) {
            from
        } else {
            self.first_holding(offset, from + 1)
        }
    }

    /// Converting a pixel that the axis covers to a position inside a part
    /// and back gives the same pixel.
    pub proof fn lemma_cell_offset_round_trip(self, offset: int)
        requires
            self.covers(offset),
        ensures
            self.from_cell_offset(self.as_cell_offset(offset)) == offset,
    {
        self.lemma_covered_is_held(offset);
    }
}

/// The parts of one axis of a table, rows or columns, with the budget of
/// free space that is left on the axis during a pass.
#[derive(Debug)]
pub struct AxisLayout {
    layout: Vec<AxisPart>,
    max_additional_size: Budget,
}

impl View for AxisLayout {
    type V = AxisModel;

    closed spec fn view(&self) -> AxisModel {
        AxisModel {
            parts: Seq::new(self.layout@.len(), |i: int| self.layout@[i]@),
            budget: self.max_additional_size@,
        }
    }
}

impl Clone for AxisLayout {
    /// A copy with the same parts and the same budget.
    fn clone(&self) -> (copy: AxisLayout)
        ensures
            copy@ == self@,
    {
        AxisLayout { layout: self.layout.clone(), max_additional_size: self.max_additional_size }
    }
}

impl AxisLayout {
    /// An axis without parts and without free space.
    pub fn new() -> (axis: AxisLayout)
        ensures
            axis@ == (AxisModel { parts: Seq::empty(), budget: Some(0) }),
    {
        let axis = AxisLayout { layout: Vec::new(), max_additional_size: Budget::new(Some(0)) };
        assert(axis@.parts =~= Seq::empty());
        axis
    }

    /// The number of parts.
    pub fn length(&self) -> (length: usize)
        ensures
            length == self@.parts.len(),
    {
        self.layout.len()
    }

    /// The free space that is left on the axis.
    pub fn max_additional_size(&self) -> (budget: Budget)
        ensures
            budget@ == self@.budget,
    {
        self.max_additional_size
    }

    /// The part at `index`.
    pub fn get(&self, index: usize) -> (part: AxisPart)
        requires
            index < self@.parts.len(),
        ensures
            part@ == self@.parts[index as int],
            part@.wf(),
    {
        let part = self.layout[index];
        proof {
            use_type_invariant(&part);
        }
        part
    }

    /// Puts `part` in the place of the part at `index`.
    pub fn set(&mut self, index: usize, part: AxisPart)
        requires
            index < old(self)@.parts.len(),
        ensures
            final(self)@ == old(self)@.set(index as int, part@),
    {
        self.layout[index] = part;
        assert(self@.parts =~= old(self)@.parts.update(index as int, part@));
    }

    /// Starts a pass over `max_size` pixels (`None`: unbounded space). Every
    /// flexible part falls back to its minimum; fixed parts keep their size.
    /// The budget becomes what the parts leave of the space: it is negative
    /// where they take more than there is.
    pub fn prepare_layout(&mut self, max_size: Option<u32>)
        ensures
            final(self)@ == old(self)@.prepare_layout(space_of(max_size)),
    {
        self.max_additional_size = Budget::new(max_size);
        let mut index: usize = 0;
        while index < self.layout.len()
            invariant
                index <= self.layout@.len(),
                self.layout@.len() == old(self).layout@.len(),
                forall|i: int| 0 <= i < index ==> (#[trigger] self.layout@[i])@ == old(self).layout@[i]@.reset(),
                forall|i: int| index <= i < self.layout@.len() ==> #[trigger] self.layout@[i] == old(self).layout@[i],
                span(self@.parts, index as int) <= index * u32::MAX,
                self.max_additional_size@ == match space_of(max_size) {
                    Some(a) => Some(a - span(self@.parts, index as int)),
                    None => None,
                },
            decreases self.layout@.len() - index,
        {
            let ghost before = self@.parts;
            self.layout[index].reset();
            let size = self.layout[index].size();
            proof {
                lemma_span_agrees(before, self@.parts, index as int);
            }
            self.max_additional_size = self.max_additional_size.less(size);
            index += 1;
        }
        proof {
            let parts = old(self)@.prepare_layout(space_of(max_size)).parts;
            assert(self@.parts =~= parts);
        }
    }

    /// The range of sizes the part at `index` may be measured at: its
    /// minimum, and the lesser of its own maximum and its size with the
    /// budget of the axis added.
    pub fn constrains(&self, index: usize) -> (range: (u32, Option<i128>))
        requires
            index < self@.parts.len(),
        ensures
            range.0 == self@.constrains(index as int).0,
            extent_of(range.1) == self@.constrains(index as int).1,
    {
        self.layout[index].constrains(self.max_additional_size)
    }

    /// Takes the measured size of the part at `index`. A flexible part grows
    /// to it where it is larger than its current size, and what it grew by
    /// is taken off the budget, which does not fall below zero. A fixed part
    /// keeps its size and leaves the budget as it is.
    pub fn set_size(&mut self, index: usize, size: u32)
        requires
            index < old(self)@.parts.len(),
        ensures
            final(self)@ == old(self)@.set_size(index as int, size as nat),
    {
        let budget = self.max_additional_size;
        self.max_additional_size = self.layout[index].calc_space(size, budget);
        proof {
            assert(self@.parts =~= old(self)@.set_size(index as int, size as nat).parts);
        }
    }

    /// The sizes of the first `count` parts added up.
    fn start_of(&self, count: usize) -> (start: i128)
        requires
            count <= self@.parts.len(),
        ensures
            start == self@.start(count as int),
            0 <= start <= count * u32::MAX,
    {
        let mut start: i128 = 0;
        let mut index: usize = 0;
        while index < count
            invariant
                index <= count <= self.layout@.len(),
                start == span(self@.parts, index as int),
                0 <= start <= index * u32::MAX,
            decreases count - index,
        {
            start = start + self.layout[index].size() as i128;
            index += 1;
        }
        start
    }

    /// Finds the part in which the pixel `offset` lies: the first part whose
    /// span, both ends counted, holds it. Returns how far into that part the
    /// pixel lies, and the index of the part.
    pub fn as_cell_offset(&self, offset: i128) -> (cell: (u32, u64))
        requires
            self@.covers(offset as int),
        ensures
            (cell.0 as int, cell.1 as int) == self@.as_cell_offset(offset as int),
            self@.holds(offset as int, cell.1 as int),
            cell.0 <= self@.parts[cell.1 as int].size,
    {
        let mut rest = offset;
        let mut index: usize = 0;
        while index < self.layout.len()
            invariant
                index <= self.layout@.len(),
                self@.covers(offset as int),
                rest == offset - span(self@.parts, index as int),
                forall|before: int| 0 <= before < index ==> #[trigger] self@.end(before) < offset,
                index > 0 ==> rest > 0,
                rest >= 0,
            decreases self.layout@.len() - index,
        {
            let size = self.layout[index].size();
            if size as i128 >= rest {
                proof {
                    let held = self@.lemma_covered_is_held(offset as int);
                    self@.lemma_holds_once(offset as int, held, index as int);
                }
                return (rest as u32, index as u64);
            }
            rest = rest - size as i128;
            index += 1;
        }
        vstd::pervasive::unreached()
    }

    /// The pixel that lies `offset.0` pixels into the part at `offset.1`:
    /// the sizes of all parts before that index added up, and the inner
    /// offset on top. An index past the last part counts all parts.
    pub fn from_cell_offset(&self, offset: (u32, u64)) -> (pixel: i128)
        ensures
            pixel == self@.from_cell_offset((offset.0 as int, offset.1 as int)),
    {
        let count = if offset.1 < self.layout.len() as u64 {
            offset.1 as usize
        } else {
            self.layout.len()
        };
        self.start_of(count) + offset.0 as i128
    }

    /// The pixels at which the part at `index` starts and ends.
    pub fn current_layout(&self, index: usize) -> (ends: (i128, i128))
        requires
            index < self@.parts.len(),
        ensures
            (ends.0 as int, ends.1 as int) == self@.current_layout(index as int),
            ends.1 - ends.0 == self@.parts[index as int].size,
            0 <= ends.0 <= ends.1,
    {
        let start = self.start_of(index);
        (start, start + self.layout[index].size() as i128)
    }

    /// Brings the axis to `length` parts: cuts it off at the end where it is
    /// longer, and fills it up with copies of `new` where it is shorter.
    pub fn set_length(&mut self, length: usize, new: AxisPart)
        ensures
            final(self)@ == old(self)@.set_length(length as nat, new@),
    {
        let template = || -> (part: AxisPart)
            ensures
                part == new,
            { new };
        set_len(&mut self.layout, length, template);
        proof {
            assert(self@.parts =~= old(self)@.set_length(length as nat, new@).parts);
        }
    }

    /// The extent of the whole axis: the sizes of all parts added up.
    pub fn size(&self) -> (size: i128)
        ensures
            size == self@.size(),
            0 <= size <= self@.parts.len() * u32::MAX <= u64::MAX * u32::MAX,
    {
        self.start_of(self.layout.len())
    }

    /// Adds `part` at the end of the axis.
    pub fn add_part(&mut self, part: AxisPart)
        ensures
            final(self)@ == old(self)@.add_part(part@),
    {
        self.layout.push(part);
        assert(self@.parts =~= old(self)@.parts.push(part@));
    }
}

} // verus!

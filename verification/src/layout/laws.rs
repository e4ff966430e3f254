//! What holds of an axis over a whole pass: of any run of measurements, in
//! any order.

use vstd::prelude::*;
use crate::layout::axis::{span, AxisModel};
use crate::layout::part::PartModel;

verus! {

/// Whether the length `a` is no more than the length `b`, where `None` is
/// unbounded.
pub open spec fn no_more(a: Option<int>, b: Option<int>) -> bool {
    match (a, b) {
        (_, None) => true,
        (None, Some(_)) => false,
        (Some(x), Some(y)) => x <= y,
    }
}

impl AxisModel {
    /// Whether every measurement in `calls`, a run of pairs of an index and
    /// a measured size, names a part of this axis.
    pub open spec fn takes(self, calls: Seq<(int, nat)>) -> bool {
        forall|k: int| 0 <= k < calls.len() ==> 0 <= (#[trigger] calls[k]).0 < self.parts.len()
    }

    /// The axis after the measurements in `calls` were taken one after the
    /// other.
    pub open spec fn set_sizes(self, calls: Seq<(int, nat)>) -> AxisModel
        decreases calls.len(),
    {
        if calls.len() == 0 {
            self
        } else {
            self.set_sizes(calls.drop_last()).set_size(calls.last().0, calls.last().1)
        }
    }

    /// Whether the measurement of the part at `index` at `measured` pixels
    /// stays within the budget: the part is fixed, or it grows by no more
    /// than the budget holds.
    pub open spec fn affords(self, index: int, measured: nat) -> bool {
        self.parts[index].is_fixed || no_more(Some(measured - self.parts[index].size), self.budget)
    }

    /// Whether each measurement in `calls` stays within the budget that the
    /// measurements before it have left.
    pub open spec fn affords_all(self, calls: Seq<(int, nat)>) -> bool
        decreases calls.len(),
    {
        calls.len() > 0 ==> {
            &&& self.affords_all(calls.drop_last())
            &&& self.set_sizes(calls.drop_last()).affords(calls.last().0, calls.last().1)
        }
    }

    /// Whether the sizes of the parts and the budget together make up
    /// `available`, with nothing committed beyond it.
    pub open spec fn conserves(self, available: int) -> bool {
        self.budget matches Some(b) && b >= 0 && self.size() + b == available
    }
}

/// Changing one part changes a span that takes the part in by what the part
/// grew, and leaves a span before the part as it was.
pub proof fn lemma_span_update(parts: Seq<PartModel>, index: int, part: PartModel, count: int)
    requires
        0 <= index < parts.len(),
    ensures
        span(parts.update(index, part), count) == span(parts, count) + if index < count {
            part.size - parts[index].size
        } else {
            0
        },
    decreases count,
{
    if count <= 0 {
    } else if count > parts.len() {
        lemma_span_update(parts, index, part, parts.len() as int);
    } else {
        lemma_span_update(parts, index, part, count - 1);
    }
}

impl AxisModel {
    /// A measurement changes no part but the one it names, and makes no
    /// part smaller. It keeps the number of parts.
    pub proof fn lemma_set_size_grows(self, index: int, measured: nat)
        requires
            0 <= index < self.parts.len(),
        ensures
            self.set_size(index, measured).parts.len() == self.parts.len(),
            self.set_size(index, measured).parts[index].size >= self.parts[index].size,
            forall|other: int|
                0 <= other < self.parts.len() && other != index ==> self.set_size(
                    index,
                    measured,
                ).parts[other] == self.parts[other],
            self.set_size(index, measured).size() >= self.size(),
    {
        lemma_span_update(
            self.parts,
            index,
            self.parts[index].grown(measured),
            self.parts.len() as int,
        );
    }

    /// Monotonic growth. Over any run of measurements no part gets smaller,
    /// and a budget that was not negative gets no larger and stays not
    /// negative.
    pub proof fn lemma_pass_is_monotonic(self, calls: Seq<(int, nat)>)
        requires
            self.takes(calls),
        ensures
            self.set_sizes(calls).parts.len() == self.parts.len(),
            forall|i: int|
                0 <= i < self.parts.len() ==> (#[trigger] self.set_sizes(calls).parts[i]).size
                    >= self.parts[i].size,
            self.set_sizes(calls).size() >= self.size(),
            no_more(Some(0), self.budget) ==> no_more(self.set_sizes(calls).budget, self.budget)
                && no_more(Some(0), self.set_sizes(calls).budget),
        decreases calls.len(),
    {
        if calls.len() > 0 {
            let before = self.set_sizes(calls.drop_last());
            self.lemma_pass_is_monotonic(calls.drop_last());
            before.lemma_set_size_grows(calls.last().0, calls.last().1);
        }
    }

    /// Fixed-part invariance. A fixed part is the same after any run of
    /// measurements, and after the start of any pass: a part made with an
    /// explicit size keeps that size.
    pub proof fn lemma_fixed_part_stays(
        self,
        index: int,
        calls: Seq<(int, nat)>,
        available: Option<int>,
    )
        requires
            0 <= index < self.parts.len(),
            self.parts[index].is_fixed,
            self.takes(calls),
        ensures
            self.set_sizes(calls).parts.len() == self.parts.len(),
            self.set_sizes(calls).parts[index] == self.parts[index],
            self.prepare_layout(available).parts[index] == self.parts[index],
        decreases calls.len(),
    {
        if calls.len() > 0 {
            self.lemma_fixed_part_stays(index, calls.drop_last(), available);
        }
    }

    /// Budget conservation at the start of a pass: the sizes of the parts
    /// and the budget together are exactly the space on offer. Unbounded
    /// space leaves an unbounded budget.
    pub proof fn lemma_prepare_conserves(self, available: Option<int>)
        ensures
            self.prepare_layout(available).parts.len() == self.parts.len(),
            available matches Some(a) ==> self.prepare_layout(available).budget == Some(
                a - self.prepare_layout(available).size(),
            ),
            available is None ==> self.prepare_layout(available).budget is None,
    {
    }

    /// Budget conservation over one measurement that the budget affords:
    /// what the part grows by is what the budget loses.
    pub proof fn lemma_set_size_conserves(self, available: int, index: int, measured: nat)
        requires
            0 <= index < self.parts.len(),
            self.conserves(available),
            self.affords(index, measured),
        ensures
            self.set_size(index, measured).conserves(available),
            self.set_size(index, measured).size() <= available,
    {
        lemma_span_update(
            self.parts,
            index,
            self.parts[index].grown(measured),
            self.parts.len() as int,
        );
    }

    /// Budget conservation over a pass: while every measurement stays
    /// within the budget that is left, the sizes of the parts and the
    /// budget together stay exactly the space on offer, so that the parts
    /// never take more than it.
    pub proof fn lemma_pass_conserves(self, available: int, calls: Seq<(int, nat)>)
        requires
            self.conserves(available),
            self.takes(calls),
            self.affords_all(calls),
        ensures
            self.set_sizes(calls).conserves(available),
            self.set_sizes(calls).size() <= available,
        decreases calls.len(),
    {
        if calls.len() > 0 {
            self.lemma_pass_conserves(available, calls.drop_last());
            self.lemma_pass_is_monotonic(calls.drop_last());
            self.set_sizes(calls.drop_last()).lemma_set_size_conserves(
                available,
                calls.last().0,
                calls.last().1,
            );
        }
    }

    /// A measurement that the budget does not afford, taken while the
    /// budget is conserved, commits more than the space on offer.
    pub proof fn lemma_overcommit(self, available: int, index: int, measured: nat)
        requires
            0 <= index < self.parts.len(),
            self.conserves(available),
            !self.affords(index, measured),
        ensures
            self.set_size(index, measured).size() > available,
            self.set_size(index, measured).budget == Some(0int),
    {
        lemma_span_update(
            self.parts,
            index,
            self.parts[index].grown(measured),
            self.parts.len() as int,
        );
    }

    /// Two measurements may be taken in either order: the axis ends up the
    /// same.
    pub proof fn lemma_set_size_commutes(self, one: (int, nat), other: (int, nat))
        requires
            0 <= one.0 < self.parts.len(),
            0 <= other.0 < self.parts.len(),
        ensures
            self.set_size(one.0, one.1).set_size(other.0, other.1) == self.set_size(
                other.0,
                other.1,
            ).set_size(one.0, one.1),
    {
        let a = self.set_size(one.0, one.1).set_size(other.0, other.1);
        let b = self.set_size(other.0, other.1).set_size(one.0, one.1);
        assert(a.parts =~= b.parts);
    }

    /// Taking the same measurement twice is the same as taking it once.
    pub proof fn lemma_set_size_twice(self, index: int, measured: nat)
        requires
            0 <= index < self.parts.len(),
        ensures
            self.set_size(index, measured).set_size(index, measured).parts == self.set_size(
                index,
                measured,
            ).parts,
            no_more(Some(0), self.budget) ==> self.set_size(index, measured).set_size(
                index,
                measured,
            ) == self.set_size(index, measured),
    {
        let once = self.set_size(index, measured);
        assert(once.set_size(index, measured).parts =~= once.parts);
    }

    /// Setting the length of an axis a second time to the same number of
    /// parts changes nothing, whatever the template.
    pub proof fn lemma_set_length_twice(self, length: nat, first: PartModel, second: PartModel)
        ensures
            self.set_length(length, first).set_length(length, second) == self.set_length(
                length,
                first,
            ),
    {
        let once = self.set_length(length, first);
        assert(once.set_length(length, second).parts =~= once.parts);
    }
}

} // verus!

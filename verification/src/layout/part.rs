//! One part of an axis: the sizing state of a single row or column, and the
//! budget of free space that the parts of one axis share.

use vstd::prelude::*;

verus! {

/// A length that may be unbounded, read as a mathematical integer.
pub open spec fn extent_of(length: Option<i128>) -> Option<int> {
    match length {
        Some(v) => Some(v as int),
        None => None,
    }
}

/// A space on offer that may be unbounded, read as a mathematical integer.
pub open spec fn space_of(available: Option<u32>) -> Option<int> {
    match available {
        Some(v) => Some(v as int),
        None => None,
    }
}

/// The lesser of two lengths, each of which may be unbounded (`None`).
pub open spec fn lesser(a: Option<int>, b: Option<int>) -> Option<int> {
    match (a, b) {
        (None, _) => b,
        (_, None) => a,
        (Some(x), Some(y)) => Some(if x <= y { x } else { y }),
    }
}

/// What an [`AxisPart`] is: its current size, its bounds, and whether it is
/// fixed. A maximum of `None` is unbounded.
pub struct PartModel {
    pub size: nat,
    pub min: nat,
    pub max: Option<nat>,
    pub is_fixed: bool,
}

impl PartModel {
    /// A part as it is first made: fixed at an explicit size, or flexible
    /// and empty.
    pub open spec fn fresh(explicit: Option<nat>) -> PartModel {
        match explicit {
            Some(s) => PartModel { size: s, min: s, max: Some(s), is_fixed: true },
            None => PartModel { size: 0, min: 0, max: None, is_fixed: false },
        }
    }

    /// A fixed part has one size, which is also its minimum and its maximum;
    /// a flexible part has no minimum and no maximum of its own.
    pub open spec fn wf(self) -> bool {
        if self.is_fixed {
            self.size == self.min && self.max == Some(self.min)
        } else {
            self.min == 0 && self.max is None
        }
    }

    /// The largest size this part may be measured at while `budget` is free
    /// on its axis: its own maximum, or its size and the budget together,
    /// whichever is less.
    pub open spec fn ceiling(self, budget: Option<int>) -> Option<int> {
        lesser(
            match self.max {
                Some(m) => Some(m as int),
                None => None,
            },
            match budget {
                Some(b) => Some(self.size + b),
                None => None,
            },
        )
    }

    /// This part after a measurement: a flexible part grows to the measured
    /// size where that is larger, a fixed part stays as it is.
    pub open spec fn grown(self, measured: nat) -> PartModel {
        if self.is_fixed || measured <= self.size {
            self
        } else {
            PartModel { size: measured, ..self }
        }
    }

    /// The budget that is left of `budget` after a measurement: what a
    /// flexible part grew by is taken off, and the rest is never negative. A
    /// fixed part leaves the budget as it is.
    pub open spec fn left(self, measured: nat, budget: Option<int>) -> Option<int> {
        if self.is_fixed {
            budget
        } else {
            match budget {
                Some(b) => {
                    let rest = b - (self.grown(measured).size - self.size);
                    Some(if rest >= 0 { rest } else { 0 })
                },
                None => None,
            }
        }
    }

    /// This part at the start of a pass: a flexible part falls back to its
    /// minimum, a fixed part stays as it is.
    pub open spec fn reset(self) -> PartModel {
        if self.is_fixed {
            self
        } else {
            PartModel { size: self.min, ..self }
        }
    }
}

/// The free space left on an axis during a pass: unbounded, or a whole
/// number of pixels. A finite budget is negative where the parts already
/// take more than the space on offer.
#[derive(Clone, Copy, Debug, PartialEq, Eq)]
pub struct Budget {
    free: Option<i128>,
}

impl View for Budget {
    type V = Option<int>;

    closed spec fn view(&self) -> Option<int> {
        extent_of(self.free)
    }
}

impl Budget {
    #[verifier::type_invariant]
    spec fn in_range(self) -> bool {
        self.free matches Some(v) ==> v <= u32::MAX
    }

    /// The budget of an axis on which nothing is committed yet.
    pub fn new(available: Option<u32>) -> (budget: Budget)
        ensures
            budget@ == space_of(available),
    {
        match available {
            Some(a) => Budget { free: Some(a as i128) },
            None => Budget { free: None },
        }
    }

    /// The free space in pixels; `None` where it is unbounded.
    pub fn get(&self) -> (free: Option<i128>)
        ensures
            extent_of(free) == self@,
    {
        self.free
    }

    /// This budget with `size` pixels taken off, where it is finite.
    pub(crate) fn less(self, size: u32) -> (budget: Budget)
        requires
            self@ matches Some(b) ==> b - size >= i128::MIN,
        ensures
            budget@ == match self@ {
                Some(b) => Some(b - size),
                None => None,
            },
    {
        proof {
            use_type_invariant(&self);
        }
        match self.free {
            Some(b) => Budget { free: Some(b - size as i128) },
            None => self,
        }
    }
}

/// The sizing state of one row or column along one axis.
#[derive(Clone, Copy, Debug, PartialEq, Eq)]
pub struct AxisPart {
    size: u32,
    min: u32,
    max: Option<u32>,
    is_fixed: bool,
}

impl View for AxisPart {
    type V = PartModel;

    closed spec fn view(&self) -> PartModel {
        PartModel {
            size: self.size as nat,
            min: self.min as nat,
            max: match self.max {
                Some(m) => Some(m as nat),
                None => None,
            },
            is_fixed: self.is_fixed,
        }
    }
}

impl AxisPart {
    #[verifier::type_invariant]
    pub open spec fn well_formed(self) -> bool {
        self@.wf()
    }

    /// A part fixed at `size` pixels, or a flexible part where `size` is
    /// `None`.
    pub fn new(size: Option<u32>) -> (part: AxisPart)
        ensures
            part@ == PartModel::fresh(
                match size {
                    Some(s) => Some(s as nat),
                    None => None,
                },
            ),
            part@.wf(),
    {
        match size {
            Some(s) => AxisPart { size: s, min: s, max: Some(s), is_fixed: true },
            None => AxisPart { size: 0, min: 0, max: None, is_fixed: false },
        }
    }

    /// The current size in pixels.
    pub fn size(&self) -> (size: u32)
        ensures
            size == self@.size,
    {
        self.size
    }

    /// The range of sizes this part may be measured at while
    /// `max_additional_size` is free on its axis: its minimum, and the
    /// lesser of its own maximum and its size with the budget added.
    pub fn constrains(&self, max_additional_size: Budget) -> (range: (u32, Option<i128>))
        ensures
            range.0 == self@.min,
            extent_of(range.1) == self@.ceiling(max_additional_size@),
    {
        proof {
            use_type_invariant(self);
            use_type_invariant(&max_additional_size);
        }
        let with_budget = match max_additional_size.get() {
            Some(b) => Some(self.size as i128 + b),
            None => None,
        };
        let max = match (self.max, with_budget) {
            (None, _) => with_budget,
            (Some(m), None) => Some(m as i128),
            (Some(m), Some(w)) => Some(if m as i128 <= w { m as i128 } else { w }),
        };
        (self.min, max)
    }

    /// Takes a measurement. A flexible part grows to `size` where that is
    /// larger than its current size, and what it grew by is taken off the
    /// budget, which does not fall below zero. A fixed part keeps its size
    /// and leaves the budget as it is. Returns the budget that is left.
    pub fn calc_space(&mut self, size: u32, max_additional_space: Budget) -> (left: Budget)
        ensures
            final(self)@ == old(self)@.grown(size as nat),
            left@ == old(self)@.left(size as nat, max_additional_space@),
            final(self)@.wf(),
    {
        proof {
            use_type_invariant(&*self);
            use_type_invariant(&max_additional_space);
        }
        if !self.is_fixed {
            let old_size = self.size;
            if size > self.size {
                self.size = size;
            }
            let growth = (self.size - old_size) as i128;
            match max_additional_space.get() {
                Some(b) => Budget { free: Some(if b >= growth { b - growth } else { 0 }) },
                None => max_additional_space,
            }
        } else {
            max_additional_space
        }
    }

    /// Puts a flexible part back to its minimum for a new pass; a fixed part
    /// stays as it is.
    pub(crate) fn reset(&mut self)
        ensures
            final(self)@ == old(self)@.reset(),
            final(self)@.wf(),
    {
        proof {
            use_type_invariant(&*self);
        }
        if !self.is_fixed {
            self.size = self.min;
        }
    }
}

} // verus!

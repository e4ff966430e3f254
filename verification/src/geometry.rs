//! Plain geometric values: directions, sizes, offsets and rectangles.
//!
//! All lengths are whole pixels. The size of a single cell is held in `u32`;
//! positions and extents, which add up the sizes of many cells, are held in
//! `i128`. Where a length may be without bound, it is an `Option` and `None`
//! stands for "unbounded".

use vstd::prelude::*;

verus! {

/// A direction on screen.
#[derive(Clone, Copy, PartialEq, Eq, Structural, Debug, Hash)]
pub enum Axis {
    /// The x axis.
    Horizontal,
    /// The y axis.
    Vertical,
}

/// The size of one cell, as measured.
#[derive(Clone, Copy, PartialEq, Eq, Structural, Debug, Hash)]
pub struct Size {
    pub width: u32,
    pub height: u32,
}

/// The space on offer for a whole table; `None` is unbounded space.
#[derive(Clone, Copy, PartialEq, Eq, Debug)]
pub struct Available {
    pub width: Option<u32>,
    pub height: Option<u32>,
}

/// The smallest and the largest size a cell may be measured at.
///
/// A maximum of `None` is unbounded. A finite maximum is negative where the
/// axis is already committed beyond the space on offer.
#[derive(Clone, Copy, PartialEq, Eq, Debug)]
pub struct BoxConstraints {
    pub min: Size,
    pub max_width: Option<i128>,
    pub max_height: Option<i128>,
}

/// An offset or a position, in pixels.
#[derive(Clone, Copy, PartialEq, Eq, Structural, Debug, Hash)]
pub struct Vec2 {
    pub x: i128,
    pub y: i128,
}

/// A position inside one cell, counted from the origin of the cell.
#[derive(Clone, Copy, PartialEq, Eq, Structural, Debug, Hash)]
pub struct Inset {
    pub x: u32,
    pub y: u32,
}

/// The extent of a table.
#[derive(Clone, Copy, PartialEq, Eq, Structural, Debug, Hash)]
pub struct Dimensions {
    pub width: i128,
    pub height: i128,
}

/// A rectangle, given by two opposite corners.
#[derive(Clone, Copy, PartialEq, Eq, Structural, Debug, Hash)]
pub struct Rect {
    pub x0: i128,
    pub y0: i128,
    pub x1: i128,
    pub y1: i128,
}

impl Axis {
    /// The direction perpendicular to this one.
    pub open spec fn spec_cross(self) -> Axis {
        match self {
            Axis::Horizontal => Axis::Vertical,
            Axis::Vertical => Axis::Horizontal,
        }
    }

    /// The pair (x, y) made of a measure along this axis and one across it.
    pub open spec fn spec_pack<T>(self, major: T, minor: T) -> (T, T) {
        match self {
            Axis::Horizontal => (major, minor),
            Axis::Vertical => (minor, major),
        }
    }

    /// The measure along this axis out of a pair (x, y).
    pub open spec fn spec_major<T>(self, x: T, y: T) -> T {
        match self {
            Axis::Horizontal => x,
            Axis::Vertical => y,
        }
    }

    /// The measure across this axis out of a pair (x, y).
    pub open spec fn spec_minor<T>(self, x: T, y: T) -> T {
        self.spec_cross().spec_major(x, y)
    }

    /// The direction perpendicular to this one.
    #[verifier::when_used_as_spec(spec_cross)]
    pub fn cross(self) -> (r: Axis)
        ensures
            r == self.spec_cross(),
    {
        match self {
            Axis::Horizontal => Axis::Vertical,
            Axis::Vertical => Axis::Horizontal,
        }
    }

    /// Arranges a measure along this axis and one across it as a pair (x, y).
    pub fn pack<T>(self, major: T, minor: T) -> (r: (T, T))
        ensures
            r == self.spec_pack(major, minor),
    {
        match self {
            Axis::Horizontal => (major, minor),
            Axis::Vertical => (minor, major),
        }
    }

    /// Splits a pair (x, y) into the measure along this axis and the one
    /// across it, in that order.
    pub fn unpack<T>(self, x: T, y: T) -> (r: (T, T))
        ensures
            r == (self.spec_major(x, y), self.spec_minor(x, y)),
    {
        match self {
            Axis::Horizontal => (x, y),
            Axis::Vertical => (y, x),
        }
    }

    /// The extent of `size` along this axis.
    pub fn major(self, size: Size) -> (r: u32)
        ensures
            r == self.spec_major(size.width, size.height),
    {
        match self {
            Axis::Horizontal => size.width,
            Axis::Vertical => size.height,
        }
    }

    /// The extent of `size` across this axis.
    pub fn minor(self, size: Size) -> (r: u32)
        ensures
            r == self.spec_minor(size.width, size.height),
    {
        self.cross().major(size)
    }

    /// The component of `offset` along this axis.
    pub fn major_vec(self, offset: Vec2) -> (r: i128)
        ensures
            r == self.spec_major(offset.x, offset.y),
    {
        match self {
            Axis::Horizontal => offset.x,
            Axis::Vertical => offset.y,
        }
    }

    /// The component of `offset` across this axis.
    pub fn minor_vec(self, offset: Vec2) -> (r: i128)
        ensures
            r == self.spec_minor(offset.x, offset.y),
    {
        self.cross().major_vec(offset)
    }

    /// Crossing an axis twice gives it back.
    pub proof fn lemma_cross_twice(self)
        ensures
            self.spec_cross().spec_cross() == self,
            self.spec_cross() != self,
    {
    }

    /// Packing two measures and splitting the pair again gives them back.
    pub proof fn lemma_pack_unpack<T>(self, major: T, minor: T)
        ensures
            self.spec_major(self.spec_pack(major, minor).0, self.spec_pack(major, minor).1)
                == major,
            self.spec_minor(self.spec_pack(major, minor).0, self.spec_pack(major, minor).1)
                == minor,
    {
    }
}

impl Rect {
    /// The rectangle spanned by two points, with its corners put in order.
    pub open spec fn spec_from_points(one: Vec2, other: Vec2) -> Rect {
        Rect {
            x0: if one.x <= other.x { one.x } else { other.x },
            y0: if one.y <= other.y { one.y } else { other.y },
            x1: if one.x <= other.x { other.x } else { one.x },
            y1: if one.y <= other.y { other.y } else { one.y },
        }
    }

    /// The rectangle spanned by two points. Its width and height are never
    /// negative, whichever corners the points are.
    pub fn from_points(one: Vec2, other: Vec2) -> (r: Rect)
        ensures
            r == Rect::spec_from_points(one, other),
            r.x0 <= r.x1,
            r.y0 <= r.y1,
    {
        let (x0, x1) = if one.x <= other.x { (one.x, other.x) } else { (other.x, one.x) };
        let (y0, y1) = if one.y <= other.y { (one.y, other.y) } else { (other.y, one.y) };
        Rect { x0, y0, x1, y1 }
    }

    /// The corner with the smallest coordinates.
    pub fn origin(&self) -> (p: Vec2)
        ensures
            p == (Vec2 { x: self.x0, y: self.y0 }),
    {
        Vec2 { x: self.x0, y: self.y0 }
    }
}

} // verus!

//! Headers: a strip beside the table for each of its two axes, with one
//! item for every part of the axis, which follows the table as it scrolls.
//!
//! The header of an axis runs along the direction of that axis. Each of its
//! items is as long as the part it heads and lies where that part starts;
//! across the axis an item is free to take what it needs.

use vstd::prelude::*;
use crate::geometry::{Axis, BoxConstraints, Dimensions, Rect, Size, Vec2};
use crate::layout::part::{extent_of, AxisPart, PartModel};
use crate::layout::table::{TableAxis, TableLayout, TableModel};

verus! {

/// What one item of a header is given: the data of the table, the index of
/// the part that the item heads, and that part.
#[derive(Debug)]
pub struct HeaderData<T> {
    data: T,
    index: usize,
    part: AxisPart,
}

impl<T> HeaderData<T> {
    /// The data of the table.
    pub closed spec fn spec_data(self) -> T {
        self.data
    }

    /// The index of the part that the item heads.
    pub closed spec fn spec_index(self) -> usize {
        self.index
    }

    /// The part that the item heads.
    pub closed spec fn spec_part(self) -> PartModel {
        self.part@
    }

    /// What the item that heads `part`, the part at `index`, is given.
    pub fn new(data: T, index: usize, part: AxisPart) -> (header: HeaderData<T>)
        ensures
            header.spec_data() == data,
            header.spec_index() == index,
            header.spec_part() == part@,
    {
        HeaderData { data, index, part }
    }

    /// The index of the part that the item heads.
    pub fn index(&self) -> (index: usize)
        ensures
            index == self.spec_index(),
    {
        self.index
    }

    /// The size of the part that the item heads.
    pub fn width(&self) -> (width: u32)
        ensures
            width == self.spec_part().size,
    {
        self.part.size()
    }

    /// The part that the item heads.
    pub fn part(&self) -> (part: AxisPart)
        ensures
            part@ == self.spec_part(),
    {
        self.part
    }

    /// Gives the data of the table back.
    pub fn into_data(self) -> (data: T)
        ensures
            data == self.spec_data(),
    {
        self.data
    }

    /// The data of the table.
    pub fn data(&self) -> (data: &T)
        ensures
            *data == self.spec_data(),
    {
        &self.data
    }

    /// The data of the table, to change it.
    pub fn data_mut(&mut self) -> (data: &mut T)
        ensures
            *data == old(self).spec_data(),
            final(self).spec_data() == *final(data),
            final(self).spec_index() == old(self).spec_index(),
            final(self).spec_part() == old(self).spec_part(),
    {
        &mut self.data
    }
}

impl TableModel {
    /// Where the item at `index` of the header of `table_axis` lies within
    /// the header, as a pair (x, y): where its part starts along the axis.
    pub open spec fn header_origin(self, table_axis: TableAxis, index: int) -> (int, int) {
        self.axis_direction(table_axis).spec_pack(self.table_axis(table_axis).start(index), 0)
    }

    /// The size of the header of `table_axis`, as a pair (width, height):
    /// as long as the axis, and `cross_width` across it.
    pub open spec fn header_size(self, table_axis: TableAxis, cross_width: int) -> (int, int) {
        self.axis_direction(table_axis).spec_pack(self.table_axis(table_axis).size(), cross_width)
    }

    /// The offset, as a pair (x, y), that the header of `table_axis` shows
    /// while the table shows `view_origin`: the same along the axis, and
    /// none across it.
    pub open spec fn header_pan(self, table_axis: TableAxis, view_origin: (int, int)) -> (
        int,
        int,
    ) {
        let along = self.axis_direction(table_axis);
        along.spec_pack(along.spec_major(view_origin.0, view_origin.1), 0)
    }

    /// The space, as a pair (width, height), that the two headers take
    /// beside the table: the header of the lines is `line_header_width`
    /// wide across the line axis, the header of the elements is
    /// `element_header_width` wide along it.
    pub open spec fn header_space(self, line_header_width: int, element_header_width: int) -> (
        int,
        int,
    ) {
        self.line_axis.spec_pack(element_header_width, line_header_width)
    }
}

impl TableLayout {
    /// What the item at `index` of the header of `table_axis` is given.
    pub fn header_data<T>(&self, table_axis: TableAxis, index: usize, data: T) -> (header:
        HeaderData<T>)
        requires
            index < self@.table_axis(table_axis).parts.len(),
        ensures
            header.spec_data() == data,
            header.spec_index() == index,
            header.spec_part() == self@.table_axis(table_axis).parts[index as int],
    {
        HeaderData::new(data, index, self.table_axis(table_axis).get(index))
    }

    /// Where the item at `index` of the header of `table_axis` lies within
    /// the header: where its part starts along the axis.
    pub fn header_origin(&self, table_axis: TableAxis, index: usize) -> (origin: Vec2)
        requires
            index < self@.table_axis(table_axis).parts.len(),
        ensures
            (origin.x as int, origin.y as int) == self@.header_origin(table_axis, index as int),
    {
        let (start, _) = self.table_axis(table_axis).current_layout(index);
        let (x, y) = self.axis_direction(table_axis).pack(start, 0);
        Vec2 { x, y }
    }

    /// The sizes at which the item at `index` of the header of `table_axis`
    /// may be measured: along the axis exactly the size of its part, across
    /// it anything up to `max_cross` (`None`: anything at all).
    pub fn header_constraints(
        &self,
        table_axis: TableAxis,
        index: usize,
        max_cross: Option<u32>,
    ) -> (constraints: BoxConstraints)
        requires
            index < self@.table_axis(table_axis).parts.len(),
        ensures
            ({
                let along = self@.axis_direction(table_axis);
                let size = self@.table_axis(table_axis).parts[index as int].size;
                &&& (constraints.min.width as int, constraints.min.height as int)
                    == along.spec_pack(size as int, 0)
                &&& (extent_of(constraints.max_width), extent_of(constraints.max_height))
                    == along.spec_pack(
                    Some(size as int),
                    match max_cross {
                        Some(m) => Some(m as int),
                        None => None,
                    },
                )
            }),
    {
        let along = self.axis_direction(table_axis);
        let size = self.table_axis(table_axis).get(index).size();
        let across = match max_cross {
            Some(m) => Some(m as i128),
            None => None,
        };
        let (min_width, min_height) = along.pack(size, 0);
        let (max_width, max_height) = along.pack(Some(size as i128), across);
        BoxConstraints { min: Size { width: min_width, height: min_height }, max_width, max_height }
    }

    /// The size of the header of `table_axis`: as long as the axis, and
    /// `cross_width` across it.
    pub fn header_size(&self, table_axis: TableAxis, cross_width: u32) -> (size: Dimensions)
        ensures
            (size.width as int, size.height as int) == self@.header_size(
                table_axis,
                cross_width as int,
            ),
    {
        let (width, height) = self.axis_direction(table_axis).pack(
            self.table_axis(table_axis).size(),
            cross_width as i128,
        );
        Dimensions { width, height }
    }

    /// The offset that the header of `table_axis` shows while the table
    /// shows `view_origin`: the same along the axis, and none across it.
    pub fn header_pan(&self, table_axis: TableAxis, view_origin: Vec2) -> (origin: Vec2)
        ensures
            (origin.x as int, origin.y as int) == self@.header_pan(
                table_axis,
                (view_origin.x as int, view_origin.y as int),
            ),
    {
        let along = self.axis_direction(table_axis);
        let (x, y) = along.pack(along.major_vec(view_origin), 0);
        Vec2 { x, y }
    }

    /// The space that the two headers take beside the table: the header of
    /// the lines is `line_header_width` wide across the line axis, the
    /// header of the elements is `element_header_width` wide along it. The
    /// table lies at this offset from the corner that the headers share.
    pub fn header_space(&self, line_header_width: u32, element_header_width: u32) -> (space: Size)
        ensures
            (space.width as int, space.height as int) == self@.header_space(
                line_header_width as int,
                element_header_width as int,
            ),
    {
        let (width, height) = self.line_axis().pack(element_header_width, line_header_width);
        Size { width, height }
    }

    /// The rectangle that the header of `table_axis` takes beside the
    /// table, counted from the corner that the headers share: it starts
    /// past the other header, is as long as the axis and `width` wide.
    pub fn header_frame(&self, table_axis: TableAxis, width: u32, other_width: u32) -> (frame:
        Rect)
        ensures
            (frame.x0 as int, frame.y0 as int) == self@.axis_direction(table_axis).spec_pack(
                other_width as int,
                0,
            ),
            (frame.x1 - frame.x0, frame.y1 - frame.y0) == self@.header_size(
                table_axis,
                width as int,
            ),
    {
        let along = self.axis_direction(table_axis);
        let length = self.table_axis(table_axis).size();
        let (x0, y0) = along.pack(other_width as i128, 0);
        let (x1, y1) = along.pack(other_width as i128 + length, width as i128);
        Rect::from_points(Vec2 { x: x0, y: y0 }, Vec2 { x: x1, y: y1 })
    }
}

} // verus!

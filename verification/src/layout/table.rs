//! The layout of a whole table: one axis of lines, one axis of elements, and
//! the direction on screen in which the lines follow one another.

use vstd::prelude::*;
use crate::geometry::{Available, Axis, BoxConstraints, Dimensions, Inset, Rect, Size, Vec2};
use crate::layout::axis::{AxisLayout, AxisModel};
use crate::layout::part::{extent_of, space_of};

verus! {

/// One of the two logical axes of a table, whatever its orientation on
/// screen.
#[derive(Clone, Copy, PartialEq, Eq, Structural, Debug, Hash)]
pub enum TableAxis {
    /// The axis along which the lines follow one another.
    LineAxis,
    /// The axis along which the elements of one line follow one another.
    ElementAxis,
}

/// A length that may be unbounded, as it is held in a constraint.
pub open spec fn length_of(extent: Option<int>) -> Option<i128> {
    match extent {
        Some(v) => Some(v as i128),
        None => None,
    }
}

/// What a [`TableLayout`] is: the axis of its lines, the axis of its
/// elements, and the direction on screen in which the lines follow one
/// another. The elements of a line follow one another across it.
pub struct TableModel {
    pub lines: AxisModel,
    pub elements: AxisModel,
    pub line_axis: Axis,
}

impl TableModel {
    /// The axis that `table_axis` names.
    pub open spec fn table_axis(self, table_axis: TableAxis) -> AxisModel {
        match table_axis {
            TableAxis::LineAxis => self.lines,
            TableAxis::ElementAxis => self.elements,
        }
    }

    /// The table at the start of a pass over `max_size`: the lines share the
    /// space along the line axis, the elements the space across it.
    pub open spec fn prepare_layout(self, max_size: Available) -> TableModel {
        TableModel {
            lines: self.lines.prepare_layout(
                space_of(self.line_axis.spec_major(max_size.width, max_size.height)),
            ),
            elements: self.elements.prepare_layout(
                space_of(self.line_axis.spec_minor(max_size.width, max_size.height)),
            ),
            line_axis: self.line_axis,
        }
    }

    /// The sizes at which the cell at (`line`, `element`) may be measured:
    /// along the line axis the range of its line, across it the range of its
    /// element.
    pub open spec fn cell_constraints(self, line: int, element: int) -> BoxConstraints {
        let along = self.lines.constrains(line);
        let across = self.elements.constrains(element);
        let min = self.line_axis.spec_pack(along.0, across.0);
        let max = self.line_axis.spec_pack(along.1, across.1);
        BoxConstraints {
            min: Size { width: min.0 as u32, height: min.1 as u32 },
            max_width: length_of(max.0),
            max_height: length_of(max.1),
        }
    }

    /// The table after the cell at (`line`, `element`) was measured at
    /// `size`: its line takes the extent along the line axis, its element
    /// the extent across it.
    pub open spec fn set_cell_size(self, line: int, element: int, size: Size) -> TableModel {
        TableModel {
            lines: self.lines.set_size(
                line,
                self.line_axis.spec_major(size.width, size.height) as nat,
            ),
            elements: self.elements.set_size(
                element,
                self.line_axis.spec_minor(size.width, size.height) as nat,
            ),
            line_axis: self.line_axis,
        }
    }

    /// The corner of the cell at (`line`, `element`) with the smallest
    /// coordinates, as a pair (x, y).
    pub open spec fn cell_start(self, line: int, element: int) -> (int, int) {
        self.line_axis.spec_pack(self.lines.start(line), self.elements.start(element))
    }

    /// The corner of the cell at (`line`, `element`) with the largest
    /// coordinates, as a pair (x, y).
    pub open spec fn cell_end(self, line: int, element: int) -> (int, int) {
        self.line_axis.spec_pack(self.lines.end(line), self.elements.end(element))
    }

    /// Whether some cell holds the pixel at `offset`, a pair (x, y).
    pub open spec fn covers(self, offset: (int, int)) -> bool {
        &&& self.lines.covers(self.line_axis.spec_major(offset.0, offset.1))
        &&& self.elements.covers(self.line_axis.spec_minor(offset.0, offset.1))
    }

    /// The pixel at `offset`, a pair (x, y), as a position inside a cell:
    /// how far into the cell it lies, as a pair (x, y), then the index of
    /// the line and the index of the element.
    pub open spec fn as_cell_offset(self, offset: (int, int)) -> ((int, int), int, int) {
        let along = self.lines.as_cell_offset(self.line_axis.spec_major(offset.0, offset.1));
        let across = self.elements.as_cell_offset(self.line_axis.spec_minor(offset.0, offset.1));
        (self.line_axis.spec_pack(along.0, across.0), along.1, across.1)
    }

    /// The pixel, a pair (x, y), that lies `cell.0` into the cell at line
    /// `cell.1` and element `cell.2`.
    pub open spec fn from_cell_offset(self, cell: ((int, int), int, int)) -> (int, int) {
        self.line_axis.spec_pack(
            self.lines.from_cell_offset((self.line_axis.spec_major(cell.0.0, cell.0.1), cell.1)),
            self.elements.from_cell_offset(
                (self.line_axis.spec_minor(cell.0.0, cell.0.1), cell.2),
            ),
        )
    }

    /// The extent of the whole table, as a pair (width, height).
    pub open spec fn table_size(self) -> (int, int) {
        self.line_axis.spec_pack(self.lines.size(), self.elements.size())
    }

    /// The direction on screen of the axis that `table_axis` names.
    pub open spec fn axis_direction(self, table_axis: TableAxis) -> Axis {
        match table_axis {
            TableAxis::LineAxis => self.line_axis,
            TableAxis::ElementAxis => self.line_axis.spec_cross(),
        }
    }

    /// The direction on screen across the axis that `table_axis` names: the
    /// one in which the items of the header of that axis are free to take
    /// what they need.
    pub open spec fn header_direction(self, table_axis: TableAxis) -> Axis {
        match table_axis {
            TableAxis::LineAxis => self.line_axis.spec_cross(),
            TableAxis::ElementAxis => self.line_axis,
        }
    }

    /// Converting a pixel that the table covers to a position inside a cell
    /// and back gives the same pixel.
    pub proof fn lemma_cell_offset_round_trip(self, offset: (int, int))
        requires
            self.covers(offset),
        ensures
            self.from_cell_offset(self.as_cell_offset(offset)) == offset,
    {
        self.lines.lemma_cell_offset_round_trip(self.line_axis.spec_major(offset.0, offset.1));
        self.elements.lemma_cell_offset_round_trip(self.line_axis.spec_minor(offset.0, offset.1));
    }
}

/// The sizes of the lines and of the elements of a table, and the direction
/// on screen in which its lines follow one another.
#[derive(Debug)]
pub struct TableLayout {
    element_layout: AxisLayout,
    line_layout: AxisLayout,
    line_axis: Axis,
}

impl View for TableLayout {
    type V = TableModel;

    closed spec fn view(&self) -> TableModel {
        TableModel {
            lines: self.line_layout@,
            elements: self.element_layout@,
            line_axis: self.line_axis,
        }
    }
}

impl TableLayout {
    /// A table without lines and without elements, whose lines will follow
    /// one another along `line_axis`.
    pub fn new(line_axis: Axis) -> (table: TableLayout)
        ensures
            table@.line_axis == line_axis,
            table@.lines == (AxisModel { parts: Seq::empty(), budget: Some(0) }),
            table@.elements == (AxisModel { parts: Seq::empty(), budget: Some(0) }),
    {
        TableLayout {
            element_layout: AxisLayout::new(),
            line_layout: AxisLayout::new(),
            line_axis,
        }
    }

    /// Starts a pass over `max_size`: the lines share the space along the
    /// line axis, the elements the space across it.
    pub fn prepare_layout(&mut self, max_size: Available)
        ensures
            final(self)@ == old(self)@.prepare_layout(max_size),
    {
        let (along, across) = self.line_axis.unpack(max_size.width, max_size.height);
        self.line_layout.prepare_layout(along);
        self.element_layout.prepare_layout(across);
    }

    /// The rectangle of the cell at (`line`, `element`).
    pub fn layout_rect(&self, line: usize, element: usize) -> (rect: Rect)
        requires
            line < self@.lines.parts.len(),
            element < self@.elements.parts.len(),
        ensures
            (rect.x0 as int, rect.y0 as int) == self@.cell_start(line as int, element as int),
            (rect.x1 as int, rect.y1 as int) == self@.cell_end(line as int, element as int),
            0 <= rect.x0 <= rect.x1,
            0 <= rect.y0 <= rect.y1,
    {
        let (l1, l2) = self.line_layout.current_layout(line);
        let (e1, e2) = self.element_layout.current_layout(element);
        let (x0, y0) = self.line_axis.pack(l1, e1);
        let (x1, y1) = self.line_axis.pack(l2, e2);
        Rect::from_points(Vec2 { x: x0, y: y0 }, Vec2 { x: x1, y: y1 })
    }

    /// The sizes at which the cell at (`line`, `element`) may be measured:
    /// along the line axis the range of its line, across it the range of its
    /// element.
    pub fn cell_constraints(&self, line: usize, element: usize) -> (constraints: BoxConstraints)
        requires
            line < self@.lines.parts.len(),
            element < self@.elements.parts.len(),
        ensures
            constraints == self@.cell_constraints(line as int, element as int),
    {
        let line_constrains = self.line_layout.constrains(line);
        let element_constrains = self.element_layout.constrains(element);
        let (min_width, min_height) = self.line_axis.pack(line_constrains.0, element_constrains.0);
        let (max_width, max_height) = self.line_axis.pack(line_constrains.1, element_constrains.1);
        BoxConstraints { min: Size { width: min_width, height: min_height }, max_width, max_height }
    }

    /// Takes the measured size of the cell at (`line`, `element`): its line
    /// takes the extent along the line axis, its element the extent across
    /// it.
    pub fn set_cell_size(&mut self, line: usize, element: usize, size: Size)
        requires
            line < old(self)@.lines.parts.len(),
            element < old(self)@.elements.parts.len(),
        ensures
            final(self)@ == old(self)@.set_cell_size(line as int, element as int, size),
    {
        self.line_layout.set_size(line, self.line_axis.major(size));
        self.element_layout.set_size(element, self.line_axis.minor(size));
    }

    /// Measures the cell at (`line`, `element`): hands `layout` the sizes at
    /// which the cell may be measured, and takes the size it returns.
    pub fn layout<F: FnOnce(&BoxConstraints) -> Size>(
        &mut self,
        line: usize,
        element: usize,
        layout: F,
    )
        requires
            line < old(self)@.lines.parts.len(),
            element < old(self)@.elements.parts.len(),
            call_requires(layout, (&old(self)@.cell_constraints(line as int, element as int),)),
        ensures
            exists|size: Size|
                {
                    &&& call_ensures(
                        layout,
                        (&old(self)@.cell_constraints(line as int, element as int),),
                        size,
                    )
                    &&& final(self)@ == #[trigger] old(self)@.set_cell_size(
                        line as int,
                        element as int,
                        size,
                    )
                },
    {
        let inner_bc = self.cell_constraints(line, element);
        let size = layout(&inner_bc);
        self.set_cell_size(line, element, size);
    }

    /// Finds the cell in which the pixel at `offset` lies. Returns how far
    /// into the cell the pixel lies, then the index of the line and the
    /// index of the element.
    pub fn as_cell_offset(&self, offset: Vec2) -> (cell: (Inset, u64, u64))
        requires
            self@.covers((offset.x as int, offset.y as int)),
        ensures
            ((cell.0.x as int, cell.0.y as int), cell.1 as int, cell.2 as int)
                == self@.as_cell_offset((offset.x as int, offset.y as int)),
            cell.1 < self@.lines.parts.len(),
            cell.2 < self@.elements.parts.len(),
    {
        let line_offset = self.line_layout.as_cell_offset(self.line_axis.major_vec(offset));
        let element_offset = self.element_layout.as_cell_offset(self.line_axis.minor_vec(offset));
        let (x, y) = self.line_axis.pack(line_offset.0, element_offset.0);
        (Inset { x, y }, line_offset.1, element_offset.1)
    }

    /// The pixel that lies `offset_tuple.0` into the cell at line
    /// `offset_tuple.1` and element `offset_tuple.2`.
    pub fn from_cell_offset(&self, offset_tuple: (Inset, u64, u64)) -> (offset: Vec2)
        ensures
            (offset.x as int, offset.y as int) == self@.from_cell_offset(
                (
                    (offset_tuple.0.x as int, offset_tuple.0.y as int),
                    offset_tuple.1 as int,
                    offset_tuple.2 as int,
                ),
            ),
    {
        let (along, across) = self.line_axis.unpack(offset_tuple.0.x, offset_tuple.0.y);
        let line_offset = self.line_layout.from_cell_offset((along, offset_tuple.1));
        let element_offset = self.element_layout.from_cell_offset((across, offset_tuple.2));
        let (x, y) = self.line_axis.pack(line_offset, element_offset);
        Vec2 { x, y }
    }

    /// The extent of the whole table.
    pub fn table_size(&self) -> (size: Dimensions)
        ensures
            (size.width as int, size.height as int) == self@.table_size(),
            0 <= size.width,
            0 <= size.height,
    {
        let (width, height) = self.line_axis.pack(self.line_layout.size(), self.element_layout.size());
        Dimensions { width, height }
    }

    /// The direction on screen in which the lines follow one another.
    pub fn line_axis(&self) -> (axis: Axis)
        ensures
            axis == self@.line_axis,
    {
        self.line_axis
    }

    /// The direction on screen of the axis that `table_axis` names: the
    /// line axis itself, or the direction across it for the elements.
    pub fn axis_direction(&self, table_axis: TableAxis) -> (axis: Axis)
        ensures
            axis == self@.axis_direction(table_axis),
    {
        match table_axis {
            TableAxis::LineAxis => self.line_axis,
            TableAxis::ElementAxis => self.line_axis.cross(),
        }
    }

    /// The direction on screen across the axis that `table_axis` names: the
    /// one in which the items of the header of that axis are free to take
    /// what they need.
    pub fn header_direction(&self, table_axis: TableAxis) -> (axis: Axis)
        ensures
            axis == self@.header_direction(table_axis),
            axis == self@.axis_direction(table_axis).spec_cross(),
    {
        match table_axis {
            TableAxis::LineAxis => self.line_axis.cross(),
            TableAxis::ElementAxis => self.line_axis,
        }
    }

    /// The axis of the elements.
    pub fn elements(&self) -> (axis: &AxisLayout)
        ensures
            axis@ == self@.elements,
    {
        &self.element_layout
    }

    /// The axis of the lines.
    pub fn lines(&self) -> (axis: &AxisLayout)
        ensures
            axis@ == self@.lines,
    {
        &self.line_layout
    }

    /// The axis that `table_axis` names.
    pub fn table_axis(&self, table_axis: TableAxis) -> (axis: &AxisLayout)
        ensures
            axis@ == self@.table_axis(table_axis),
    {
        match table_axis {
            TableAxis::LineAxis => &self.line_layout,
            TableAxis::ElementAxis => &self.element_layout,
        }
    }

    /// The axis of the elements, to change it.
    pub fn elements_mut(&mut self) -> (axis: &mut AxisLayout)
        ensures
            axis@ == old(self)@.elements,
            final(self)@ == (TableModel { elements: final(axis)@, ..old(self)@ }),
    {
        &mut self.element_layout
    }

    /// The axis of the lines, to change it.
    pub fn lines_mut(&mut self) -> (axis: &mut AxisLayout)
        ensures
            axis@ == old(self)@.lines,
            final(self)@ == (TableModel { lines: final(axis)@, ..old(self)@ }),
    {
        &mut self.line_layout
    }

    /// The axis that `table_axis` names, to change it.
    pub fn table_axis_mut(&mut self, table_axis: TableAxis) -> (axis: &mut AxisLayout)
        ensures
            axis@ == old(self)@.table_axis(table_axis),
            final(self)@ == match table_axis {
                TableAxis::LineAxis => TableModel { lines: final(axis)@, ..old(self)@ },
                TableAxis::ElementAxis => TableModel { elements: final(axis)@, ..old(self)@ },
            },
    {
        match table_axis {
            TableAxis::LineAxis => &mut self.line_layout,
            TableAxis::ElementAxis => &mut self.element_layout,
        }
    }
}

} // verus!

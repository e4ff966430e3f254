use druid_table::geometry::{Available, Axis, BoxConstraints, Dimensions, Inset, Rect, Size, Vec2};
use druid_table::layout::{AxisPart, TableAxis, TableLayout};

/// Two fixed rows of height 20 and 30 and three flexible columns, measured
/// at widths 10, 25 and 15 in one pass.
fn two_rows_three_columns(line_axis: Axis) -> TableLayout {
    let mut table = TableLayout::new(line_axis);
    table.lines_mut().add_part(AxisPart::new(Some(20)));
    table.lines_mut().add_part(AxisPart::new(Some(30)));
    table.elements_mut().set_length(3, AxisPart::new(None));
    table.prepare_layout(Available { width: None, height: None });
    let widths = [10, 25, 15];
    for line in 0..2 {
        for element in 0..3 {
            table.layout(line, element, |constraints: &BoxConstraints| {
                let (along, across) = line_axis.unpack(constraints.min.width, constraints.min.height);
                let (width, height) = line_axis.pack(along, across.max(widths[element]));
                Size { width, height }
            });
        }
    }
    table
}

#[test]
fn new_table_is_empty() {
    let table = TableLayout::new(Axis::Horizontal);
    assert_eq!(table.line_axis(), Axis::Horizontal);
    assert_eq!(table.lines().length(), 0);
    assert_eq!(table.elements().length(), 0);
    assert_eq!(table.table_size(), Dimensions { width: 0, height: 0 });
}

#[test]
fn rows_and_columns_after_one_pass() {
    let table = two_rows_three_columns(Axis::Vertical);
    assert_eq!(table.table_size(), Dimensions { width: 50, height: 50 });
    let rect = table.layout_rect(1, 2);
    assert_eq!(rect, Rect { x0: 35, y0: 20, x1: 50, y1: 50 });
    assert_eq!(rect.origin(), Vec2 { x: 35, y: 20 });
    assert_eq!((rect.x1 - rect.x0, rect.y1 - rect.y0), (15, 30));
    assert_eq!(table.layout_rect(0, 0), Rect { x0: 0, y0: 0, x1: 10, y1: 20 });
    assert_eq!(table.layout_rect(0, 1), Rect { x0: 10, y0: 0, x1: 35, y1: 20 });
    assert_eq!(table.layout_rect(1, 0), Rect { x0: 0, y0: 20, x1: 10, y1: 50 });
}

#[test]
fn lines_along_the_horizontal_axis_are_columns() {
    let table = two_rows_three_columns(Axis::Horizontal);
    assert_eq!(table.table_size(), Dimensions { width: 50, height: 50 });
    assert_eq!(table.layout_rect(1, 2), Rect { x0: 20, y0: 35, x1: 50, y1: 50 });
    assert_eq!(table.layout_rect(0, 1), Rect { x0: 0, y0: 10, x1: 20, y1: 35 });
}

#[test]
fn table_size_packs_lines_along_the_line_axis() {
    let mut table = TableLayout::new(Axis::Vertical);
    table.lines_mut().add_part(AxisPart::new(Some(7)));
    table.elements_mut().add_part(AxisPart::new(Some(100)));
    table.elements_mut().add_part(AxisPart::new(Some(11)));
    assert_eq!(table.table_size(), Dimensions { width: 111, height: 7 });
    let mut table = TableLayout::new(Axis::Horizontal);
    table.lines_mut().add_part(AxisPart::new(Some(7)));
    table.elements_mut().add_part(AxisPart::new(Some(100)));
    table.elements_mut().add_part(AxisPart::new(Some(11)));
    assert_eq!(table.table_size(), Dimensions { width: 7, height: 111 });
}

#[test]
fn prepare_layout_splits_the_space_between_the_axes() {
    let mut table = TableLayout::new(Axis::Vertical);
    table.lines_mut().add_part(AxisPart::new(Some(20)));
    table.elements_mut().add_part(AxisPart::new(None));
    table.prepare_layout(Available { width: Some(300), height: Some(100) });
    assert_eq!(table.lines().max_additional_size().get(), Some(80));
    assert_eq!(table.elements().max_additional_size().get(), Some(300));
    table.prepare_layout(Available { width: None, height: Some(100) });
    assert_eq!(table.lines().max_additional_size().get(), Some(80));
    assert_eq!(table.elements().max_additional_size().get(), None);

    let mut table = TableLayout::new(Axis::Horizontal);
    table.lines_mut().add_part(AxisPart::new(Some(20)));
    table.elements_mut().add_part(AxisPart::new(None));
    table.prepare_layout(Available { width: Some(300), height: Some(100) });
    assert_eq!(table.lines().max_additional_size().get(), Some(280));
    assert_eq!(table.elements().max_additional_size().get(), Some(100));
}

#[test]
fn cell_constraints_join_both_axes() {
    let mut table = TableLayout::new(Axis::Vertical);
    table.lines_mut().add_part(AxisPart::new(Some(20)));
    table.lines_mut().add_part(AxisPart::new(None));
    table.elements_mut().set_length(2, AxisPart::new(None));
    table.prepare_layout(Available { width: Some(300), height: Some(100) });
    assert_eq!(
        table.cell_constraints(0, 1),
        BoxConstraints {
            min: Size { width: 0, height: 20 },
            max_width: Some(300),
            max_height: Some(20)
        }
    );
    assert_eq!(
        table.cell_constraints(1, 0),
        BoxConstraints {
            min: Size { width: 0, height: 0 },
            max_width: Some(300),
            max_height: Some(80)
        }
    );
    table.set_cell_size(1, 0, Size { width: 120, height: 50 });
    assert_eq!(
        table.cell_constraints(1, 1),
        BoxConstraints {
            min: Size { width: 0, height: 0 },
            max_width: Some(180),
            max_height: Some(80)
        }
    );
    assert_eq!(
        table.cell_constraints(1, 0),
        BoxConstraints {
            min: Size { width: 0, height: 0 },
            max_width: Some(300),
            max_height: Some(80)
        }
    );
}

#[test]
fn cell_constraints_in_unbounded_space() {
    let mut table = TableLayout::new(Axis::Horizontal);
    table.lines_mut().add_part(AxisPart::new(None));
    table.elements_mut().add_part(AxisPart::new(Some(9)));
    table.prepare_layout(Available { width: None, height: None });
    assert_eq!(
        table.cell_constraints(0, 0),
        BoxConstraints { min: Size { width: 0, height: 9 }, max_width: None, max_height: Some(9) }
    );
}

#[test]
fn layout_hands_out_constraints_and_takes_the_measured_size() {
    let mut table = TableLayout::new(Axis::Vertical);
    table.lines_mut().add_part(AxisPart::new(None));
    table.elements_mut().add_part(AxisPart::new(None));
    table.prepare_layout(Available { width: Some(300), height: Some(100) });
    let mut seen = None;
    table.layout(0, 0, |constraints: &BoxConstraints| {
        seen = Some(*constraints);
        Size { width: 120, height: 45 }
    });
    assert_eq!(
        seen,
        Some(BoxConstraints {
            min: Size { width: 0, height: 0 },
            max_width: Some(300),
            max_height: Some(100)
        })
    );
    assert_eq!(table.lines().get(0).size(), 45);
    assert_eq!(table.elements().get(0).size(), 120);
    assert_eq!(table.lines().max_additional_size().get(), Some(55));
    assert_eq!(table.elements().max_additional_size().get(), Some(180));
    assert_eq!(table.layout_rect(0, 0), Rect { x0: 0, y0: 0, x1: 120, y1: 45 });
}

#[test]
fn set_cell_size_is_what_layout_does_with_a_measured_size() {
    let mut measured = two_rows_three_columns(Axis::Vertical);
    let mut set = two_rows_three_columns(Axis::Vertical);
    measured.layout(1, 1, |_: &BoxConstraints| Size { width: 70, height: 90 });
    set.set_cell_size(1, 1, Size { width: 70, height: 90 });
    for line in 0..2 {
        for element in 0..3 {
            assert_eq!(measured.layout_rect(line, element), set.layout_rect(line, element));
        }
    }
    assert_eq!(set.layout_rect(1, 1), Rect { x0: 10, y0: 20, x1: 80, y1: 50 });
    assert_eq!(set.table_size(), Dimensions { width: 95, height: 50 });
}

#[test]
fn cell_offset_of_a_pixel() {
    let table = two_rows_three_columns(Axis::Vertical);
    assert_eq!(table.as_cell_offset(Vec2 { x: 12, y: 25 }), (Inset { x: 2, y: 5 }, 1, 1));
    assert_eq!(table.from_cell_offset((Inset { x: 2, y: 5 }, 1, 1)), Vec2 { x: 12, y: 25 });
    assert_eq!(table.as_cell_offset(Vec2 { x: 0, y: 0 }), (Inset { x: 0, y: 0 }, 0, 0));
    assert_eq!(table.as_cell_offset(Vec2 { x: 50, y: 50 }), (Inset { x: 15, y: 30 }, 1, 2));

    let table = two_rows_three_columns(Axis::Horizontal);
    assert_eq!(table.as_cell_offset(Vec2 { x: 25, y: 12 }), (Inset { x: 5, y: 2 }, 1, 1));
    assert_eq!(table.from_cell_offset((Inset { x: 5, y: 2 }, 1, 1)), Vec2 { x: 25, y: 12 });
}

#[test]
fn table_cell_offset_round_trip() {
    for line_axis in [Axis::Vertical, Axis::Horizontal] {
        let table = two_rows_three_columns(line_axis);
        for x in 0..=50 {
            for y in 0..=50 {
                let offset = Vec2 { x, y };
                let cell = table.as_cell_offset(offset);
                assert!((cell.1 as usize) < table.lines().length());
                assert!((cell.2 as usize) < table.elements().length());
                assert_eq!(table.from_cell_offset(cell), offset);
            }
        }
    }
}

#[test]
fn cell_offset_survives_a_resize() {
    let mut table = two_rows_three_columns(Axis::Vertical);
    let cell = table.as_cell_offset(Vec2 { x: 40, y: 30 });
    assert_eq!(cell, (Inset { x: 5, y: 10 }, 1, 2));
    table.set_cell_size(0, 0, Size { width: 100, height: 0 });
    assert_eq!(table.from_cell_offset(cell), Vec2 { x: 130, y: 30 });
}

#[test]
fn directions_of_the_axes() {
    let table = TableLayout::new(Axis::Vertical);
    assert_eq!(table.line_axis(), Axis::Vertical);
    assert_eq!(table.axis_direction(TableAxis::LineAxis), Axis::Vertical);
    assert_eq!(table.axis_direction(TableAxis::ElementAxis), Axis::Horizontal);
    assert_eq!(table.header_direction(TableAxis::LineAxis), Axis::Horizontal);
    assert_eq!(table.header_direction(TableAxis::ElementAxis), Axis::Vertical);

    let table = TableLayout::new(Axis::Horizontal);
    assert_eq!(table.line_axis(), Axis::Horizontal);
    assert_eq!(table.axis_direction(TableAxis::LineAxis), Axis::Horizontal);
    assert_eq!(table.axis_direction(TableAxis::ElementAxis), Axis::Vertical);
    assert_eq!(table.header_direction(TableAxis::LineAxis), Axis::Vertical);
    assert_eq!(table.header_direction(TableAxis::ElementAxis), Axis::Horizontal);
}

#[test]
fn axes_by_name() {
    let mut table = TableLayout::new(Axis::Vertical);
    table.table_axis_mut(TableAxis::LineAxis).add_part(AxisPart::new(Some(5)));
    table.table_axis_mut(TableAxis::ElementAxis).set_length(4, AxisPart::new(None));
    assert_eq!(table.lines().length(), 1);
    assert_eq!(table.elements().length(), 4);
    assert_eq!(table.table_axis(TableAxis::LineAxis).length(), 1);
    assert_eq!(table.table_axis(TableAxis::ElementAxis).length(), 4);
    assert_eq!(table.table_axis(TableAxis::LineAxis).get(0), AxisPart::new(Some(5)));
    table.lines_mut().set(0, AxisPart::new(Some(6)));
    table.elements_mut().set_length(1, AxisPart::new(None));
    assert_eq!(table.table_axis(TableAxis::LineAxis).get(0).size(), 6);
    assert_eq!(table.table_axis(TableAxis::ElementAxis).length(), 1);
}

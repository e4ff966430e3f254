use druid_table::geometry::{Available, Axis, Size};
use druid_table::layout::{AxisPart, TableAxis, TableLayout};
use druid_table::DefaultTablePainter;

#[test]
fn separators_of_an_empty_table() {
    let layout = TableLayout::new(Axis::Vertical);
    assert_eq!(DefaultTablePainter.separators(&layout, TableAxis::LineAxis), vec![0]);
    assert_eq!(DefaultTablePainter.separators(&layout, TableAxis::ElementAxis), vec![0]);
}

#[test]
fn separators_stand_between_the_parts() {
    let mut layout = TableLayout::new(Axis::Vertical);
    layout.lines_mut().add_part(AxisPart::new(Some(20)));
    layout.lines_mut().add_part(AxisPart::new(Some(30)));
    layout.elements_mut().set_length(3, AxisPart::new(None));
    layout.prepare_layout(Available { width: None, height: None });
    for (element, width) in [10, 25, 15].into_iter().enumerate() {
        layout.set_cell_size(0, element, Size { width, height: 0 });
    }
    assert_eq!(DefaultTablePainter.separators(&layout, TableAxis::LineAxis), vec![0, 20, 50]);
    assert_eq!(
        DefaultTablePainter.separators(&layout, TableAxis::ElementAxis),
        vec![0, 10, 35, 50]
    );
}

use druid_table::geometry::Axis;
use druid_table::layout::{AxisPart, TableLayout};
use druid_table::{Static, TablePolicy};

#[test]
fn static_policy_changes_nothing() {
    let mut layout = TableLayout::new(Axis::Vertical);
    layout.lines_mut().add_part(AxisPart::new(Some(20)));
    layout.elements_mut().set_length(2, AxisPart::new(None));
    let mut lines = vec!["name"];
    let mut policy = Static;
    policy.update(&1, &2, &mut lines, &mut layout);
    assert_eq!(lines, vec!["name"]);
    assert_eq!(layout.lines().length(), 1);
    assert_eq!(layout.lines().get(0), AxisPart::new(Some(20)));
    assert_eq!(layout.elements().length(), 2);
}

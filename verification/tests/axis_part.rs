use druid_table::layout::{AxisPart, Budget};

#[test]
fn fixed_part_has_one_size() {
    let part = AxisPart::new(Some(40));
    assert_eq!(part.size(), 40);
    assert_eq!(part.constrains(Budget::new(None)), (40, Some(40)));
}

#[test]
fn flexible_part_starts_empty_and_unbounded() {
    let part = AxisPart::new(None);
    assert_eq!(part.size(), 0);
    assert_eq!(part.constrains(Budget::new(None)), (0, None));
}

#[test]
fn fixed_part_of_no_size() {
    let part = AxisPart::new(Some(0));
    assert_eq!(part.size(), 0);
    assert_eq!(part.constrains(Budget::new(None)), (0, Some(0)));
    assert_ne!(part, AxisPart::new(None));
}

#[test]
fn constrains_of_flexible_part_is_size_and_budget() {
    let mut part = AxisPart::new(None);
    assert_eq!(part.constrains(Budget::new(Some(40))), (0, Some(40)));
    part.calc_space(15, Budget::new(Some(40)));
    assert_eq!(part.constrains(Budget::new(Some(25))), (0, Some(40)));
    assert_eq!(part.constrains(Budget::new(Some(0))), (0, Some(15)));
}

#[test]
fn constrains_of_fixed_part_stays_at_its_size() {
    let part = AxisPart::new(Some(30));
    assert_eq!(part.constrains(Budget::new(Some(100))), (30, Some(30)));
    assert_eq!(part.constrains(Budget::new(Some(0))), (30, Some(30)));
}

#[test]
fn calc_space_grows_flexible_part() {
    let mut part = AxisPart::new(None);
    let left = part.calc_space(25, Budget::new(Some(100)));
    assert_eq!(part.size(), 25);
    assert_eq!(left.get(), Some(75));
}

#[test]
fn calc_space_never_shrinks() {
    let mut part = AxisPart::new(None);
    let left = part.calc_space(25, Budget::new(Some(100)));
    let left = part.calc_space(10, left);
    assert_eq!(part.size(), 25);
    assert_eq!(left.get(), Some(75));
    let left = part.calc_space(30, left);
    assert_eq!(part.size(), 30);
    assert_eq!(left.get(), Some(70));
}

#[test]
fn calc_space_stops_at_an_empty_budget() {
    let mut part = AxisPart::new(None);
    let left = part.calc_space(25, Budget::new(Some(10)));
    assert_eq!(part.size(), 25);
    assert_eq!(left.get(), Some(0));
}

#[test]
fn calc_space_uses_the_budget_up_exactly() {
    let mut part = AxisPart::new(None);
    let left = part.calc_space(10, Budget::new(Some(10)));
    assert_eq!(part.size(), 10);
    assert_eq!(left.get(), Some(0));
}

#[test]
fn calc_space_leaves_fixed_part_and_budget() {
    let mut part = AxisPart::new(Some(40));
    let left = part.calc_space(90, Budget::new(Some(100)));
    assert_eq!(part.size(), 40);
    assert_eq!(left.get(), Some(100));
    let left = part.calc_space(5, left);
    assert_eq!(part.size(), 40);
    assert_eq!(left.get(), Some(100));
    assert_eq!(part, AxisPart::new(Some(40)));
}

#[test]
fn calc_space_keeps_an_unbounded_budget() {
    let mut part = AxisPart::new(None);
    let left = part.calc_space(u32::MAX, Budget::new(None));
    assert_eq!(part.size(), u32::MAX);
    assert_eq!(left.get(), None);
}

#[test]
fn budget_holds_the_space_on_offer() {
    assert_eq!(Budget::new(Some(0)).get(), Some(0));
    assert_eq!(Budget::new(Some(u32::MAX)).get(), Some(4294967295));
    assert_eq!(Budget::new(None).get(), None);
}

#[test]
fn largest_sizes_do_not_overflow() {
    let mut part = AxisPart::new(None);
    let left = part.calc_space(u32::MAX, Budget::new(Some(u32::MAX)));
    assert_eq!(left.get(), Some(0));
    assert_eq!(
        part.constrains(Budget::new(Some(u32::MAX))),
        (0, Some(2 * 4294967295))
    );
}

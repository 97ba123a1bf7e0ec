use workbook::pair::{Member, Pair};

#[test]
fn pair_keeps_its_members() {
    let pair = Pair::new("left", "right");
    assert_eq!(pair.x, "left");
    assert_eq!(pair.y, "right");
}

#[test]
fn largest_member_by_the_types_order() {
    assert_eq!(Pair::new(1, 3).largest(), Member::Y);
    assert_eq!(Pair::new(3, 1).largest(), Member::X);
    assert_eq!(Pair::new(2, 2).largest(), Member::X);
    assert_eq!(Pair::new("b", "a").largest(), Member::X);
}

#[test]
fn members_that_cannot_be_compared_give_the_second() {
    assert_eq!(Pair::new(f64::NAN, 1.0).largest(), Member::Y);
    assert_eq!(Pair::new(1.0, f64::NAN).largest(), Member::Y);
}

use accumulator_bridge::Arithmetic;

#[test]
fn new_cell_holds_its_value() {
    assert_eq!(Arithmetic::new(0).get(), 0);
    assert_eq!(Arithmetic::new(-17).get(), -17);
    assert_eq!(Arithmetic::new(i64::MAX).get(), i64::MAX);
}

#[test]
fn add_returns_and_stores_the_sum() {
    let mut cell = Arithmetic::new(14);
    assert_eq!(cell.add(14), Some(28));
    assert_eq!(cell.get(), 28);
    assert_eq!(cell.add(-30), Some(-2));
    assert_eq!(cell.get(), -2);
}

#[test]
fn sub_returns_and_stores_the_difference() {
    let mut cell = Arithmetic::new(42);
    assert_eq!(cell.sub(72), Some(-30));
    assert_eq!(cell.get(), -30);
    assert_eq!(cell.sub(-12), Some(-18));
    assert_eq!(cell.get(), -18);
}

#[test]
fn adding_max_twice_fails_the_second_time() {
    let mut cell = Arithmetic::new(0);
    assert_eq!(cell.add(i64::MAX), Some(i64::MAX));
    assert_eq!(cell.add(i64::MAX), None);
    assert_eq!(cell.get(), i64::MAX);
}

#[test]
fn add_reaches_both_ends_of_the_range() {
    let mut cell = Arithmetic::new(i64::MAX - 1);
    assert_eq!(cell.add(1), Some(i64::MAX));
    assert_eq!(cell.add(1), None);
    let mut cell = Arithmetic::new(i64::MIN + 1);
    assert_eq!(cell.add(-1), Some(i64::MIN));
    assert_eq!(cell.add(-1), None);
    assert_eq!(cell.get(), i64::MIN);
}

#[test]
fn sub_overflow_leaves_the_cell_unchanged() {
    let mut cell = Arithmetic::new(i64::MIN);
    assert_eq!(cell.sub(1), None);
    assert_eq!(cell.get(), i64::MIN);
    let mut cell = Arithmetic::new(0);
    assert_eq!(cell.sub(i64::MIN), None);
    assert_eq!(cell.get(), 0);
    let mut cell = Arithmetic::new(-1);
    assert_eq!(cell.sub(i64::MIN), Some(i64::MAX));
}

use accumulator_bridge::AccumulatorTable;
use accumulator_bridge::TableError;

#[test]
fn created_accumulator_reads_back() {
    let mut table = AccumulatorTable::new();
    let handle = table.create(42).unwrap();
    assert_eq!(table.get(handle), Ok(42));
}

#[test]
fn handles_are_distinct_and_independent() {
    let mut table = AccumulatorTable::new();
    let first = table.create(1).unwrap();
    let second = table.create(2).unwrap();
    assert_ne!(first, second);
    assert_eq!(table.add(first, 10), Ok(Some(11)));
    assert_eq!(table.get(first), Ok(11));
    assert_eq!(table.get(second), Ok(2));
}

#[test]
fn add_and_subtract_through_a_handle() {
    let mut table = AccumulatorTable::new();
    let handle = table.create(42).unwrap();
    assert_eq!(table.add(handle, 12), Ok(Some(54)));
    assert_eq!(table.subtract(handle, 14), Ok(Some(40)));
    assert_eq!(table.subtract(handle, 6), Ok(Some(34)));
    assert_eq!(table.get(handle), Ok(34));
}

#[test]
fn overflow_through_a_handle_changes_nothing() {
    let mut table = AccumulatorTable::new();
    let handle = table.create(0).unwrap();
    assert_eq!(table.add(handle, i64::MAX), Ok(Some(i64::MAX)));
    assert_eq!(table.add(handle, i64::MAX), Ok(None));
    assert_eq!(table.get(handle), Ok(i64::MAX));
    let low = table.create(i64::MIN).unwrap();
    assert_eq!(table.subtract(low, 1), Ok(None));
    assert_eq!(table.get(low), Ok(i64::MIN));
}

#[test]
fn dropped_handle_is_refused_everywhere() {
    let mut table = AccumulatorTable::new();
    let handle = table.create(7).unwrap();
    assert_eq!(table.drop(handle), Ok(()));
    assert_eq!(table.get(handle), Err(TableError::InvalidHandle));
    assert_eq!(table.add(handle, 1), Err(TableError::InvalidHandle));
    assert_eq!(table.subtract(handle, 1), Err(TableError::InvalidHandle));
    assert_eq!(table.drop(handle), Err(TableError::InvalidHandle));
}

#[test]
fn dropping_one_handle_keeps_the_others() {
    let mut table = AccumulatorTable::new();
    let first = table.create(1).unwrap();
    let second = table.create(2).unwrap();
    assert_eq!(table.drop(first), Ok(()));
    assert_eq!(table.get(second), Ok(2));
    assert_eq!(table.add(second, 3), Ok(Some(5)));
}

#[test]
fn unknown_handle_is_refused() {
    let mut elsewhere = AccumulatorTable::new();
    elsewhere.create(1).unwrap();
    elsewhere.create(2).unwrap();
    let stranger = elsewhere.create(3).unwrap();
    let mut table = AccumulatorTable::new();
    let known = table.create(10).unwrap();
    assert_eq!(table.get(stranger), Err(TableError::InvalidHandle));
    assert_eq!(table.add(stranger, 1), Err(TableError::InvalidHandle));
    assert_eq!(table.subtract(stranger, 1), Err(TableError::InvalidHandle));
    assert_eq!(table.drop(stranger), Err(TableError::InvalidHandle));
    assert_eq!(table.get(known), Ok(10));
}

#[test]
fn handle_of_one_table_is_unknown_to_a_new_one() {
    let mut first = AccumulatorTable::new();
    let handle = first.create(1).unwrap();
    let mut second = AccumulatorTable::new();
    assert_eq!(second.get(handle), Err(TableError::InvalidHandle));
    assert_eq!(second.add(handle, 1), Err(TableError::InvalidHandle));
    assert_eq!(second.drop(handle), Err(TableError::InvalidHandle));
}

#[test]
fn live_handle_is_found_at_its_index() {
    let mut table = AccumulatorTable::new();
    let first = table.create(1).unwrap();
    let second = table.create(2).unwrap();
    assert_ne!(first.rep(), second.rep());
    assert_eq!(table.handle_at(first.rep()), Some(first));
    assert_eq!(table.handle_at(second.rep()), Some(second));
    assert_eq!(table.handle_at(second.rep() + 1), None);
    assert_eq!(table.drop(first), Ok(()));
    assert_eq!(table.handle_at(first.rep()), None);
}

#[test]
fn stale_handle_stays_refused_when_its_slot_is_used_again() {
    let mut table = AccumulatorTable::new();
    let old = table.create(100).unwrap();
    assert_eq!(table.drop(old), Ok(()));
    let new = table.create(5).unwrap();
    assert_eq!(new.rep(), old.rep());
    assert_ne!(new, old);
    assert_eq!(table.get(new), Ok(5));
    assert_eq!(table.get(old), Err(TableError::InvalidHandle));
    assert_eq!(table.add(old, 1), Err(TableError::InvalidHandle));
    assert_eq!(table.subtract(old, 1), Err(TableError::InvalidHandle));
    assert_eq!(table.drop(old), Err(TableError::InvalidHandle));
    assert_eq!(table.get(new), Ok(5));
    assert_eq!(table.handle_at(old.rep()), Some(new));
}

#[test]
fn table_takes_a_million_accumulators_and_no_more() {
    let mut table = AccumulatorTable::new();
    let mut last = None;
    for value in 0..1_000_000i64 {
        last = Some(table.create(value).unwrap());
    }
    assert_eq!(table.create(0), Err(TableError::Full));
    let last = last.unwrap();
    assert_eq!(table.get(last), Ok(999_999));
    assert_eq!(table.drop(last), Ok(()));
    let again = table.create(3).unwrap();
    assert_eq!(table.get(again), Ok(3));
    assert_eq!(table.create(0), Err(TableError::Full));
}

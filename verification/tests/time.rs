use senrigan_types::{validate_stream_order, ContractError, MonotonicTime};

#[test]
fn orders_monotonic_timestamps() {
    let first = MonotonicTime::from_nanos(10);
    let second = MonotonicTime::from_nanos(25);
    assert_eq!(second.checked_duration_since(first).unwrap().as_nanos(), 15);
    assert!(first.checked_duration_since(second).is_err());
}

#[test]
fn rejects_reversed_stream_order() {
    let first = MonotonicTime::from_nanos(10);
    let second = MonotonicTime::from_nanos(20);
    assert!(validate_stream_order(1, first, 2, second).is_ok());
    assert!(validate_stream_order(2, first, 2, second).is_err());
    assert!(validate_stream_order(1, second, 2, first).is_err());
}

#[test]
fn monotonic_time_keeps_its_nanoseconds() {
    assert_eq!(MonotonicTime::from_nanos(42).as_nanos(), 42);
    assert_eq!(MonotonicTime::default().as_nanos(), 0);
}

#[test]
fn duration_since_an_equal_time_is_zero() {
    let t = MonotonicTime::from_nanos(7);
    assert_eq!(t.checked_duration_since(t).unwrap().as_nanos(), 0);
    let u = MonotonicTime::from_nanos(8);
    assert!(t.checked_duration_since(u).is_err());
    assert!(u.checked_duration_since(t).is_ok());
}

#[test]
fn reversed_duration_reports_time_order() {
    let early = MonotonicTime::from_nanos(1);
    let late = MonotonicTime::from_nanos(2);
    assert_eq!(
        early.checked_duration_since(late),
        Err(ContractError::InvalidTimeOrder {
            earlier: "earlier timestamp",
            later: "later timestamp",
        })
    );
}

#[test]
fn stream_order_reports_sequence_before_time() {
    let first = MonotonicTime::from_nanos(10);
    let second = MonotonicTime::from_nanos(20);
    assert_eq!(
        validate_stream_order(5, second, 5, first),
        Err(ContractError::InvalidSequence)
    );
    assert_eq!(
        validate_stream_order(5, second, 6, first),
        Err(ContractError::InvalidTimeOrder {
            earlier: "previous source time",
            later: "next source time",
        })
    );
    assert!(validate_stream_order(5, second, 6, second).is_ok());
}

#[test]
fn stream_order_chains_across_three_records() {
    let a = MonotonicTime::from_nanos(1);
    let b = MonotonicTime::from_nanos(1);
    let c = MonotonicTime::from_nanos(3);
    assert!(validate_stream_order(1, a, 2, b).is_ok());
    assert!(validate_stream_order(2, b, 9, c).is_ok());
    assert!(validate_stream_order(1, a, 9, c).is_ok());
    assert_eq!(c.checked_duration_since(a).unwrap().as_nanos(), 2);
}

#[test]
fn clock_values_compare_as_their_counts() {
    let a = MonotonicTime::from_nanos(3);
    let b = MonotonicTime::from_nanos(5);
    assert!(a < b);
    assert!(a <= b);
    assert!(!(b < a));
    assert_eq!(a.partial_cmp(&b), Some(std::cmp::Ordering::Less));
    assert_eq!(a, MonotonicTime::from_nanos(a.as_nanos()));
    assert_ne!(a, b);
}

use loadgen::timing::{duration_to_nanos, NANOS_PER_SEC};

#[test]
fn nanos_per_sec_constant() {
    assert_eq!(NANOS_PER_SEC, 1_000_000_000);
}

#[test]
fn zero_duration_is_zero() {
    assert_eq!(duration_to_nanos(0, 0), 0);
}

#[test]
fn folds_seconds_and_remainder() {
    assert_eq!(duration_to_nanos(0, 1), 1);
    assert_eq!(duration_to_nanos(1, 500_000_000), 1_500_000_000);
    assert_eq!(duration_to_nanos(2, 5), 2_000_000_005);
}

#[test]
fn saturates_at_the_maximum() {
    assert_eq!(duration_to_nanos(u64::MAX, 0), u64::MAX);
    assert_eq!(duration_to_nanos(u64::MAX, 999_999_999), u64::MAX);
    // The largest duration that still fits exactly.
    assert_eq!(duration_to_nanos(18_446_744_073, 709_551_615), u64::MAX);
    // One nanosecond more saturates.
    assert_eq!(duration_to_nanos(18_446_744_073, 709_551_616), u64::MAX);
}

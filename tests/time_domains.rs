use itron::abi::{TMAX_RELTIM, TMO_FEVR, TMO_POL};
use std::convert::TryFrom;

use itron::wait::QueueOrder;
use itron::time::{expect_valid_duration, expect_valid_timeout, Duration, Timeout};

#[test]
fn duration_from_micros_round_trips() {
    for n in [0u64, 1, 1234, 999_999, 4_000_000_000] {
        assert_eq!(Duration::from_micros(n).unwrap().as_raw() as u64, n);
    }
    assert!(Duration::from_micros(4_000_000_001).is_none());
    assert!(Duration::from_micros(u64::MAX).is_none());
}

#[test]
fn duration_unit_conversions() {
    assert_eq!(Duration::from_secs(4000).unwrap().as_raw(), 4_000_000_000);
    assert!(Duration::from_secs(4001).is_none());
    assert!(Duration::from_secs(u64::MAX / 1_000_000 + 1).is_none());
    assert!(Duration::from_secs(u64::MAX).is_none());
    assert_eq!(Duration::from_millis(42).unwrap().as_raw(), 42_000);
    assert!(Duration::from_millis(4_000_001).is_none());
    assert!(Duration::from_millis(u64::MAX).is_none());
    assert_eq!(Duration::from_nanos(1999).unwrap().as_raw(), 1);
    assert_eq!(Duration::from_nanos(4_000_000_000_999).unwrap().as_raw(), 4_000_000_000);
    assert!(Duration::from_nanos(4_000_000_001_000).is_none());
    assert!(Duration::from_nanos(u128::MAX).is_none());
    assert_eq!(Duration::zero().as_raw(), 0);
    assert_eq!(Duration::from_raw(17).as_raw(), 17);
    assert_eq!(expect_valid_duration(Duration::from_millis(5)).as_raw(), 5000);
}

#[test]
fn timeout_special_values() {
    assert_eq!(Timeout::zero().as_raw(), TMO_POL);
    assert_eq!(Timeout::forever().as_raw(), TMO_FEVR);
    assert!(Timeout::zero().is_finite());
    assert!(!Timeout::forever().is_finite());
    assert!(Timeout::from_raw(TMAX_RELTIM).is_finite());
    assert_eq!(Timeout::from_micros(0).unwrap(), Timeout::zero());
}

#[test]
fn timeout_unit_conversions() {
    assert_eq!(Timeout::from_millis(42).unwrap().as_raw(), 42_000);
    assert_eq!(Timeout::from_secs(3).unwrap().as_raw(), 3_000_000);
    assert!(Timeout::from_secs(0x7ffffffffffffff * 2).is_none());
    assert!(Timeout::from_micros(4_000_000_001).is_none());
    assert_eq!(Timeout::from_nanos(2_500).unwrap().as_raw(), 2);
    assert!(Timeout::from_nanos(u128::MAX).is_none());
    assert_eq!(expect_valid_timeout(Timeout::from_micros(9)).as_raw(), 9);
}

#[test]
fn duration_and_timeout_interconvert() {
    let d = Duration::from_millis(250).unwrap();
    let t = Timeout::try_from(d).unwrap();
    assert_eq!(t.as_raw(), 250_000);
    assert_eq!(Duration::try_from(t).unwrap(), d);
    assert!(Duration::try_from(Timeout::forever()).is_err());
    assert_eq!(Duration::try_from(Timeout::zero()).unwrap(), Duration::zero());
}

#[test]
fn queue_order_attributes() {
    assert_eq!(QueueOrder::Fifo.as_raw_atr(), itron::abi::TA_NULL);
    assert_eq!(QueueOrder::TaskPriority.as_raw_atr(), itron::abi::TA_TPRI);
}

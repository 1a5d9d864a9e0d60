use rvm::arch::cpu::{current_time_nanos, frequency, frequency_of, DEFAULT_FREQUENCY};

#[test]
fn frequency_defaults_to_four_gigahertz() {
    assert_eq!(DEFAULT_FREQUENCY, 4000);
    assert_eq!(frequency_of(None), 4000);
}

#[test]
fn frequency_is_never_below_the_default() {
    assert_eq!(frequency_of(Some(0)), 4000);
    assert_eq!(frequency_of(Some(2400)), 4000);
    assert_eq!(frequency_of(Some(3999)), 4000);
    assert_eq!(frequency_of(Some(4000)), 4000);
}

#[test]
fn frequency_takes_a_higher_report() {
    assert_eq!(frequency_of(Some(4001)), 4001);
    assert_eq!(frequency_of(Some(5200)), 5200);
    assert_eq!(frequency_of(Some(u16::MAX)), u16::MAX);
}

#[test]
fn nanos_are_cycles_by_frequency() {
    assert_eq!(current_time_nanos(0, 4000), 0);
    assert_eq!(current_time_nanos(4000, 4000), 1000);
    assert_eq!(current_time_nanos(4_000_000_000, 4000), 1_000_000_000);
    assert_eq!(current_time_nanos(7, 4000), 1);
    assert_eq!(current_time_nanos(3, 4000), 0);
    assert_eq!(current_time_nanos(10_000, 5000), 2000);
}

#[test]
fn nanos_do_not_overflow_on_a_late_reading() {
    assert_eq!(current_time_nanos(u64::MAX, 4000), u64::MAX / 4);
    assert_eq!(
        current_time_nanos(u64::MAX, u16::MAX),
        ((u64::MAX as u128) * 1000 / 65535) as u64
    );
}

#[test]
fn the_frequency_of_this_cpu_is_not_below_the_default() {
    let f = frequency();
    assert!(f >= 4000);
    assert_eq!(f, frequency());
    assert_eq!(frequency_of(Some(f)), f);
}

use tick_clock::units::{ScalingFactor, TickDuration, Unit};

#[test]
fn scaling_factor_needs_positive_parts() {
    assert!(ScalingFactor::new(0, 1).is_none());
    assert!(ScalingFactor::new(1, 0).is_none());
    assert!(ScalingFactor::new(0, 0).is_none());
    let scale = ScalingFactor::new(30, 1).unwrap();
    assert_eq!(scale.numerator(), 30);
    assert_eq!(scale.denominator(), 1);
}

#[test]
fn scaling_factor_is_not_reduced() {
    let scale = ScalingFactor::new(5, 5000).unwrap();
    assert_eq!(scale.numerator(), 5);
    assert_eq!(scale.denominator(), 5000);
}

#[test]
fn duration_constructors_set_unit_and_value() {
    assert_eq!(TickDuration::microseconds(7), TickDuration { unit: Unit::Microseconds, value: 7 });
    assert_eq!(TickDuration::milliseconds(8), TickDuration { unit: Unit::Milliseconds, value: 8 });
    assert_eq!(TickDuration::seconds(9), TickDuration { unit: Unit::Seconds, value: 9 });
}

#[test]
fn milliseconds_into_finer_ticks() {
    let scale = ScalingFactor::new(1, 2000).unwrap();
    assert_eq!(TickDuration::milliseconds(20).to_ticks(&scale), Some(40));
}

#[test]
fn milliseconds_into_quarter_second_ticks() {
    let scale = ScalingFactor::new(1, 4).unwrap();
    assert_eq!(TickDuration::milliseconds(250).to_ticks(&scale), Some(1));
    assert_eq!(TickDuration::milliseconds(1000).to_ticks(&scale), Some(4));
}

#[test]
fn microseconds_into_millisecond_ticks() {
    let scale = ScalingFactor::new(1, 1000).unwrap();
    assert_eq!(TickDuration::microseconds(5000).to_ticks(&scale), Some(5));
    assert_eq!(TickDuration::microseconds(999).to_ticks(&scale), Some(0));
}

#[test]
fn seconds_into_millisecond_ticks() {
    let scale = ScalingFactor::new(1, 1000).unwrap();
    assert_eq!(TickDuration::seconds(2).to_ticks(&scale), Some(2000));
}

#[test]
fn seconds_into_minute_ticks() {
    let scale = ScalingFactor::new(60, 1).unwrap();
    assert_eq!(TickDuration::seconds(60).to_ticks(&scale), Some(1));
    assert_eq!(TickDuration::seconds(180).to_ticks(&scale), Some(3));
}

#[test]
fn conversion_that_does_not_fit_gives_none() {
    let scale = ScalingFactor::new(1, 2).unwrap();
    assert_eq!(TickDuration::seconds(u32::MAX).to_ticks(&scale), None);
    let fine = ScalingFactor::new(1, 1_000_000).unwrap();
    assert_eq!(TickDuration::milliseconds(u32::MAX).to_ticks(&fine), None);
}

#[test]
fn tick_shorter_than_the_scale_counts_as_zero() {
    let scale = ScalingFactor::new(1, 50_000).unwrap();
    assert_eq!(TickDuration::microseconds(10).to_ticks(&scale), Some(0));
}

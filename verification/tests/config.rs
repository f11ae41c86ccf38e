use mist_scheduler::config::{
    MistConfig, OFF_DEFAULT_MS, OFF_MAX_MS, OFF_MIN_MS, ON_DEFAULT_MS, ON_MAX_MS, ON_MIN_MS,
};
use mist_scheduler::error::SchedulerError;
use mist_scheduler::phase::MistPhase;
use mist_scheduler::time::Duration;

#[test]
fn default_config_is_three_seconds_on_three_minutes_off() {
    let config = MistConfig::default();
    assert_eq!(config.on_duration(), Duration::from_secs(3));
    assert_eq!(config.off_duration(), Duration::from_secs(180));
    assert_eq!(ON_DEFAULT_MS, 3_000);
    assert_eq!(OFF_DEFAULT_MS, 180_000);
    assert!(config.within_policy());
}

#[test]
fn config_keeps_the_durations_it_was_given() {
    let config = MistConfig::new(Duration::from_millis(1_250), Duration::from_secs(75)).unwrap();
    assert_eq!(config.on_duration(), Duration::from_millis(1_250));
    assert_eq!(config.off_duration(), Duration::from_secs(75));
    assert_eq!(config.duration_of(MistPhase::Misting), Duration::from_millis(1_250));
    assert_eq!(config.duration_of(MistPhase::Idle), Duration::from_secs(75));
}

#[test]
fn config_refuses_a_zero_duration() {
    let zero = Duration::from_millis(0);
    let one = Duration::from_millis(1);
    assert_eq!(MistConfig::new(zero, one), Err(SchedulerError::InvalidDuration));
    assert_eq!(MistConfig::new(one, zero), Err(SchedulerError::InvalidDuration));
    assert_eq!(MistConfig::new(zero, zero), Err(SchedulerError::InvalidDuration));
    assert!(MistConfig::new(one, one).is_ok());
}

#[test]
fn policy_limits_are_one_to_ten_seconds_on_and_one_to_five_minutes_off() {
    assert_eq!((ON_MIN_MS, ON_MAX_MS), (1_000, 10_000));
    assert_eq!((OFF_MIN_MS, OFF_MAX_MS), (60_000, 300_000));
    let within = |on_ms: u64, off_ms: u64| {
        MistConfig::new(Duration::from_millis(on_ms), Duration::from_millis(off_ms))
            .unwrap()
            .within_policy()
    };
    assert!(within(1_000, 60_000));
    assert!(within(10_000, 300_000));
    assert!(within(3_000, 180_000));
    assert!(!within(999, 60_000));
    assert!(!within(10_001, 60_000));
    assert!(!within(1_000, 59_999));
    assert!(!within(1_000, 300_001));
}

#[test]
fn clamping_pulls_each_duration_into_its_limits() {
    let config = |on_ms: u64, off_ms: u64| {
        MistConfig::new(Duration::from_millis(on_ms), Duration::from_millis(off_ms)).unwrap()
    };
    assert_eq!(config(1, 1).clamped_to_policy(), config(1_000, 60_000));
    assert_eq!(config(20_000, 900_000).clamped_to_policy(), config(10_000, 300_000));
    assert_eq!(config(500, 400_000).clamped_to_policy(), config(1_000, 300_000));
    assert_eq!(config(4_500, 123_456).clamped_to_policy(), config(4_500, 123_456));
    assert!(config(1, u64::MAX).clamped_to_policy().within_policy());
}

use mist_scheduler::config::MistConfig;
use mist_scheduler::error::{DriverFault, SchedulerError};
use mist_scheduler::phase::{MistPhase, SolenoidCommand};
use mist_scheduler::scheduler::{MistScheduler, TimerState};
use mist_scheduler::time::{Duration, Instant};

fn scheduler(on_secs: u32, off_secs: u32) -> MistScheduler {
    let config = MistConfig::new(Duration::from_secs(on_secs), Duration::from_secs(off_secs))
        .expect("both durations are positive");
    MistScheduler::with_config(config)
}

fn running(phase: MistPhase, started_secs: u32) -> TimerState {
    TimerState::Running { phase, phase_started_at: Instant::from_secs(started_secs) }
}

#[test]
fn new_scheduler_is_disabled_with_default_durations() {
    let s = MistScheduler::new();
    assert_eq!(s.status(), (None, TimerState::Disabled));
    assert!(!s.is_running());
    assert_eq!(s.config().on_duration(), Duration::from_secs(3));
    assert_eq!(s.config().off_duration(), Duration::from_secs(180));
    assert_eq!(s.time_remaining(Instant::from_secs(0)), None);
    assert_eq!(s, MistScheduler::default());
}

#[test]
fn with_config_comes_up_disabled() {
    let s = scheduler(5, 90);
    assert_eq!(s.state().timer, TimerState::Disabled);
    assert_eq!(s.state().config.on_duration(), Duration::from_secs(5));
    assert_eq!(s.state().config.off_duration(), Duration::from_secs(90));
    assert_eq!(s.solenoid(), SolenoidCommand::Deenergize);
}

#[test]
fn start_begins_idle_and_closes_the_valve() {
    let mut s = scheduler(3, 60);
    assert_eq!(s.start(Instant::from_secs(7)), Some(SolenoidCommand::Deenergize));
    assert_eq!(s.status(), (Some(MistPhase::Idle), running(MistPhase::Idle, 7)));
    assert!(s.is_running());
    assert_eq!(s.solenoid(), SolenoidCommand::Deenergize);
    assert_eq!(s.time_remaining(Instant::from_secs(7)), Some(Duration::from_secs(60)));
}

#[test]
fn start_twice_is_start_once() {
    let mut once = scheduler(3, 60);
    once.start(Instant::from_secs(2));
    let mut twice = scheduler(3, 60);
    twice.start(Instant::from_secs(2));
    assert_eq!(twice.start(Instant::from_secs(40)), None);
    assert_eq!(twice, once);
    assert_eq!(twice.status().1, running(MistPhase::Idle, 2));
}

#[test]
fn start_while_misting_leaves_the_phase_alone() {
    let mut s = scheduler(3, 60);
    s.start(Instant::from_secs(0));
    s.tick(Instant::from_secs(60)).unwrap();
    assert_eq!(s.start(Instant::from_secs(61)), None);
    assert_eq!(s.status(), (Some(MistPhase::Misting), running(MistPhase::Misting, 60)));
}

#[test]
fn stop_from_any_state_disables() {
    let mut disabled = scheduler(3, 60);
    assert_eq!(disabled.stop(), SolenoidCommand::Deenergize);
    assert_eq!(disabled.status(), (None, TimerState::Disabled));
    assert_eq!(disabled.time_remaining(Instant::from_secs(1)), None);

    let mut idle = scheduler(3, 60);
    idle.start(Instant::from_secs(0));
    assert_eq!(idle.stop(), SolenoidCommand::Deenergize);
    assert_eq!(idle.status(), (None, TimerState::Disabled));
    assert_eq!(idle.time_remaining(Instant::from_secs(1)), None);

    let mut misting = scheduler(3, 60);
    misting.start(Instant::from_secs(0));
    misting.tick(Instant::from_secs(60)).unwrap();
    assert_eq!(misting.stop(), SolenoidCommand::Deenergize);
    assert_eq!(misting.status(), (None, TimerState::Disabled));
    assert_eq!(misting.time_remaining(Instant::from_secs(61)), None);
}

#[test]
fn stop_while_misting_closes_the_valve_once() {
    let mut s = scheduler(3, 60);
    let mut sent: Vec<SolenoidCommand> = Vec::new();
    sent.extend(s.start(Instant::from_secs(0)));
    sent.extend(s.tick(Instant::from_secs(60)).unwrap());
    assert_eq!(s.status().0, Some(MistPhase::Misting));
    assert_eq!(s.solenoid(), SolenoidCommand::Energize);
    sent.clear();

    sent.push(s.stop());
    assert_eq!(s.state().timer, TimerState::Disabled);
    assert_eq!(sent, vec![SolenoidCommand::Deenergize]);
    assert_eq!(s.solenoid(), SolenoidCommand::Deenergize);

    sent.extend(s.tick(Instant::from_secs(61)).unwrap());
    assert_eq!(sent, vec![SolenoidCommand::Deenergize]);
}

#[test]
fn stop_twice_is_stop_once() {
    let mut s = scheduler(3, 60);
    s.start(Instant::from_secs(0));
    s.stop();
    let after_one = s;
    assert_eq!(s.stop(), SolenoidCommand::Deenergize);
    assert_eq!(s, after_one);
}

#[test]
fn tick_does_nothing_while_disabled() {
    let mut s = scheduler(3, 60);
    assert_eq!(s.tick(Instant::from_secs(1000)), Ok(None));
    assert_eq!(s.status(), (None, TimerState::Disabled));
    assert_eq!(s.config().on_duration(), Duration::from_secs(3));
}

#[test]
fn cycle_of_three_seconds_on_and_sixty_off() {
    let mut s = scheduler(3, 60);
    assert_eq!(s.start(Instant::from_secs(0)), Some(SolenoidCommand::Deenergize));
    assert_eq!(s.status().1, running(MistPhase::Idle, 0));

    assert_eq!(s.tick(Instant::from_secs(30)), Ok(None));
    assert_eq!(s.status().0, Some(MistPhase::Idle));
    assert_eq!(s.time_remaining(Instant::from_secs(30)), Some(Duration::from_secs(30)));

    assert_eq!(s.tick(Instant::from_secs(60)), Ok(Some(SolenoidCommand::Energize)));
    assert_eq!(s.status(), (Some(MistPhase::Misting), running(MistPhase::Misting, 60)));
    assert_eq!(s.time_remaining(Instant::from_secs(60)), Some(Duration::from_secs(3)));

    assert_eq!(s.tick(Instant::from_secs(61)), Ok(None));
    assert_eq!(s.status().0, Some(MistPhase::Misting));
    assert_eq!(s.time_remaining(Instant::from_secs(61)), Some(Duration::from_secs(2)));

    assert_eq!(s.tick(Instant::from_secs(63)), Ok(Some(SolenoidCommand::Deenergize)));
    assert_eq!(s.status(), (Some(MistPhase::Idle), running(MistPhase::Idle, 63)));
}

#[test]
fn tick_just_short_of_the_duration_keeps_the_phase() {
    let mut s = scheduler(3, 60);
    s.start(Instant::from_millis(0));
    assert_eq!(s.tick(Instant::from_millis(59_999)), Ok(None));
    assert_eq!(s.time_remaining(Instant::from_millis(59_999)), Some(Duration::from_millis(1)));
    assert_eq!(s.tick(Instant::from_millis(60_000)), Ok(Some(SolenoidCommand::Energize)));
}

#[test]
fn tick_with_an_earlier_reading_is_refused() {
    let mut s = scheduler(3, 60);
    s.start(Instant::from_secs(0));
    assert_eq!(s.tick(Instant::from_secs(30)), Ok(None));
    let before = s;
    assert_eq!(s.tick(Instant::from_secs(20)), Err(SchedulerError::NonMonotonicTime));
    assert_eq!(s, before);
    assert_eq!(s.status().1, running(MistPhase::Idle, 0));
    assert_eq!(s.tick(Instant::from_secs(30)), Ok(None));
}

#[test]
fn tick_with_an_earlier_reading_is_refused_while_disabled() {
    let mut s = scheduler(3, 60);
    assert_eq!(s.tick(Instant::from_secs(50)), Ok(None));
    let before = s;
    assert_eq!(s.tick(Instant::from_secs(49)), Err(SchedulerError::NonMonotonicTime));
    assert_eq!(s, before);
}

#[test]
fn tick_with_the_same_reading_is_accepted() {
    let mut s = scheduler(3, 60);
    s.start(Instant::from_secs(5));
    assert_eq!(s.tick(Instant::from_secs(5)), Ok(None));
    assert_eq!(s.tick(Instant::from_secs(5)), Ok(None));
}

#[test]
fn start_takes_its_reading_as_the_new_reference() {
    let mut s = scheduler(3, 60);
    assert_eq!(s.tick(Instant::from_secs(100)), Ok(None));
    assert_eq!(s.start(Instant::from_secs(10)), Some(SolenoidCommand::Deenergize));
    assert_eq!(s.status().1, running(MistPhase::Idle, 10));
    assert_eq!(s.tick(Instant::from_secs(9)), Err(SchedulerError::NonMonotonicTime));
    assert_eq!(s.tick(Instant::from_secs(11)), Ok(None));
}

#[test]
fn a_late_tick_changes_one_phase_only() {
    let mut s = scheduler(3, 60);
    s.start(Instant::from_secs(0));
    // Ten whole cycles late: still a single change, into misting, from now.
    assert_eq!(s.tick(Instant::from_secs(630)), Ok(Some(SolenoidCommand::Energize)));
    assert_eq!(s.status().1, running(MistPhase::Misting, 630));
    assert_eq!(s.time_remaining(Instant::from_secs(630)), Some(Duration::from_secs(3)));
    assert_eq!(s.tick(Instant::from_secs(630)), Ok(None));
    assert_eq!(s.tick(Instant::from_secs(633)), Ok(Some(SolenoidCommand::Deenergize)));
}

#[test]
fn time_remaining_stays_between_zero_and_the_phase_length() {
    let mut s = scheduler(3, 60);
    s.start(Instant::from_secs(10));
    // Overdue and not yet ticked: zero, not negative.
    assert_eq!(s.time_remaining(Instant::from_secs(500)), Some(Duration::from_millis(0)));
    assert_eq!(s.time_remaining(Instant::from_secs(70)), Some(Duration::from_millis(0)));
    // A reading from before the phase began: the full length, not more.
    assert_eq!(s.time_remaining(Instant::from_secs(4)), Some(Duration::from_secs(60)));
    assert_eq!(s.time_remaining(Instant::from_millis(10_250)), Some(Duration::from_millis(59_750)));
    // The query changed nothing.
    assert_eq!(s.status().1, running(MistPhase::Idle, 10));

    s.tick(Instant::from_secs(70)).unwrap();
    for ms in [70_000u64, 70_001, 71_500, 72_999, 73_000, 80_000] {
        let left = s.time_remaining(Instant::from_millis(ms)).unwrap();
        assert!(left <= Duration::from_secs(3));
        assert_eq!(left.as_millis(), 3_000u64.saturating_sub(ms - 70_000));
    }
}

#[test]
fn set_on_duration_is_locked_while_running() {
    let mut s = scheduler(3, 60);
    s.start(Instant::from_secs(0));
    let before = s;
    assert_eq!(s.set_on_duration(Duration::from_secs(5)), Err(SchedulerError::ConfigLocked));
    assert_eq!(s, before);
    s.tick(Instant::from_secs(60)).unwrap();
    assert_eq!(s.set_on_duration(Duration::from_secs(5)), Err(SchedulerError::ConfigLocked));
    assert_eq!(s.config().on_duration(), Duration::from_secs(3));
}

#[test]
fn set_off_duration_is_locked_while_running() {
    let mut s = scheduler(3, 60);
    s.start(Instant::from_secs(0));
    assert_eq!(s.set_off_duration(Duration::from_secs(90)), Err(SchedulerError::ConfigLocked));
    assert_eq!(s.config().off_duration(), Duration::from_secs(60));
}

#[test]
fn set_on_duration_while_disabled_governs_the_next_cycle() {
    let mut s = scheduler(3, 60);
    assert_eq!(s.set_on_duration(Duration::from_secs(5)), Ok(()));
    assert_eq!(s.config().on_duration(), Duration::from_secs(5));
    assert_eq!(s.config().off_duration(), Duration::from_secs(60));
    assert_eq!(s.status(), (None, TimerState::Disabled));

    s.start(Instant::from_secs(100));
    assert_eq!(s.tick(Instant::from_secs(159)), Ok(None));
    assert_eq!(s.tick(Instant::from_secs(160)), Ok(Some(SolenoidCommand::Energize)));
    assert_eq!(s.tick(Instant::from_secs(163)), Ok(None));
    assert_eq!(s.tick(Instant::from_secs(164)), Ok(None));
    assert_eq!(s.tick(Instant::from_secs(165)), Ok(Some(SolenoidCommand::Deenergize)));
}

#[test]
fn set_off_duration_while_disabled_governs_the_next_cycle() {
    let mut s = scheduler(3, 60);
    assert_eq!(s.set_off_duration(Duration::from_secs(90)), Ok(()));
    assert_eq!(s.config().on_duration(), Duration::from_secs(3));
    assert_eq!(s.config().off_duration(), Duration::from_secs(90));
    s.start(Instant::from_secs(0));
    assert_eq!(s.tick(Instant::from_secs(60)), Ok(None));
    assert_eq!(s.tick(Instant::from_secs(90)), Ok(Some(SolenoidCommand::Energize)));
}

#[test]
fn durations_can_be_set_again_after_stop() {
    let mut s = scheduler(3, 60);
    s.start(Instant::from_secs(0));
    s.stop();
    assert_eq!(s.set_on_duration(Duration::from_secs(9)), Ok(()));
    assert_eq!(s.set_off_duration(Duration::from_secs(61)), Ok(()));
    assert_eq!(s.config().on_duration(), Duration::from_secs(9));
    assert_eq!(s.config().off_duration(), Duration::from_secs(61));
}

#[test]
fn a_zero_duration_is_invalid() {
    let mut s = scheduler(3, 60);
    let before = s;
    assert_eq!(s.set_on_duration(Duration::from_millis(0)), Err(SchedulerError::InvalidDuration));
    assert_eq!(s.set_off_duration(Duration::from_millis(0)), Err(SchedulerError::InvalidDuration));
    assert_eq!(s, before);

    s.start(Instant::from_secs(0));
    assert_eq!(s.set_on_duration(Duration::from_millis(0)), Err(SchedulerError::InvalidDuration));
    assert_eq!(s.set_off_duration(Duration::from_millis(0)), Err(SchedulerError::InvalidDuration));
}

#[test]
fn the_scheduler_takes_durations_outside_the_policy_limits() {
    let mut s = scheduler(3, 60);
    assert_eq!(s.set_on_duration(Duration::from_millis(1)), Ok(()));
    assert_eq!(s.set_off_duration(Duration::from_secs(86_400)), Ok(()));
    assert!(!s.config().within_policy());
    s.start(Instant::from_secs(0));
    assert_eq!(s.tick(Instant::from_secs(86_400)), Ok(Some(SolenoidCommand::Energize)));
    assert_eq!(s.tick(Instant::from_millis(86_400_001)), Ok(Some(SolenoidCommand::Deenergize)));
}

#[test]
fn phases_alternate_and_last_their_length_within_one_step() {
    let on_ms: u64 = 2_500;
    let off_ms: u64 = 7_300;
    let step_ms: u64 = 700;
    let config =
        MistConfig::new(Duration::from_millis(on_ms), Duration::from_millis(off_ms)).unwrap();
    let mut s = MistScheduler::with_config(config);
    s.start(Instant::from_millis(1_000));

    let mut phase = MistPhase::Idle;
    let mut began: u64 = 1_000;
    let mut changes = 0;
    let mut now: u64 = 1_000;
    while now < 120_000 {
        now += step_ms;
        let issued = s.tick(Instant::from_millis(now)).unwrap();
        match s.status() {
            (Some(current), TimerState::Running { phase_started_at, .. }) => {
                if current == phase {
                    assert_eq!(issued, None);
                    assert_eq!(phase_started_at, Instant::from_millis(began));
                } else {
                    let length = if phase == MistPhase::Misting { on_ms } else { off_ms };
                    assert_eq!(current, phase.opposite());
                    assert_eq!(issued, Some(current.command()));
                    assert_eq!(phase_started_at, Instant::from_millis(now));
                    assert!(now - began >= length);
                    assert!(now - began < length + step_ms);
                    phase = current;
                    began = now;
                    changes += 1;
                }
            }
            other => panic!("the timer stopped by itself: {:?}", other),
        }
    }
    assert_eq!(changes, 22);
}

#[test]
fn a_driver_fault_is_passed_on_whole() {
    let fault = DriverFault { code: 17 };
    assert_eq!(SchedulerError::from(fault), SchedulerError::DriverError(fault));
    let reply: Result<(), DriverFault> = Err(fault);
    let reported: Result<(), SchedulerError> = reply.map_err(SchedulerError::from);
    assert_eq!(reported, Err(SchedulerError::DriverError(DriverFault { code: 17 })));
}

#[test]
fn the_phase_stands_when_the_driver_fails() {
    let mut s = scheduler(3, 60);
    s.start(Instant::from_secs(0));
    let issued = s.tick(Instant::from_secs(60)).unwrap();
    assert_eq!(issued, Some(SolenoidCommand::Energize));
    // The driver fails: the caller reports it, and the scheduler has moved on.
    let report = SchedulerError::from(DriverFault { code: 3 });
    assert_eq!(report, SchedulerError::DriverError(DriverFault { code: 3 }));
    assert_eq!(s.status().0, Some(MistPhase::Misting));
    // What to send again is the position of the phase that stands.
    assert_eq!(s.solenoid(), SolenoidCommand::Energize);
}

#[test]
fn phases_and_commands_pair_up() {
    assert_eq!(MistPhase::Misting.opposite(), MistPhase::Idle);
    assert_eq!(MistPhase::Idle.opposite(), MistPhase::Misting);
    assert_eq!(MistPhase::Misting.command(), SolenoidCommand::Energize);
    assert_eq!(MistPhase::Idle.command(), SolenoidCommand::Deenergize);
}

#[test]
fn each_error_has_its_message() {
    assert_eq!(SchedulerError::InvalidDuration.message(), "a duration must be longer than zero");
    assert_eq!(
        SchedulerError::ConfigLocked.message(),
        "the durations cannot be changed while the timer runs"
    );
    assert_eq!(SchedulerError::NonMonotonicTime.message(), "the clock went backwards");
    assert_eq!(
        SchedulerError::DriverError(DriverFault { code: 1 }).message(),
        "the solenoid driver failed to carry out a command"
    );
}

#[test]
fn a_driver_reply_becomes_the_operation_outcome() {
    assert_eq!(SchedulerError::driver_outcome(Ok(())), Ok(()));
    assert_eq!(
        SchedulerError::driver_outcome(Err(DriverFault { code: 42 })),
        Err(SchedulerError::DriverError(DriverFault { code: 42 }))
    );
}

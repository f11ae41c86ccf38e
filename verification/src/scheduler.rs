//! The scheduler itself: the single authority on whether the valve is open.
//!
//! It performs no I/O. Each operation takes the clock reading it needs as an
//! argument and hands back the command, if any, that the caller is to give
//! the solenoid driver. The new state is in place before the command is
//! handed out, so a driver that fails cannot leave the scheduler behind.

use vstd::prelude::*;
use crate::config::{default_config, MistConfig};
use crate::error::SchedulerError;
use crate::model::{SchedulerView, TimerView};
use crate::phase::{MistPhase, SolenoidCommand};
use crate::time::{millis_of, Duration, Instant};

verus! {

/// The timer: off, or in a phase of the cycle.
#[derive(Clone, Copy, Debug, PartialEq, Eq, Structural)]
pub enum TimerState {
    /// Automatic cycling is off and the valve is closed.
    Disabled,
    /// Automatic cycling is on.
    Running {
        /// The phase the cycle is in.
        phase: MistPhase,
        /// The clock reading at which that phase began.
        phase_started_at: Instant,
    },
}

impl View for TimerState {
    type V = TimerView;

    open spec fn view(&self) -> TimerView {
        match *self {
            TimerState::Disabled => TimerView::Disabled,
            TimerState::Running { phase, phase_started_at } => TimerView::Running {
                phase,
                since: phase_started_at@,
            },
        }
    }
}

/// A snapshot of what the scheduler holds: its configuration and its timer.
#[derive(Clone, Copy, Debug, PartialEq, Eq, Structural)]
pub struct SchedulerState {
    /// The configured durations.
    pub config: MistConfig,
    /// The timer.
    pub timer: TimerState,
}

/// The mist-cycle scheduler.
#[derive(Clone, Copy, Debug, PartialEq, Eq, Structural)]
pub struct MistScheduler {
    state: SchedulerState,
    latest: Instant,
}

impl View for MistScheduler {
    type V = SchedulerView;

    closed spec fn view(&self) -> SchedulerView {
        SchedulerView {
            config: self.state.config@,
            timer: self.state.timer@,
            latest: self.latest@,
        }
    }
}

impl MistScheduler {
    #[verifier::type_invariant]
    spec fn inv(self) -> bool {
        self@.wf()
    }

    /// A scheduler with the default durations and the timer off.
    pub fn new() -> (scheduler: MistScheduler)
        ensures
            scheduler@ == SchedulerView::initial(default_config()),
            scheduler@.wf(),
    {
        MistScheduler::with_config(MistConfig::default())
    }

    /// A scheduler with the durations of `config`. The timer is off whatever
    /// `config` was saved from: a scheduler never comes up in mid-cycle.
    pub fn with_config(config: MistConfig) -> (scheduler: MistScheduler)
        ensures
            scheduler@ == SchedulerView::initial(config@),
            scheduler@.wf(),
    {
        proof {
            use_type_invariant(&config);
        }
        MistScheduler {
            state: SchedulerState { config, timer: TimerState::Disabled },
            latest: Instant::from_millis(0),
        }
    }

    /// Turns the timer on, with the clock at `now`. A stopped timer begins
    /// its cycle in the idle phase, so the plants are not soaked before an
    /// operator has seen the status, and the valve is closed to match. The
    /// cycle is measured from `now`, which is the latest reading from then
    /// on, whatever was read while the timer was off. A running timer is
    /// left as it is and nothing is issued.
    pub fn start(&mut self, now: Instant) -> (command: Option<SolenoidCommand>)
        ensures
            final(self)@ == old(self)@.start(now@),
            command == old(self)@.start_command(),
            old(self)@.running() ==> *final(self) == *old(self),
            final(self)@.wf(),
    {
        proof {
            use_type_invariant(&*self);
        }
        match self.state.timer {
            TimerState::Disabled => {
                *self = MistScheduler {
                    state: SchedulerState {
                        config: self.state.config,
                        timer: TimerState::Running {
                            phase: MistPhase::Idle,
                            phase_started_at: now,
                        },
                    },
                    latest: now,
                };
                Some(SolenoidCommand::Deenergize)
            },
            TimerState::Running { .. } => None,
        }
    }

    /// Turns the timer off, whatever it was doing, and has the valve closed.
    /// The caller is to have the operator's consent before it calls this.
    pub fn stop(&mut self) -> (command: SolenoidCommand)
        ensures
            final(self)@ == old(self)@.stop(),
            command == SolenoidCommand::Deenergize,
            final(self)@.timer is Disabled,
            forall|now: nat| final(self)@.remaining(now) is None,
            !old(self)@.running() ==> *final(self) == *old(self),
            final(self)@.wf(),
    {
        proof {
            use_type_invariant(&*self);
        }
        *self = MistScheduler {
            state: SchedulerState { config: self.state.config, timer: TimerState::Disabled },
            latest: self.latest,
        };
        SolenoidCommand::Deenergize
    }

    /// Sets how long the valve stays open. A zero duration is refused with
    /// `InvalidDuration`; any other is refused with `ConfigLocked` while the
    /// timer runs, so that no phase an operator relies on is cut short.
    pub fn set_on_duration(&mut self, d: Duration) -> (r: Result<(), SchedulerError>)
        ensures
            r == old(self)@.set_result(d@),
            final(self)@ == old(self)@.set_on(d@),
            r is Err ==> *final(self) == *old(self),
            final(self)@.wf(),
    {
        proof {
            use_type_invariant(&*self);
        }
        if d.is_zero() {
            return Err(SchedulerError::InvalidDuration);
        }
        match self.state.timer {
            TimerState::Running { .. } => Err(SchedulerError::ConfigLocked),
            TimerState::Disabled => {
                match MistConfig::new(d, self.state.config.off_duration()) {
                    Ok(config) => {
                        *self = MistScheduler {
                            state: SchedulerState { config, timer: TimerState::Disabled },
                            latest: self.latest,
                        };
                        Ok(())
                    },
                    Err(e) => Err(e),
                }
            },
        }
    }

    /// Sets how long the valve stays closed between two mists. A zero
    /// duration is refused with `InvalidDuration`; any other is refused with
    /// `ConfigLocked` while the timer runs.
    pub fn set_off_duration(&mut self, d: Duration) -> (r: Result<(), SchedulerError>)
        ensures
            r == old(self)@.set_result(d@),
            final(self)@ == old(self)@.set_off(d@),
            r is Err ==> *final(self) == *old(self),
            final(self)@.wf(),
    {
        proof {
            use_type_invariant(&*self);
        }
        if d.is_zero() {
            return Err(SchedulerError::InvalidDuration);
        }
        match self.state.timer {
            TimerState::Running { .. } => Err(SchedulerError::ConfigLocked),
            TimerState::Disabled => {
                match MistConfig::new(self.state.config.on_duration(), d) {
                    Ok(config) => {
                        *self = MistScheduler {
                            state: SchedulerState { config, timer: TimerState::Disabled },
                            latest: self.latest,
                        };
                        Ok(())
                    },
                    Err(e) => Err(e),
                }
            },
        }
    }

    /// Takes in the clock reading `now`. A reading before the latest one is
    /// refused with `NonMonotonicTime` and changes nothing. Otherwise, where
    /// the running phase has lasted its configured length, the opposite
    /// phase begins at `now` and its command is handed back. At most one
    /// phase changes per call, however late the reading comes: what the
    /// reading overshot is not made up for.
    pub fn tick(&mut self, now: Instant) -> (r: Result<Option<SolenoidCommand>, SchedulerError>)
        ensures
            r == old(self)@.tick_result(now@),
            final(self)@ == old(self)@.tick(now@),
            r is Err ==> *final(self) == *old(self),
            final(self)@.wf(),
    {
        proof {
            use_type_invariant(&*self);
        }
        if now.is_before(self.latest) {
            return Err(SchedulerError::NonMonotonicTime);
        }
        match self.state.timer {
            TimerState::Disabled => {
                *self = MistScheduler { state: self.state, latest: now };
                Ok(None)
            },
            TimerState::Running { phase, phase_started_at } => {
                let elapsed = now.since(phase_started_at);
                let length = self.state.config.duration_of(phase);
                if elapsed.as_millis() >= length.as_millis() {
                    let next = phase.opposite();
                    *self = MistScheduler {
                        state: SchedulerState {
                            config: self.state.config,
                            timer: TimerState::Running { phase: next, phase_started_at: now },
                        },
                        latest: now,
                    };
                    Ok(Some(next.command()))
                } else {
                    *self = MistScheduler { state: self.state, latest: now };
                    Ok(None)
                }
            },
        }
    }

    /// The time left in the running phase at `now`, and nothing while the
    /// timer is off. The answer never exceeds the phase's configured length
    /// and stays at zero once the phase is overdue, so it can be shown even
    /// where no `tick` came before it.
    pub fn time_remaining(&self, now: Instant) -> (left: Option<Duration>)
        ensures
            millis_of(left) == self@.remaining(now@),
            left is Some <==> self@.running(),
            left matches Some(d) ==> self@.timer matches TimerView::Running { phase, .. }
                && d@ <= self@.config.duration_of(phase),
    {
        match self.state.timer {
            TimerState::Disabled => None,
            TimerState::Running { phase, phase_started_at } => {
                let elapsed = now.since(phase_started_at);
                Some(self.state.config.duration_of(phase).saturating_sub(elapsed))
            },
        }
    }

    /// The phase, or nothing while the timer is off, together with the timer.
    pub fn status(&self) -> (status: (Option<MistPhase>, TimerState))
        ensures
            status.0 == self@.phase(),
            status.1@ == self@.timer,
    {
        match self.state.timer {
            TimerState::Disabled => (None, self.state.timer),
            TimerState::Running { phase, .. } => (Some(phase), self.state.timer),
        }
    }

    /// The position the valve is to be in: open while a misting phase runs,
    /// closed otherwise. A caller whose driver failed can send this again.
    pub fn solenoid(&self) -> (command: SolenoidCommand)
        ensures
            command == (match self@.phase() {
                Some(phase) => phase.spec_command(),
                None => SolenoidCommand::Deenergize,
            }),
    {
        match self.state.timer {
            TimerState::Disabled => SolenoidCommand::Deenergize,
            TimerState::Running { phase, .. } => phase.command(),
        }
    }

    /// Whether the timer is running.
    pub fn is_running(&self) -> (running: bool)
        ensures
            running == self@.running(),
    {
        match self.state.timer {
            TimerState::Disabled => false,
            TimerState::Running { .. } => true,
        }
    }

    /// The configured durations.
    pub fn config(&self) -> (config: MistConfig)
        ensures
            config@ == self@.config,
    {
        self.state.config
    }

    /// A snapshot of the configuration and the timer.
    pub fn state(&self) -> (state: SchedulerState)
        ensures
            state.config@ == self@.config,
            state.timer@ == self@.timer,
    {
        self.state
    }
}

impl Default for MistScheduler {
    /// The scheduler that `new` gives.
    fn default() -> (scheduler: MistScheduler)
        ensures
            scheduler@ == SchedulerView::initial(default_config()),
    {
        MistScheduler::new()
    }
}

} // verus!

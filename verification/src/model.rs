//! The scheduler as mathematics: its state over natural numbers, and each
//! operation as a function from one state to the next.
//!
//! The executable scheduler's contracts are written over this model, and the
//! laws of the cycle are proved of it.

use vstd::prelude::*;
use crate::error::SchedulerError;
use crate::phase::{MistPhase, SolenoidCommand};
use crate::time::{elapsed_between, left_of};

verus! {

/// The two durations of a cycle, in milliseconds.
pub struct ConfigView {
    /// How long the valve stays open.
    pub on: nat,
    /// How long the valve stays closed between two mists.
    pub off: nat,
}

impl ConfigView {
    /// Both durations are positive.
    pub open spec fn wf(self) -> bool {
        self.on > 0 && self.off > 0
    }

    /// How long `phase` lasts.
    pub open spec fn duration_of(self, phase: MistPhase) -> nat {
        match phase {
            MistPhase::Misting => self.on,
            MistPhase::Idle => self.off,
        }
    }
}

/// The timer: off, or in a phase that began at the reading `since`.
pub enum TimerView {
    /// Automatic cycling is off and the valve is closed.
    Disabled,
    /// Automatic cycling is on.
    Running { phase: MistPhase, since: nat },
}

/// The whole scheduler.
pub struct SchedulerView {
    /// The configured durations.
    pub config: ConfigView,
    /// The timer.
    pub timer: TimerView,
    /// The latest clock reading that was accepted; zero before the first.
    pub latest: nat,
}

impl SchedulerView {
    /// The scheduler as it is created: timer off, no reading seen.
    pub open spec fn initial(config: ConfigView) -> SchedulerView {
        SchedulerView { config, timer: TimerView::Disabled, latest: 0 }
    }

    /// What always holds of a scheduler: the durations are positive, and a
    /// running phase began no later than the latest reading and had not yet
    /// run its full length at that reading.
    pub open spec fn wf(self) -> bool {
        &&& self.config.wf()
        &&& self.timer matches TimerView::Running { phase, since } ==> {
            &&& since <= self.latest
            &&& self.latest - since < self.config.duration_of(phase)
        }
    }

    /// Whether the timer is running.
    pub open spec fn running(self) -> bool {
        self.timer is Running
    }

    /// The phase, while the timer is running.
    pub open spec fn phase(self) -> Option<MistPhase> {
        match self.timer {
            TimerView::Disabled => None,
            TimerView::Running { phase, .. } => Some(phase),
        }
    }

    /// The state after `start` with the clock at `now`: a stopped timer
    /// begins its cycle idle, a running one is left alone.
    pub open spec fn start(self, now: nat) -> SchedulerView {
        match self.timer {
            TimerView::Disabled => SchedulerView {
                timer: TimerView::Running { phase: MistPhase::Idle, since: now },
                latest: now,
                ..self
            },
            TimerView::Running { .. } => self,
        }
    }

    /// The command that `start` issues: the valve is closed when the timer
    /// comes on, and nothing is sent when it was on already.
    pub open spec fn start_command(self) -> Option<SolenoidCommand> {
        match self.timer {
            TimerView::Disabled => Some(SolenoidCommand::Deenergize),
            TimerView::Running { .. } => None,
        }
    }

    /// The state after `stop`.
    pub open spec fn stop(self) -> SchedulerView {
        SchedulerView { timer: TimerView::Disabled, ..self }
    }

    /// What a change of a duration to `d` milliseconds answers.
    pub open spec fn set_result(self, d: nat) -> Result<(), SchedulerError> {
        if d == 0 {
            Err(SchedulerError::InvalidDuration)
        } else if self.running() {
            Err(SchedulerError::ConfigLocked)
        } else {
            Ok(())
        }
    }

    /// The state after the on-duration was to be set to `d` milliseconds.
    pub open spec fn set_on(self, d: nat) -> SchedulerView {
        if self.set_result(d) is Ok {
            SchedulerView { config: ConfigView { on: d, ..self.config }, ..self }
        } else {
            self
        }
    }

    /// The state after the off-duration was to be set to `d` milliseconds.
    pub open spec fn set_off(self, d: nat) -> SchedulerView {
        if self.set_result(d) is Ok {
            SchedulerView { config: ConfigView { off: d, ..self.config }, ..self }
        } else {
            self
        }
    }

    /// Whether the running phase has lasted its full length at `now`.
    pub open spec fn due(self, now: nat) -> bool {
        self.timer matches TimerView::Running { phase, since }
            && elapsed_between(since, now) >= self.config.duration_of(phase)
    }

    /// The state after `tick` with the clock at `now`. A reading before the
    /// latest one changes nothing. Any other reading becomes the latest, and
    /// a phase that is due gives way to the opposite phase, which begins at
    /// `now`: one change at most, however late the reading comes.
    pub open spec fn tick(self, now: nat) -> SchedulerView {
        if now < self.latest {
            self
        } else {
            match self.timer {
                TimerView::Disabled => SchedulerView { latest: now, ..self },
                TimerView::Running { phase, since } => if self.due(now) {
                    SchedulerView {
                        timer: TimerView::Running { phase: phase.spec_opposite(), since: now },
                        latest: now,
                        ..self
                    }
                } else {
                    SchedulerView { latest: now, ..self }
                },
            }
        }
    }

    /// What `tick` answers with the clock at `now`: the error for a reading
    /// that went backwards, the command for the phase just entered, or
    /// nothing where no phase changed.
    pub open spec fn tick_result(self, now: nat) -> Result<
        Option<SolenoidCommand>,
        SchedulerError,
    > {
        if now < self.latest {
            Err(SchedulerError::NonMonotonicTime)
        } else {
            match self.timer {
                TimerView::Disabled => Ok(None),
                TimerView::Running { phase, since } => if self.due(now) {
                    Ok(Some(phase.spec_opposite().spec_command()))
                } else {
                    Ok(None)
                },
            }
        }
    }

    /// The time left in the running phase at `now`, never below zero and
    /// never above the phase's length; nothing while the timer is off.
    pub open spec fn remaining(self, now: nat) -> Option<nat> {
        match self.timer {
            TimerView::Disabled => None,
            TimerView::Running { phase, since } => Some(
                left_of(self.config.duration_of(phase), elapsed_between(since, now)),
            ),
        }
    }
}

} // verus!

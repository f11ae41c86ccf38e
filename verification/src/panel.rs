//! The operator's side of the scheduler: what each press on the control
//! panel does, and what the panel is to show.
//!
//! The panel draws nothing itself. The program that owns the window reports
//! what happened as a [`PanelEvent`], carries out the command that comes
//! back, and paints what [`ControlPanel::display`] tells it to. Two rules
//! live here. The timer is turned off only by a confirmation that answers a
//! press on "turn off", because plants die quickly without mist. And the
//! durations stay within the policy limits, whatever the sliders report.

use vstd::prelude::*;
use crate::config::{clamped_to_policy, within_policy, MistConfig};
use crate::config::{OFF_MAX_MS, OFF_MIN_MS, ON_MAX_MS, ON_MIN_MS};
use crate::error::SchedulerError;
use crate::model::SchedulerView;
use crate::phase::{MistPhase, SolenoidCommand};
use crate::scheduler::MistScheduler;
use crate::time::{clamped, Countdown, Duration, Instant};

verus! {

/// What the operator, or the passing of time, did to the panel.
#[derive(Clone, Copy, Debug, PartialEq, Eq, Structural)]
pub enum PanelEvent {
    /// A frame is being drawn: the clock has moved on.
    Frame,
    /// "Turn on" was pressed.
    TurnOnPressed,
    /// "Turn off" was pressed; the operator is yet to confirm.
    TurnOffPressed,
    /// The operator confirmed that the timer is to be turned off.
    TurnOffConfirmed,
    /// The operator backed out of turning the timer off.
    TurnOffCancelled,
    /// The on-time slider was moved to this duration.
    OnDurationEdited(Duration),
    /// The off-time slider was moved to this duration.
    OffDurationEdited(Duration),
}

/// The panel as mathematics: the scheduler, and whether the question
/// "really turn off?" is open.
pub struct PanelView {
    /// The scheduler behind the panel.
    pub scheduler: SchedulerView,
    /// Whether the operator has been asked to confirm turning off.
    pub confirming: bool,
}

impl PanelView {
    /// What always holds of a panel: its scheduler is well-formed and its
    /// durations lie within the policy limits.
    pub open spec fn wf(self) -> bool {
        self.scheduler.wf() && within_policy(self.scheduler.config)
    }

    /// The panel as it opens on `config`: timer off, nothing to confirm,
    /// durations pulled into the policy limits.
    pub open spec fn initial(config: crate::model::ConfigView) -> PanelView {
        PanelView {
            scheduler: SchedulerView::initial(clamped_to_policy(config)),
            confirming: false,
        }
    }

    /// The on-duration that a slider report of `d` milliseconds stands for.
    pub open spec fn on_within_policy(d: nat) -> nat {
        clamped(d, ON_MIN_MS as nat, ON_MAX_MS as nat)
    }

    /// The off-duration that a slider report of `d` milliseconds stands for.
    pub open spec fn off_within_policy(d: nat) -> nat {
        clamped(d, OFF_MIN_MS as nat, OFF_MAX_MS as nat)
    }

    /// The panel after `event`, with the clock at `now`.
    pub open spec fn handle(self, event: PanelEvent, now: nat) -> PanelView {
        match event {
            PanelEvent::Frame => PanelView { scheduler: self.scheduler.tick(now), ..self },
            PanelEvent::TurnOnPressed => PanelView { scheduler: self.scheduler.start(now), ..self },
            PanelEvent::TurnOffPressed => PanelView { confirming: true, ..self },
            PanelEvent::TurnOffConfirmed => if self.confirming {
                PanelView { scheduler: self.scheduler.stop(), confirming: false }
            } else {
                self
            },
            PanelEvent::TurnOffCancelled => PanelView { confirming: false, ..self },
            PanelEvent::OnDurationEdited(d) => PanelView {
                scheduler: self.scheduler.set_on(Self::on_within_policy(d@)),
                ..self
            },
            PanelEvent::OffDurationEdited(d) => PanelView {
                scheduler: self.scheduler.set_off(Self::off_within_policy(d@)),
                ..self
            },
        }
    }

    /// What the panel answers to `event`, with the clock at `now`: the
    /// command for the solenoid driver, if the event calls for one, or the
    /// scheduler's error.
    pub open spec fn outcome(self, event: PanelEvent, now: nat) -> Result<
        Option<SolenoidCommand>,
        SchedulerError,
    > {
        match event {
            PanelEvent::Frame => self.scheduler.tick_result(now),
            PanelEvent::TurnOnPressed => Ok(self.scheduler.start_command()),
            PanelEvent::TurnOffPressed => Ok(None),
            PanelEvent::TurnOffConfirmed => if self.confirming {
                Ok(Some(SolenoidCommand::Deenergize))
            } else {
                Ok(None)
            },
            PanelEvent::TurnOffCancelled => Ok(None),
            PanelEvent::OnDurationEdited(d) => match self.scheduler.set_result(
                Self::on_within_policy(d@),
            ) {
                Ok(_) => Ok(None),
                Err(e) => Err(e),
            },
            PanelEvent::OffDurationEdited(d) => match self.scheduler.set_result(
                Self::off_within_policy(d@),
            ) {
                Ok(_) => Ok(None),
                Err(e) => Err(e),
            },
        }
    }
}

/// What the panel is to show.
#[derive(Clone, Copy, Debug, PartialEq, Eq, Structural)]
pub struct PanelDisplay {
    /// Whether the misters are on.
    pub misting: bool,
    /// The phase that the countdown runs towards.
    pub next_phase: MistPhase,
    /// The time until that phase, while the timer is on.
    pub countdown: Option<Countdown>,
    /// Whether the timer is on.
    pub timer_on: bool,
    /// Whether the duration sliders respond: only while the timer is off.
    pub durations_editable: bool,
    /// Whether the question "really turn off?" is open.
    pub confirm_open: bool,
}

/// The control panel: a scheduler and the confirmation that guards its
/// `stop`.
#[derive(Clone, Copy, Debug, PartialEq, Eq, Structural)]
pub struct ControlPanel {
    scheduler: MistScheduler,
    confirming: bool,
}

impl View for ControlPanel {
    type V = PanelView;

    closed spec fn view(&self) -> PanelView {
        PanelView { scheduler: self.scheduler@, confirming: self.confirming }
    }
}

impl ControlPanel {
    #[verifier::type_invariant]
    spec fn inv(self) -> bool {
        self@.wf()
    }

    /// A panel on the durations of `config`, each pulled into the policy
    /// limits. The timer is off and nothing waits to be confirmed.
    pub fn new(config: MistConfig) -> (panel: ControlPanel)
        ensures
            panel@ == PanelView::initial(config@),
            panel@.wf(),
    {
        ControlPanel {
            scheduler: MistScheduler::with_config(config.clamped_to_policy()),
            confirming: false,
        }
    }

    /// Takes in `event` with the clock at `now`, and hands back the command
    /// that the caller is to give the solenoid driver, if any.
    ///
    /// A frame ticks the scheduler. "Turn on" starts it. "Turn off" only
    /// opens the question; the timer stops when the operator confirms, and
    /// a confirmation that answers no question is ignored. A slider report
    /// is pulled into the policy limits and then set, which the scheduler
    /// refuses with `ConfigLocked` while the timer runs.
    pub fn handle(&mut self, event: PanelEvent, now: Instant) -> (r: Result<
        Option<SolenoidCommand>,
        SchedulerError,
    >)
        ensures
            r == old(self)@.outcome(event, now@),
            final(self)@ == old(self)@.handle(event, now@),
            r is Err ==> *final(self) == *old(self),
            final(self)@.wf(),
    {
        proof {
            use_type_invariant(&*self);
        }
        let mut scheduler = self.scheduler;
        let mut confirming = self.confirming;
        let r = match event {
            PanelEvent::Frame => scheduler.tick(now),
            PanelEvent::TurnOnPressed => Ok(scheduler.start(now)),
            PanelEvent::TurnOffPressed => {
                confirming = true;
                Ok(None)
            },
            PanelEvent::TurnOffConfirmed => {
                if confirming {
                    confirming = false;
                    Ok(Some(scheduler.stop()))
                } else {
                    Ok(None)
                }
            },
            PanelEvent::TurnOffCancelled => {
                confirming = false;
                Ok(None)
            },
            PanelEvent::OnDurationEdited(d) => {
                let d = d.clamp_to(
                    Duration::from_millis(ON_MIN_MS),
                    Duration::from_millis(ON_MAX_MS),
                );
                match scheduler.set_on_duration(d) {
                    Ok(_) => Ok(None),
                    Err(e) => Err(e),
                }
            },
            PanelEvent::OffDurationEdited(d) => {
                let d = d.clamp_to(
                    Duration::from_millis(OFF_MIN_MS),
                    Duration::from_millis(OFF_MAX_MS),
                );
                match scheduler.set_off_duration(d) {
                    Ok(_) => Ok(None),
                    Err(e) => Err(e),
                }
            },
        };
        *self = ControlPanel { scheduler, confirming };
        r
    }

    /// What the panel is to show with the clock at `now`.
    pub fn display(&self, now: Instant) -> (shown: PanelDisplay)
        ensures
            shown.misting <==> self@.scheduler.phase() == Some(MistPhase::Misting),
            shown.next_phase == (if shown.misting {
                MistPhase::Idle
            } else {
                MistPhase::Misting
            }),
            shown.timer_on == self@.scheduler.running(),
            shown.durations_editable == !self@.scheduler.running(),
            shown.confirm_open == self@.confirming,
            shown.countdown is Some <==> self@.scheduler.running(),
            shown.countdown matches Some(c) ==> {
                &&& self@.scheduler.remaining(now@) matches Some(left)
                &&& c.minutes == Countdown::minutes_in(left)
                &&& c.seconds == Countdown::seconds_in(left)
            },
    {
        let misting = match self.scheduler.solenoid() {
            SolenoidCommand::Energize => true,
            SolenoidCommand::Deenergize => false,
        };
        let timer_on = self.scheduler.is_running();
        let countdown = match self.scheduler.time_remaining(now) {
            Some(left) => Some(Countdown::of(left)),
            None => None,
        };
        PanelDisplay {
            misting,
            next_phase: if misting {
                MistPhase::Idle
            } else {
                MistPhase::Misting
            },
            countdown,
            timer_on,
            durations_editable: !timer_on,
            confirm_open: self.confirming,
        }
    }

    /// The scheduler behind the panel, as it stands.
    pub fn scheduler(&self) -> (scheduler: MistScheduler)
        ensures
            scheduler@ == self@.scheduler,
    {
        self.scheduler
    }

    /// The durations to save when the program shuts down. The timer's state
    /// is not for saving: a panel always opens with the timer off.
    pub fn config(&self) -> (config: MistConfig)
        ensures
            config@ == self@.scheduler.config,
            within_policy(config@),
    {
        proof {
            use_type_invariant(self);
        }
        self.scheduler.config()
    }
}

} // verus!

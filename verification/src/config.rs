//! The configured durations of a cycle, and the limits that a control panel
//! keeps them within.

use vstd::prelude::*;
use crate::error::SchedulerError;
use crate::model::ConfigView;
use crate::phase::MistPhase;
use crate::time::{clamped, Duration};

verus! {

/// The shortest on-duration that policy allows, in milliseconds.
pub const ON_MIN_MS: u64 = 1_000;

/// The longest on-duration that policy allows, in milliseconds.
pub const ON_MAX_MS: u64 = 10_000;

/// The shortest off-duration that policy allows, in milliseconds.
pub const OFF_MIN_MS: u64 = 60_000;

/// The longest off-duration that policy allows, in milliseconds.
pub const OFF_MAX_MS: u64 = 300_000;

/// The on-duration of a fresh configuration, in milliseconds.
pub const ON_DEFAULT_MS: u64 = 3_000;

/// The off-duration of a fresh configuration, in milliseconds.
pub const OFF_DEFAULT_MS: u64 = 180_000;

/// The durations of a fresh configuration.
pub open spec fn default_config() -> ConfigView {
    ConfigView { on: ON_DEFAULT_MS as nat, off: OFF_DEFAULT_MS as nat }
}

/// Whether both durations lie within the policy limits.
pub open spec fn within_policy(config: ConfigView) -> bool {
    &&& ON_MIN_MS <= config.on <= ON_MAX_MS
    &&& OFF_MIN_MS <= config.off <= OFF_MAX_MS
}

/// `config` with each duration pulled into its policy limits.
pub open spec fn clamped_to_policy(config: ConfigView) -> ConfigView {
    ConfigView {
        on: clamped(config.on, ON_MIN_MS as nat, ON_MAX_MS as nat),
        off: clamped(config.off, OFF_MIN_MS as nat, OFF_MAX_MS as nat),
    }
}

/// How long the valve stays open and how long it stays closed. Both
/// durations are positive; the policy limits are not part of the type, so
/// that a scheduler can be driven with durations outside a panel's sliders.
#[derive(Clone, Copy, Debug, PartialEq, Eq, Structural)]
pub struct MistConfig {
    on_duration: Duration,
    off_duration: Duration,
}

impl View for MistConfig {
    type V = ConfigView;

    closed spec fn view(&self) -> ConfigView {
        ConfigView { on: self.on_duration@, off: self.off_duration@ }
    }
}

impl MistConfig {
    #[verifier::type_invariant]
    pub(crate) open spec fn positive(self) -> bool {
        self@.wf()
    }

    /// A configuration of the two durations, refused with `InvalidDuration`
    /// where either is zero.
    pub fn new(on_duration: Duration, off_duration: Duration) -> (r: Result<
        MistConfig,
        SchedulerError,
    >)
        ensures
            r is Ok <==> on_duration@ > 0 && off_duration@ > 0,
            r matches Ok(config) ==> config@ == (ConfigView {
                on: on_duration@,
                off: off_duration@,
            }),
            r matches Err(e) ==> e == SchedulerError::InvalidDuration,
    {
        if on_duration.is_zero() || off_duration.is_zero() {
            Err(SchedulerError::InvalidDuration)
        } else {
            Ok(MistConfig { on_duration, off_duration })
        }
    }

    /// How long the valve stays open.
    pub fn on_duration(&self) -> (d: Duration)
        ensures
            d@ == self@.on,
            d@ > 0,
    {
        proof {
            use_type_invariant(self);
        }
        self.on_duration
    }

    /// How long the valve stays closed between two mists.
    pub fn off_duration(&self) -> (d: Duration)
        ensures
            d@ == self@.off,
            d@ > 0,
    {
        proof {
            use_type_invariant(self);
        }
        self.off_duration
    }

    /// How long `phase` lasts.
    pub fn duration_of(&self, phase: MistPhase) -> (d: Duration)
        ensures
            d@ == self@.duration_of(phase),
            d@ > 0,
    {
        proof {
            use_type_invariant(self);
        }
        match phase {
            MistPhase::Misting => self.on_duration,
            MistPhase::Idle => self.off_duration,
        }
    }

    /// Whether both durations lie within the policy limits.
    pub fn within_policy(&self) -> (within: bool)
        ensures
            within == within_policy(self@),
    {
        let on: u64 = self.on_duration.as_millis();
        let off: u64 = self.off_duration.as_millis();
        ON_MIN_MS <= on && on <= ON_MAX_MS && OFF_MIN_MS <= off && off <= OFF_MAX_MS
    }

    /// This configuration with each duration pulled into its policy limits.
    pub fn clamped_to_policy(self) -> (config: MistConfig)
        ensures
            config@ == clamped_to_policy(self@),
            within_policy(config@),
            within_policy(self@) ==> config@ == self@,
    {
        MistConfig {
            on_duration: self.on_duration.clamp_to(
                Duration::from_millis(ON_MIN_MS),
                Duration::from_millis(ON_MAX_MS),
            ),
            off_duration: self.off_duration.clamp_to(
                Duration::from_millis(OFF_MIN_MS),
                Duration::from_millis(OFF_MAX_MS),
            ),
        }
    }
}

impl Default for MistConfig {
    /// Three seconds on, three minutes off.
    fn default() -> (config: MistConfig)
        ensures
            config@ == default_config(),
            within_policy(config@),
    {
        MistConfig {
            on_duration: Duration::from_millis(ON_DEFAULT_MS),
            off_duration: Duration::from_millis(OFF_DEFAULT_MS),
        }
    }
}

} // verus!

//! What can go wrong, and how a driver's fault reaches the caller.

use vstd::prelude::*;
use vstd::std_specs::convert::FromSpecImpl;

verus! {

/// What the solenoid driver reported when a command failed.
#[derive(Clone, Copy, Debug, PartialEq, Eq, Structural)]
pub struct DriverFault {
    /// The driver's own code for the fault.
    pub code: u32,
}

/// The errors of the scheduler. None of them leaves the scheduler in a
/// half-changed state, and the caller can go on after each.
#[derive(Clone, Copy, Debug, PartialEq, Eq, Structural)]
pub enum SchedulerError {
    /// A duration of zero was supplied.
    InvalidDuration,
    /// A duration was to be changed while the timer was running.
    ConfigLocked,
    /// A clock reading lay before the one the scheduler saw last.
    NonMonotonicTime,
    /// The solenoid driver failed to carry out a command. The phase change
    /// that issued the command stands all the same.
    DriverError(DriverFault),
}

impl SchedulerError {
    /// What to tell the operator about an error of this kind.
    pub open spec fn spec_message(self) -> Seq<char> {
        match self {
            SchedulerError::InvalidDuration => "a duration must be longer than zero"@,
            SchedulerError::ConfigLocked => "the durations cannot be changed while the timer runs"@,
            SchedulerError::NonMonotonicTime => "the clock went backwards"@,
            SchedulerError::DriverError(_) => "the solenoid driver failed to carry out a command"@,
        }
    }

    /// What to tell the operator about this error.
    pub fn message(&self) -> (text: &'static str)
        ensures
            text@ == self.spec_message(),
    {
        match self {
            SchedulerError::InvalidDuration => "a duration must be longer than zero",
            SchedulerError::ConfigLocked => "the durations cannot be changed while the timer runs",
            SchedulerError::NonMonotonicTime => "the clock went backwards",
            SchedulerError::DriverError(_) => "the solenoid driver failed to carry out a command",
        }
    }

    /// What an operation reports once the driver has answered the command
    /// that the operation issued. A fault is never swallowed: it comes back
    /// as a `DriverError` that holds it. The scheduler's state is not
    /// touched either way; the phase it has entered stands.
    pub fn driver_outcome(reply: Result<(), DriverFault>) -> (r: Result<(), SchedulerError>)
        ensures
            r == (match reply {
                Ok(_) => Ok::<(), SchedulerError>(()),
                Err(fault) => Err(SchedulerError::DriverError(fault)),
            }),
    {
        match reply {
            Ok(_) => Ok(()),
            Err(fault) => Err(SchedulerError::DriverError(fault)),
        }
    }
}

impl From<DriverFault> for SchedulerError {
    /// Wraps the driver's fault; nothing of it is dropped.
    fn from(fault: DriverFault) -> (e: SchedulerError) {
        SchedulerError::DriverError(fault)
    }
}

impl FromSpecImpl<DriverFault> for SchedulerError {
    open spec fn obeys_from_spec() -> bool {
        true
    }

    open spec fn from_spec(fault: DriverFault) -> SchedulerError {
        SchedulerError::DriverError(fault)
    }
}

} // verus!

//! The two phases of a mist cycle and the solenoid commands that go with them.

use vstd::prelude::*;

verus! {

/// What the caller is to tell the solenoid driver.
#[derive(Clone, Copy, Debug, PartialEq, Eq, Structural)]
pub enum SolenoidCommand {
    /// Open the valve: the misters run.
    Energize,
    /// Close the valve.
    Deenergize,
}

/// The phase of a running mist cycle.
#[derive(Clone, Copy, Debug, PartialEq, Eq, Structural)]
pub enum MistPhase {
    /// The valve is open.
    Misting,
    /// The valve is closed between two mists.
    Idle,
}

impl MistPhase {
    /// The phase that follows this one in the cycle.
    pub open spec fn spec_opposite(self) -> MistPhase {
        match self {
            MistPhase::Misting => MistPhase::Idle,
            MistPhase::Idle => MistPhase::Misting,
        }
    }

    /// The command that puts the valve in the position this phase calls for.
    pub open spec fn spec_command(self) -> SolenoidCommand {
        match self {
            MistPhase::Misting => SolenoidCommand::Energize,
            MistPhase::Idle => SolenoidCommand::Deenergize,
        }
    }

    /// The phase that follows this one in the cycle.
    #[verifier::when_used_as_spec(spec_opposite)]
    pub fn opposite(self) -> (next: MistPhase)
        ensures
            next == self.spec_opposite(),
    {
        match self {
            MistPhase::Misting => MistPhase::Idle,
            MistPhase::Idle => MistPhase::Misting,
        }
    }

    /// The command that puts the valve in the position this phase calls for.
    #[verifier::when_used_as_spec(spec_command)]
    pub fn command(self) -> (command: SolenoidCommand)
        ensures
            command == self.spec_command(),
    {
        match self {
            MistPhase::Misting => SolenoidCommand::Energize,
            MistPhase::Idle => SolenoidCommand::Deenergize,
        }
    }
}

} // verus!

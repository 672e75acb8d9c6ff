//! The bodies of the requests that change the state.

use vstd::prelude::*;
use crate::timer::TimerCommand;

verus! {

/// Asks for the tables to be replaced by `jumlah` new ones.
#[derive(Clone, Copy, Debug, PartialEq, Eq, Structural)]
pub struct GenerateMejaRequest {
    pub jumlah: u32,
}

/// A participant's login with a join code.
#[derive(Clone, Debug, PartialEq, Eq)]
pub struct LoginRequest {
    pub kode: String,
}

/// Asks for the timer to be set to a duration.
#[derive(Clone, Copy, Debug, PartialEq, Eq, Structural)]
pub struct SetTimerRequest {
    pub duration_minutes: i64,
}

/// Asks for the timer to be moved by some seconds.
#[derive(Clone, Copy, Debug, PartialEq, Eq, Structural)]
pub struct AdjustTimerRequest {
    pub seconds: i64,
}

/// Gives the name of the participant at a table.
#[derive(Clone, Debug, PartialEq, Eq)]
pub struct UpdatePesertaRequest {
    pub nama: String,
}

impl SetTimerRequest {
    /// The command that the request stands for.
    pub fn command(&self) -> (r: TimerCommand)
        ensures
            r == TimerCommand::Configure(self.duration_minutes),
    {
        TimerCommand::Configure(self.duration_minutes)
    }
}

impl AdjustTimerRequest {
    /// The command that the request stands for.
    pub fn command(&self) -> (r: TimerCommand)
        ensures
            r == TimerCommand::Adjust(self.seconds),
    {
        TimerCommand::Adjust(self.seconds)
    }
}

} // verus!

//! What the command-line programs decide.
//!
//! Reading arguments, talking to the service and printing stay with the
//! programs; the choices between those steps are made here.

use vstd::prelude::*;

pub mod fetch_closest_appointment_office;
pub mod fetch_procedure_appointments;
pub mod list_offices;
pub mod list_procedures;
pub mod office_info;

verus! {

/// How a command ended.
#[derive(Debug, Clone, Copy, PartialEq, Eq, Structural)]
pub enum ExitCode {
    /// The command did what it was asked for.
    Success,
    /// The arguments name nothing that the command can work on, or the
    /// command failed.
    FaultOrArgsError,
    /// The command ran, and the service had nothing to offer.
    RequestUnsatisfied,
}

/// The status that the process reports for an exit code.
pub open spec fn exit_status(code: ExitCode) -> u8 {
    match code {
        ExitCode::Success => 0,
        ExitCode::FaultOrArgsError => 1,
        ExitCode::RequestUnsatisfied => 2,
    }
}

impl ExitCode {
    /// The status that the process reports.
    pub fn report(self) -> (status: u8)
        ensures
            status == exit_status(self),
    {
        match self {
            ExitCode::Success => 0,
            ExitCode::FaultOrArgsError => 1,
            ExitCode::RequestUnsatisfied => 2,
        }
    }
}

} // verus!

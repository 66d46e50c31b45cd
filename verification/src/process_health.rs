//! Judging whether a freshly started filesystem process came up healthy.
//!
//! Two sources are consulted: the process table, and the output of the
//! platform's status listing, which marks a process that has exited but still
//! occupies a table entry as "defunct".

use vstd::prelude::*;
use crate::text::{contains_text, text_contains};

verus! {

/// The state in which the process table shows a process.
#[derive(Clone, Copy, Debug, PartialEq, Eq, Structural)]
pub enum ProcessState {
    Idle,
    Run,
    Sleep,
    Stop,
    Zombie,
    Tracing,
    Dead,
    Wakekill,
    Waking,
    Parked,
    LockBlocked,
    UninterruptibleDiskSleep,
    Unknown(u32),
}

impl ProcessState {
    /// A state in which the process can no longer serve: dead, zombie or
    /// stopped.
    pub open spec fn is_defunct_spec(self) -> bool {
        self is Dead || self is Zombie || self is Stop
    }

    /// Tests whether the process can no longer serve.
    pub fn is_defunct(&self) -> (defunct: bool)
        ensures
            defunct == self.is_defunct_spec(),
    {
        match self {
            ProcessState::Dead => true,
            ProcessState::Zombie => true,
            ProcessState::Stop => true,
            _ => false,
        }
    }
}

/// The marker that the status listing prints for a process that has exited
/// but was never reaped.
pub open spec fn defunct_marker() -> Seq<char> {
    "defunct"@
}

/// The status listing `output` marks a process as defunct.
pub open spec fn listing_shows_defunct(output: Seq<char>) -> bool {
    contains_text(output, defunct_marker())
}

/// Looks for the defunct marker in the output of the status listing.
pub fn mentions_defunct(output: &str) -> (found: bool)
    ensures
        found == listing_shows_defunct(output@),
{
    text_contains(output, "defunct")
}

/// The process table of this machine.
#[verifier::external_type_specification]
#[verifier::external_body]
pub struct ExSystem(sysinfo::System);

/// The entry of one process in the process table.
#[verifier::external_type_specification]
#[verifier::external_body]
pub struct ExProcess(sysinfo::Process);

/// The id of a process as the process table takes it.
#[verifier::external_type_specification]
#[verifier::external_body]
pub struct ExPid(sysinfo::Pid);

/// The state of a process as the process table reports it.
#[verifier::external_type_specification]
#[verifier::external_body]
pub struct ExProcessStatus(sysinfo::ProcessStatus);

/// Trusted: `sysinfo::System::new` makes a process table with nothing loaded.
pub assume_specification[ sysinfo::System::new ]() -> (table: sysinfo::System)
;

/// Trusted: `sysinfo::System::refresh_processes` reads the processes of this
/// machine into the table. Nothing is claimed of what it finds.
pub assume_specification[ sysinfo::System::refresh_processes ](table: &mut sysinfo::System)
;

/// Trusted: `sysinfo::Pid::from_u32` makes the id that the process table
/// takes from a number.
pub assume_specification[ sysinfo::Pid::from_u32 ](v: u32) -> (pid: sysinfo::Pid)
;

/// Trusted: `sysinfo::System::process` gives the entry of the process with
/// the given id, or `None` where the table holds none. Nothing is claimed of
/// which it is.
pub assume_specification<'a>[ sysinfo::System::process ](
    table: &'a sysinfo::System,
    pid: sysinfo::Pid,
) -> (entry: Option<&'a sysinfo::Process>)
;

/// Trusted: `sysinfo::Process::status` reads the state of an entry. Nothing
/// is claimed of the state.
pub assume_specification[ sysinfo::Process::status ](process: &sysinfo::Process) -> (status:
    sysinfo::ProcessStatus)
;

/// Carries a state of the process table over into the library's own type,
/// variant by variant.
///
/// Trusted: the variants are those of `sysinfo::ProcessStatus`.
#[verifier::external_body]
fn state_of(status: sysinfo::ProcessStatus) -> (state: ProcessState) {
    match status {
        sysinfo::ProcessStatus::Idle => ProcessState::Idle,
        sysinfo::ProcessStatus::Run => ProcessState::Run,
        sysinfo::ProcessStatus::Sleep => ProcessState::Sleep,
        sysinfo::ProcessStatus::Stop => ProcessState::Stop,
        sysinfo::ProcessStatus::Zombie => ProcessState::Zombie,
        sysinfo::ProcessStatus::Tracing => ProcessState::Tracing,
        sysinfo::ProcessStatus::Dead => ProcessState::Dead,
        sysinfo::ProcessStatus::Wakekill => ProcessState::Wakekill,
        sysinfo::ProcessStatus::Waking => ProcessState::Waking,
        sysinfo::ProcessStatus::Parked => ProcessState::Parked,
        sysinfo::ProcessStatus::LockBlocked => ProcessState::LockBlocked,
        sysinfo::ProcessStatus::UninterruptibleDiskSleep => ProcessState::UninterruptibleDiskSleep,
        sysinfo::ProcessStatus::Unknown(code) => ProcessState::Unknown(code),
    }
}

/// Asks the process table of this machine for the state of process `pid`:
/// `None` where no such process is found. The answer depends on the moment of
/// asking, so nothing is promised of it.
pub fn probe_process(pid: u32) -> (state: Option<ProcessState>) {
    let mut table: sysinfo::System = sysinfo::System::new();
    table.refresh_processes();
    match table.process(sysinfo::Pid::from_u32(pid)) {
        Some(process) => Some(state_of(process.status())),
        None => None,
    }
}

} // verus!

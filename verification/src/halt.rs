//! What happens after an unrecoverable condition: the firmware reports it
//! over and over and makes no other progress. Nothing leads back out of the
//! halt; only a reset of the device does.

use vstd::prelude::*;

verus! {

/// Whether the firmware still makes progress.
#[derive(Debug, Clone, Copy, PartialEq, Eq)]
pub enum Progress {
    /// The tasks run.
    Running,
    /// An unrecoverable condition was met.
    Halted,
}

/// What the firmware has to do next once it has halted.
#[derive(Debug, Clone, Copy, PartialEq, Eq)]
pub enum HaltCommand {
    /// Write the failure to the log, then ask again.
    Report,
}

/// The firmware's condition after an unrecoverable failure, and after every
/// report of it.
pub open spec fn halted(progress: Progress) -> (Progress, HaltCommand) {
    (Progress::Halted, HaltCommand::Report)
}

/// Handles an unrecoverable condition: whatever the firmware was doing, it
/// has halted now, and all that is left to do is to report the failure again.
pub fn panic(progress: Progress) -> (next: (Progress, HaltCommand))
    ensures
        next == halted(progress),
{
    (Progress::Halted, HaltCommand::Report)
}

/// The halt is final: however often the failure was reported, the firmware
/// is halted and the next thing to do is another report.
pub proof fn lemma_halt_is_final(progress: Progress, reports: nat)
    ensures
        halted_after(progress, reports) == Progress::Halted,
        halted(halted_after(progress, reports)) == (Progress::Halted, HaltCommand::Report),
    decreases reports,
{
    if reports > 0 {
        lemma_halt_is_final(progress, (reports - 1) as nat);
    }
}

/// The firmware's condition after a failure and `reports` further reports.
pub open spec fn halted_after(progress: Progress, reports: nat) -> Progress
    decreases reports,
{
    if reports == 0 {
        halted(progress).0
    } else {
        halted(halted_after(progress, (reports - 1) as nat)).0
    }
}

} // verus!

//! The observable vocabulary of a boot: diagnostic lines on the two
//! output channels, the single exit-port write, and the defensive halt.
//!
//! Lines are kept structural — a count, a test identifier, a marker —
//! rather than formatted text, so contracts can pin each one down exactly;
//! the unverified glue around the crate renders them for the devices.

use vstd::prelude::*;

use crate::exit::QemuExitCode;

verus! {

/// Where a diagnostic line is shown: the memory-mapped character grid, or
/// the serial transport the hosting environment logs.
#[derive(Clone, Copy, Debug, PartialEq, Eq, Structural)]
pub enum Channel {
    Screen,
    Serial,
}

/// The source position a fault was raised at, when it is known.
#[derive(Clone, Debug, PartialEq, Eq)]
pub struct SourceLocation {
    pub file: String,
    pub line: u32,
    pub column: u32,
}

/// The description of a fault: a message and an optional source location.
/// Produced exactly once per fault and consumed exactly once by the fault
/// policy that reports it.
#[derive(Clone, Debug, PartialEq, Eq)]
pub struct PanicPayload {
    pub message: String,
    pub location: Option<SourceLocation>,
}

/// One diagnostic line, before formatting.
#[derive(Clone, Debug, PartialEq, Eq)]
pub enum Line {
    /// The fixed greeting the entry controller shows on boot.
    Greeting,
    /// How many tests were discovered, announced before any of them runs.
    TestCount(u64),
    /// The identifier of the test that is about to run.
    Progress(String),
    /// The marker shown after a test returns normally.
    Completed,
    /// The marker shown when a run is ended by a fault.
    FailureMarker,
    /// The formatted description of a fault.
    FaultReport(PanicPayload),
}

/// One observable step of the system, in the order it becomes visible.
#[derive(Clone, Debug, PartialEq, Eq)]
pub enum Action {
    /// Write one diagnostic line to a channel.
    Emit(Channel, Line),
    /// Write an exit code's encoding to the hardware exit port.
    ExitWrite(QemuExitCode),
    /// Enter the busy idle loop and never leave it.
    Halt,
}

} // verus!

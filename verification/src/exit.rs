//! The exit signal: the status codes a test boot writes to the fixed
//! hardware port, and the rule by which the hosting virtual machine turns
//! the written value into its own visible exit status.

use vstd::prelude::*;

verus! {

/// The status a run hands to the hosting virtual machine when it asks to
/// be terminated. Exactly two values exist; they are fixed at build time
/// and never constructed dynamically.
#[derive(Clone, Copy, Debug, PartialEq, Eq, Structural)]
pub enum QemuExitCode {
    Success,
    Failed,
}

/// The numeric encoding of an exit code, as agreed with the host.
pub open spec fn exit_code_value(code: QemuExitCode) -> u32 {
    match code {
        QemuExitCode::Success => 0x10,
        QemuExitCode::Failed => 0x11,
    }
}

impl QemuExitCode {
    /// The value written to the exit port for this code.
    pub fn code(self) -> (value: u32)
        ensures
            value == exit_code_value(self),
    {
        match self {
            QemuExitCode::Success => 0x10,
            QemuExitCode::Failed => 0x11,
        }
    }
}

/// The status the host reports after observing `value` on the exit port:
/// the value shifted left by one bit, with the low bit set.
pub open spec fn spec_host_status(value: u32) -> u32 {
    (value << 1) | 1
}

/// Computes the exit status the host makes visible for a value written to
/// the exit port.
pub fn host_status(value: u32) -> (status: u32)
    ensures
        status == spec_host_status(value),
{
    (value << 1) | 1
}

/// The two encodings are distinct, and the host statuses they map to are
/// distinct odd values, so neither collides with an even status the host
/// reserves for runs that are still in progress.
pub proof fn lemma_exit_codes_distinct()
    ensures
        exit_code_value(QemuExitCode::Success) != exit_code_value(QemuExitCode::Failed),
        spec_host_status(exit_code_value(QemuExitCode::Success)) == 0x21,
        spec_host_status(exit_code_value(QemuExitCode::Failed)) == 0x23,
        spec_host_status(exit_code_value(QemuExitCode::Success)) % 2 == 1,
        spec_host_status(exit_code_value(QemuExitCode::Failed)) % 2 == 1,
{
    assert(((0x10u32 << 1) | 1) == 0x21u32) by (bit_vector);
    assert(((0x11u32 << 1) | 1) == 0x23u32) by (bit_vector);
}

} // verus!

//! The panic controller: how an unrecoverable fault is reported and what
//! makes the system terminal afterwards.
//!
//! The policy is chosen at build time, never at run time, so it is a
//! strategy: one [`FaultHandler`] abstraction with one implementation per
//! build mode. A normal boot reports on the screen and stays alive for
//! inspection; a self-test boot reports over serial — the run is headless —
//! and asks the host to terminate with the failed status.

use vstd::prelude::*;

use crate::diag::{Action, Channel, Line, PanicPayload};
use crate::exit::QemuExitCode;

verus! {

/// The actions of the normal-boot fault policy: show the fault on the
/// screen, then idle forever. No exit-port write is ever issued, so a
/// production fault leaves the machine inspectable rather than dead.
pub open spec fn halt_response(payload: PanicPayload) -> Seq<Action> {
    seq![
        Action::Emit(Channel::Screen, Line::FaultReport(payload)),
        Action::Halt,
    ]
}

/// The actions of the self-test fault policy: a failure marker and the
/// fault's description over serial, the failed-status exit write, and the
/// defensive halt in case the host does not terminate the machine.
pub open spec fn exit_response(payload: PanicPayload) -> Seq<Action> {
    seq![
        Action::Emit(Channel::Serial, Line::FailureMarker),
        Action::Emit(Channel::Serial, Line::FaultReport(payload)),
        Action::ExitWrite(QemuExitCode::Failed),
        Action::Halt,
    ]
}

/// A build mode's policy for an unrecoverable fault. Exactly one
/// implementation is linked into any given binary; the choice is made
/// when the image is built, never by a runtime branch.
pub trait FaultHandler {
    /// The actions this policy prescribes for a fault.
    spec fn response(payload: PanicPayload) -> Seq<Action>;

    /// Turns one fault into the actions the policy prescribes. The
    /// payload is borrowed for the duration of the reporting only.
    fn handle(&self, payload: PanicPayload) -> (actions: Vec<Action>)
        ensures
            actions@ == Self::response(payload),
    ;
}

/// The normal-boot policy: report and stay alive.
pub struct ReportAndHalt;

/// The self-test policy: report over serial and terminate the host.
pub struct ReportAndExit;

impl FaultHandler for ReportAndHalt {
    open spec fn response(payload: PanicPayload) -> Seq<Action> {
        halt_response(payload)
    }

    fn handle(&self, payload: PanicPayload) -> (actions: Vec<Action>) {
        let mut actions: Vec<Action> = Vec::new();
        actions.push(Action::Emit(Channel::Screen, Line::FaultReport(payload)));
        actions.push(Action::Halt);
        actions
    }
}

impl FaultHandler for ReportAndExit {
    open spec fn response(payload: PanicPayload) -> Seq<Action> {
        exit_response(payload)
    }

    fn handle(&self, payload: PanicPayload) -> (actions: Vec<Action>) {
        let mut actions: Vec<Action> = Vec::new();
        actions.push(Action::Emit(Channel::Serial, Line::FailureMarker));
        actions.push(Action::Emit(Channel::Serial, Line::FaultReport(payload)));
        actions.push(Action::ExitWrite(QemuExitCode::Failed));
        actions.push(Action::Halt);
        actions
    }
}

} // verus!

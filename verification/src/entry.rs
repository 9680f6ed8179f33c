//! The entry controller: the single entry point's behaviour in each of
//! the two build modes. It initializes nothing — there is no state to
//! initialize at this stage — and never returns: every trace it produces
//! ends in the halt or in the exit signal followed by the defensive halt.

use vstd::prelude::*;

use crate::diag::{Action, Channel, Line};
use crate::harness::{harness_trace, test_names, test_runner, TestOutcome, Testable};

verus! {

/// The fixed greeting the entry controller shows on the screen before
/// anything else happens.
pub open spec fn greeting_action() -> Action {
    Action::Emit(Channel::Screen, Line::Greeting)
}

/// A normal boot: emit the greeting on the screen, then enter the busy
/// idle loop forever. No test runs and no exit-port write is issued.
pub fn start_normal() -> (trace: Vec<Action>)
    ensures
        trace@ == seq![greeting_action(), Action::Halt],
{
    let mut trace: Vec<Action> = Vec::new();
    trace.push(Action::Emit(Channel::Screen, Line::Greeting));
    trace.push(Action::Halt);
    trace
}

/// A self-test boot: emit the greeting on the screen, then hand off to
/// the test harness, whose trace ends the session through the exit port.
pub fn start_self_test<T: Testable>(tests: Vec<(String, T)>) -> (trace: Vec<Action>)
    ensures
        trace@.len() > 0 && trace@[0] == greeting_action(),
        exists|outcomes: Seq<TestOutcome>|
            outcomes.len() == tests@.len() && trace@ == seq![greeting_action()] + harness_trace(
                test_names(tests@),
                outcomes,
            ),
{
    let ghost orig: Seq<(String, T)> = tests@;
    let mut trace: Vec<Action> = Vec::new();
    trace.push(Action::Emit(Channel::Screen, Line::Greeting));
    let mut rest = test_runner(tests);
    let ghost harness_part: Seq<Action> = rest@;
    trace.append(&mut rest);
    proof {
        let outcomes = choose|outcomes: Seq<TestOutcome>|
            outcomes.len() == orig.len() && harness_part == harness_trace(
                test_names(orig),
                outcomes,
            );
        assert(trace@ =~= seq![greeting_action()] + harness_trace(test_names(orig), outcomes));
    }
    trace
}

} // verus!

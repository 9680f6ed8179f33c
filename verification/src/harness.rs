//! The test harness: an ordered table of named checks, run sequentially
//! in declaration order over the serial channel, with no isolation
//! between them — the first fault ends the whole run through the
//! self-test fault policy, and a clean run ends by signalling success.
//!
//! Running a check is the one step whose result this crate cannot fix in
//! advance: a check either returns normally or faults. The harness
//! therefore treats each run as producing a [`TestOutcome`], and its
//! contract says that the emitted trace is exactly [`harness_trace`] of
//! the registered names and some such sequence of outcomes.

use vstd::prelude::*;

use crate::diag::{Action, Channel, Line, PanicPayload};
use crate::exit::QemuExitCode;
use crate::fault::{exit_response, FaultHandler, ReportAndExit};

verus! {

/// The result of running one check to completion: it either returned
/// normally or faulted with the given description.
#[derive(Clone, Debug, PartialEq, Eq)]
pub enum TestOutcome {
    Passed,
    Faulted(PanicPayload),
}

/// A zero-argument, self-contained check the harness can run. At this
/// system level there is no unwinding, so a fault inside a check is
/// surfaced as a [`TestOutcome::Faulted`] value rather than caught.
/// Nothing is assumed of `run`: the harness's contract holds for every
/// outcome an implementation may produce.
pub trait Testable {
    /// Runs the check once and reports how it ended.
    fn run(&self) -> TestOutcome;
}

/// A check asserting that two machine words are equal, the simplest unit
/// of verification a test image registers.
pub struct EqualityCheck {
    pub left: u64,
    pub right: u64,
    pub message: String,
}

impl Testable for EqualityCheck {
    fn run(&self) -> TestOutcome {
        check_eq(self.left, self.right, self.message.clone())
    }
}

/// Compares two values the way an assertion does: equal values pass, and
/// unequal values fault with `message` as the payload's description.
pub fn check_eq(left: u64, right: u64, message: String) -> (outcome: TestOutcome)
    ensures
        left == right ==> outcome == TestOutcome::Passed,
        left != right ==> outcome == TestOutcome::Faulted(
            (PanicPayload { message: message, location: None }),
        ),
{
    if left == right {
        TestOutcome::Passed
    } else {
        TestOutcome::Faulted(PanicPayload { message: message, location: None })
    }
}

/// The one check the image registers for itself: a trivial assertion
/// that equal literals compare equal. It always passes.
pub fn trivial_assertion() -> (outcome: TestOutcome)
    ensures
        outcome == TestOutcome::Passed,
{
    check_eq(1, 1, String::from_str("trivial assertion"))
}

/// The identifiers of a registered test table, in declaration order.
pub open spec fn test_names<T>(tests: Seq<(String, T)>) -> Seq<String> {
    tests.map_values(|t: (String, T)| t.0)
}

/// The index of the first faulting outcome, or the sequence's length when
/// every test passed.
pub open spec fn first_fault(outcomes: Seq<TestOutcome>) -> int
    decreases outcomes.len(),
{
    if outcomes.len() == 0 {
        0
    } else if outcomes[0] is Faulted {
        0
    } else {
        1 + first_fault(outcomes.drop_first())
    }
}

/// The count line the harness emits before any test runs.
pub open spec fn count_action(count: u64) -> Action {
    Action::Emit(Channel::Serial, Line::TestCount(count))
}

/// The progress line announcing that the test called `name` is running.
pub open spec fn progress_action(name: String) -> Action {
    Action::Emit(Channel::Serial, Line::Progress(name))
}

/// The completion marker emitted after a test returns normally.
pub open spec fn completed_action() -> Action {
    Action::Emit(Channel::Serial, Line::Completed)
}

/// The progress/completion pairs of the first `k` tests, each of which
/// returned normally.
pub open spec fn passed_actions(names: Seq<String>, k: int) -> Seq<Action>
    recommends
        k <= names.len(),
    decreases k,
{
    if k <= 0 {
        Seq::empty()
    } else {
        passed_actions(names, k - 1) + seq![progress_action(names[k - 1]), completed_action()]
    }
}

/// The tail of a run in which every test passed: the success-coded exit
/// write, then the defensive halt in case the host does not terminate.
pub open spec fn success_response() -> Seq<Action> {
    seq![Action::ExitWrite(QemuExitCode::Success), Action::Halt]
}

/// The whole observable trace of one harness run over the registered
/// `names`, given the outcome each test had (outcomes past the first
/// fault never happen and are ignored): the count line; a progress line
/// and completion marker per passing test; and then either the success
/// tail, or — at the first fault — that test's progress line followed by
/// the self-test fault policy's response.
pub open spec fn harness_trace(names: Seq<String>, outcomes: Seq<TestOutcome>) -> Seq<Action>
    recommends
        outcomes.len() == names.len(),
{
    let k = first_fault(outcomes);
    if k == outcomes.len() {
        seq![count_action(names.len() as u64)] + passed_actions(names, k) + success_response()
    } else {
        seq![count_action(names.len() as u64)] + passed_actions(names, k)
            + seq![progress_action(names[k])] + exit_response(outcomes[k]->Faulted_0)
    }
}

/// `first_fault` stays within the sequence, everything before it passed,
/// and the outcome it points at (when within bounds) is a fault.
pub proof fn lemma_first_fault_spec(outcomes: Seq<TestOutcome>)
    ensures
        0 <= first_fault(outcomes) <= outcomes.len(),
        forall|j: int| 0 <= j < first_fault(outcomes) ==> outcomes[j] is Passed,
        first_fault(outcomes) < outcomes.len() ==> outcomes[first_fault(outcomes)] is Faulted,
    decreases outcomes.len(),
{
    if outcomes.len() != 0 && !(outcomes[0] is Faulted) {
        lemma_first_fault_spec(outcomes.drop_first());
        assert forall|j: int| 0 <= j < first_fault(outcomes) implies outcomes[j] is Passed by {
            if j > 0 {
                assert(outcomes.drop_first()[j - 1] == outcomes[j]);
            }
        }
    }
}

/// Conversely, an index with only passing outcomes before it and a fault
/// (or the end) at it is where `first_fault` points.
pub proof fn lemma_first_fault_at(outcomes: Seq<TestOutcome>, k: int)
    requires
        0 <= k <= outcomes.len(),
        forall|j: int| 0 <= j < k ==> outcomes[j] is Passed,
        k < outcomes.len() ==> outcomes[k] is Faulted,
    ensures
        first_fault(outcomes) == k,
    decreases outcomes.len(),
{
    if outcomes.len() == 0 {
    } else if k == 0 {
    } else {
        assert(outcomes[0] is Passed);
        lemma_first_fault_at(outcomes.drop_first(), k - 1);
    }
}

/// Runs every registered test once, in declaration order: first the count
/// of discovered tests, then per test its progress line, the run itself,
/// and a completion marker when it returns normally. The first fault
/// aborts the remaining sequence through the self-test fault policy; a
/// clean run ends with the success-coded exit write. The trace is exactly
/// `harness_trace` of the registered names and the outcomes the runs had.
pub fn test_runner<T: Testable>(tests: Vec<(String, T)>) -> (trace: Vec<Action>)
    ensures
        exists|outcomes: Seq<TestOutcome>|
            outcomes.len() == tests@.len() && trace@ == harness_trace(
                test_names(tests@),
                outcomes,
            ),
{
    let ghost names: Seq<String> = test_names(tests@);
    let n: usize = tests.len();
    let mut trace: Vec<Action> = Vec::new();
    trace.push(Action::Emit(Channel::Serial, Line::TestCount(n as u64)));
    let mut i: usize = 0;
    while i < n
        invariant
            n == tests@.len(),
            names == test_names(tests@),
            i <= n,
            trace@ == seq![count_action(n as u64)] + passed_actions(names, i as int),
        decreases n - i,
    {
        let name = tests[i].0.clone();
        trace.push(Action::Emit(Channel::Serial, Line::Progress(name)));
        let outcome = tests[i].1.run();
        match outcome {
            TestOutcome::Passed => {
                trace.push(Action::Emit(Channel::Serial, Line::Completed));
                proof {
                    assert(trace@ =~= seq![count_action(n as u64)] + passed_actions(
                        names,
                        i as int + 1,
                    ));
                }
                i = i + 1;
            },
            TestOutcome::Faulted(payload) => {
                let ghost p = payload;
                let handler = ReportAndExit;
                let mut tail = handler.handle(payload);
                trace.append(&mut tail);
                proof {
                    let outcomes = Seq::new(
                        n as nat,
                        |j: int|
                            if j == i as int {
                                TestOutcome::Faulted(p)
                            } else {
                                TestOutcome::Passed
                            },
                    );
                    lemma_first_fault_at(outcomes, i as int);
                    assert(trace@ =~= harness_trace(names, outcomes));
                    assert(exists|outcomes: Seq<TestOutcome>|
                        outcomes.len() == tests@.len() && trace@ == harness_trace(
                            test_names(tests@),
                            outcomes,
                        ));
                }
                return trace;
            },
        }
    }
    trace.push(Action::ExitWrite(QemuExitCode::Success));
    trace.push(Action::Halt);
    proof {
        let outcomes = Seq::new(n as nat, |j: int| TestOutcome::Passed);
        lemma_first_fault_at(outcomes, n as int);
        assert(trace@ =~= harness_trace(names, outcomes));
    }
    trace
}

} // verus!

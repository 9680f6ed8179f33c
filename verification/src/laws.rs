//! What every harness run guarantees, stated and proved over
//! [`harness_trace`]: the per-test line counts, the empty run, how a fault
//! aborts the sequence, the fully passing run, and the exit write being
//! the last observable action.

use vstd::prelude::*;

use crate::diag::{Action, Channel, Line};
use crate::entry::greeting_action;
use crate::exit::QemuExitCode;
use crate::fault::exit_response;
use crate::harness::{
    completed_action, count_action, first_fault, harness_trace, lemma_first_fault_spec,
    passed_actions, progress_action, success_response, TestOutcome,
};

verus! {

/// The action is a progress line on the serial channel.
pub open spec fn is_progress(action: Action) -> bool {
    match action {
        Action::Emit(channel, line) => channel is Serial && line is Progress,
        _ => false,
    }
}

/// The action is a completion marker on the serial channel.
pub open spec fn is_completed(action: Action) -> bool {
    match action {
        Action::Emit(channel, line) => channel is Serial && line is Completed,
        _ => false,
    }
}

/// The action is a write to the hardware exit port.
pub open spec fn is_exit_write(action: Action) -> bool {
    action is ExitWrite
}

/// The action is a diagnostic line on either channel.
pub open spec fn is_emit(action: Action) -> bool {
    action is Emit
}

/// How many progress lines a trace holds.
pub open spec fn count_progress(trace: Seq<Action>) -> int
    decreases trace.len(),
{
    if trace.len() == 0 {
        0
    } else {
        count_progress(trace.drop_last()) + if is_progress(trace.last()) {
            1int
        } else {
            0int
        }
    }
}

/// How many completion markers a trace holds.
pub open spec fn count_completed(trace: Seq<Action>) -> int
    decreases trace.len(),
{
    if trace.len() == 0 {
        0
    } else {
        count_completed(trace.drop_last()) + if is_completed(trace.last()) {
            1int
        } else {
            0int
        }
    }
}

/// How many exit-port writes a trace holds.
pub open spec fn count_exit_writes(trace: Seq<Action>) -> int
    decreases trace.len(),
{
    if trace.len() == 0 {
        0
    } else {
        count_exit_writes(trace.drop_last()) + if is_exit_write(trace.last()) {
            1int
        } else {
            0int
        }
    }
}

/// All three counts distribute over concatenation.
proof fn lemma_counts_add(a: Seq<Action>, b: Seq<Action>)
    ensures
        count_progress(a + b) == count_progress(a) + count_progress(b),
        count_completed(a + b) == count_completed(a) + count_completed(b),
        count_exit_writes(a + b) == count_exit_writes(a) + count_exit_writes(b),
    decreases b.len(),
{
    if b.len() == 0 {
        assert(a + b =~= a);
    } else {
        lemma_counts_add(a, b.drop_last());
        assert((a + b).drop_last() =~= a + b.drop_last());
        assert((a + b).last() == b.last());
    }
}

/// The counts of a one-action trace.
proof fn lemma_counts_singleton(action: Action)
    ensures
        count_progress(seq![action]) == if is_progress(action) {
            1int
        } else {
            0int
        },
        count_completed(seq![action]) == if is_completed(action) {
            1int
        } else {
            0int
        },
        count_exit_writes(seq![action]) == if is_exit_write(action) {
            1int
        } else {
            0int
        },
{
    reveal_with_fuel(count_progress, 2);
    reveal_with_fuel(count_completed, 2);
    reveal_with_fuel(count_exit_writes, 2);
    assert(seq![action].drop_last() =~= Seq::<Action>::empty());
}

/// The block of the first `k` passing tests: `k` progress lines paired
/// with `k` completion markers, no exit write, diagnostic lines only.
proof fn lemma_passed_actions_profile(names: Seq<String>, k: int)
    requires
        0 <= k,
    ensures
        passed_actions(names, k).len() == 2 * k,
        count_progress(passed_actions(names, k)) == k,
        count_completed(passed_actions(names, k)) == k,
        count_exit_writes(passed_actions(names, k)) == 0,
        forall|j: int|
            0 <= j < passed_actions(names, k).len() ==> is_emit(#[trigger] passed_actions(names, k)[j]),
    decreases k,
{
    if k > 0 {
        lemma_passed_actions_profile(names, k - 1);
        let pair = seq![progress_action(names[k - 1]), completed_action()];
        assert(pair =~= seq![progress_action(names[k - 1])] + seq![completed_action()]);
        lemma_counts_singleton(progress_action(names[k - 1]));
        lemma_counts_singleton(completed_action());
        lemma_counts_add(seq![progress_action(names[k - 1])], seq![completed_action()]);
        lemma_counts_add(passed_actions(names, k - 1), pair);
        assert forall|j: int|
            0 <= j < passed_actions(names, k).len() implies is_emit(
            #[trigger] passed_actions(names, k)[j],
        ) by {
            if j < 2 * (k - 1) {
                assert(passed_actions(names, k)[j] == passed_actions(names, k - 1)[j]);
            } else {
                assert(passed_actions(names, k)[j] == pair[j - 2 * (k - 1)]);
            }
        }
    }
}

/// The tail of a fully passing run: one success-coded exit write, then
/// the defensive halt, and nothing else.
proof fn lemma_success_response_profile()
    ensures
        success_response().len() == 2,
        count_progress(success_response()) == 0,
        count_completed(success_response()) == 0,
        count_exit_writes(success_response()) == 1,
        success_response()[0] == Action::ExitWrite(QemuExitCode::Success),
        success_response()[1] == Action::Halt,
{
    assert(success_response() =~= seq![Action::ExitWrite(QemuExitCode::Success)] + seq![
        Action::Halt,
    ]);
    lemma_counts_singleton(Action::ExitWrite(QemuExitCode::Success));
    lemma_counts_singleton(Action::Halt);
    lemma_counts_add(seq![Action::ExitWrite(QemuExitCode::Success)], seq![Action::Halt]);
}

/// The tail the self-test fault policy appends: two diagnostic lines,
/// one failed-coded exit write, then the defensive halt.
proof fn lemma_exit_response_profile(payload: crate::diag::PanicPayload)
    ensures
        exit_response(payload).len() == 4,
        count_progress(exit_response(payload)) == 0,
        count_completed(exit_response(payload)) == 0,
        count_exit_writes(exit_response(payload)) == 1,
        is_emit(exit_response(payload)[0]),
        is_emit(exit_response(payload)[1]),
        exit_response(payload)[2] == Action::ExitWrite(QemuExitCode::Failed),
        exit_response(payload)[3] == Action::Halt,
{
    let marker = Action::Emit(Channel::Serial, Line::FailureMarker);
    let report = Action::Emit(Channel::Serial, Line::FaultReport(payload));
    let exit = Action::ExitWrite(QemuExitCode::Failed);
    assert(exit_response(payload) =~= ((seq![marker] + seq![report]) + seq![exit]) + seq![
        Action::Halt,
    ]);
    lemma_counts_singleton(marker);
    lemma_counts_singleton(report);
    lemma_counts_singleton(exit);
    lemma_counts_singleton(Action::Halt);
    lemma_counts_add(seq![marker], seq![report]);
    lemma_counts_add(seq![marker] + seq![report], seq![exit]);
    lemma_counts_add((seq![marker] + seq![report]) + seq![exit], seq![Action::Halt]);
}

/// The complete profile of one run's trace, from which each law follows:
/// its length, its three line counts, that everything before the final
/// two actions is a diagnostic line, and that it ends with exactly one
/// exit write — success-coded exactly when no test faulted — followed by
/// the defensive halt.
proof fn lemma_trace_profile(names: Seq<String>, outcomes: Seq<TestOutcome>)
    requires
        outcomes.len() == names.len(),
    ensures
        harness_trace(names, outcomes).len() == if first_fault(outcomes) == outcomes.len() {
            2 * names.len() + 3int
        } else {
            2 * first_fault(outcomes) + 6int
        },
        count_progress(harness_trace(names, outcomes)) == if first_fault(outcomes)
            == outcomes.len() {
            names.len() as int
        } else {
            first_fault(outcomes) + 1
        },
        count_completed(harness_trace(names, outcomes)) == first_fault(outcomes),
        count_exit_writes(harness_trace(names, outcomes)) == 1,
        forall|j: int|
            0 <= j < harness_trace(names, outcomes).len() - 2 ==> is_emit(
                #[trigger] harness_trace(names, outcomes)[j],
            ),
        harness_trace(names, outcomes)[harness_trace(names, outcomes).len() - 2]
            == Action::ExitWrite(
            if first_fault(outcomes) == outcomes.len() {
                QemuExitCode::Success
            } else {
                QemuExitCode::Failed
            },
        ),
        harness_trace(names, outcomes).last() == Action::Halt,
{
    let n = names.len() as int;
    let k = first_fault(outcomes);
    let head = seq![count_action(names.len() as u64)];
    lemma_first_fault_spec(outcomes);
    lemma_counts_singleton(count_action(names.len() as u64));
    lemma_passed_actions_profile(names, k);
    if k == n {
        let t = head + passed_actions(names, k) + success_response();
        assert(harness_trace(names, outcomes) == t);
        lemma_success_response_profile();
        lemma_counts_add(head, passed_actions(names, k));
        lemma_counts_add(head + passed_actions(names, k), success_response());
        assert forall|j: int| 0 <= j < t.len() - 2 implies is_emit(#[trigger] t[j]) by {
            if j == 0 {
                assert(t[j] == count_action(names.len() as u64));
            } else {
                assert(t[j] == passed_actions(names, k)[j - 1]);
            }
        }
        assert(t[t.len() - 2] == success_response()[0]);
        assert(t.last() == success_response()[1]);
    } else {
        let payload = outcomes[k]->Faulted_0;
        let progress = seq![progress_action(names[k])];
        let t = head + passed_actions(names, k) + progress + exit_response(payload);
        assert(harness_trace(names, outcomes) == t);
        lemma_exit_response_profile(payload);
        lemma_counts_singleton(progress_action(names[k]));
        lemma_counts_add(head, passed_actions(names, k));
        lemma_counts_add(head + passed_actions(names, k), progress);
        lemma_counts_add(head + passed_actions(names, k) + progress, exit_response(payload));
        assert forall|j: int| 0 <= j < t.len() - 2 implies is_emit(#[trigger] t[j]) by {
            if j == 0 {
                assert(t[j] == count_action(names.len() as u64));
            } else if j < 2 * k + 1 {
                assert(t[j] == passed_actions(names, k)[j - 1]);
            } else if j == 2 * k + 1 {
                assert(t[j] == progress_action(names[k]));
            } else {
                assert(t[j] == exit_response(payload)[j - (2 * k + 2)]);
            }
        }
        assert(t[t.len() - 2] == exit_response(payload)[2]);
        assert(t.last() == exit_response(payload)[3]);
    }
}

/// Law: the harness emits exactly one progress line per test that runs —
/// all of them when no test faults, the passing ones plus the faulting
/// one otherwise — and exactly one completion marker per test that
/// returns normally; with no fault both counts equal the discovered
/// test count exactly.
pub proof fn lemma_progress_and_completion_counts(names: Seq<String>, outcomes: Seq<TestOutcome>)
    requires
        outcomes.len() == names.len(),
    ensures
        first_fault(outcomes) == outcomes.len() ==> count_progress(harness_trace(names, outcomes))
            == names.len(),
        first_fault(outcomes) == outcomes.len() ==> count_completed(harness_trace(names, outcomes))
            == names.len(),
        first_fault(outcomes) < outcomes.len() ==> count_progress(harness_trace(names, outcomes))
            == first_fault(outcomes) + 1,
        count_completed(harness_trace(names, outcomes)) == first_fault(outcomes),
{
    lemma_trace_profile(names, outcomes);
}

/// Law: an empty test sequence emits the zero-count report and
/// immediately signals success, with no per-test lines at all.
pub proof fn lemma_empty_run()
    ensures
        harness_trace(Seq::empty(), Seq::empty()) == seq![
            count_action(0),
            Action::ExitWrite(QemuExitCode::Success),
            Action::Halt,
        ],
{
    assert(harness_trace(Seq::<String>::empty(), Seq::<TestOutcome>::empty()) =~= seq![
        count_action(0),
        Action::ExitWrite(QemuExitCode::Success),
        Action::Halt,
    ]);
}

/// Law: a faulting test aborts the run. No test after the faulting one
/// runs — the progress count stops at it — the trace carries exactly one
/// exit write, that write is failed-coded, and no success-coded write is
/// ever reached.
pub proof fn lemma_fault_aborts(names: Seq<String>, outcomes: Seq<TestOutcome>)
    requires
        outcomes.len() == names.len(),
        first_fault(outcomes) < outcomes.len(),
    ensures
        count_progress(harness_trace(names, outcomes)) == first_fault(outcomes) + 1,
        count_completed(harness_trace(names, outcomes)) == first_fault(outcomes),
        count_exit_writes(harness_trace(names, outcomes)) == 1,
        harness_trace(names, outcomes)[harness_trace(names, outcomes).len() - 2]
            == Action::ExitWrite(QemuExitCode::Failed),
        forall|j: int|
            0 <= j < harness_trace(names, outcomes).len() ==> #[trigger] harness_trace(
                names,
                outcomes,
            )[j] != Action::ExitWrite(QemuExitCode::Success),
{
    lemma_trace_profile(names, outcomes);
    let t = harness_trace(names, outcomes);
    assert forall|j: int| 0 <= j < t.len() implies #[trigger] t[j] != Action::ExitWrite(
        QemuExitCode::Success,
    ) by {
        if j < t.len() - 2 {
            assert(is_emit(t[j]));
        }
    }
}

/// Law: a fully passing sequence of one or more tests produces exactly
/// one progress/completion pair per test, followed by exactly one
/// success-coded exit write.
pub proof fn lemma_full_pass(names: Seq<String>, outcomes: Seq<TestOutcome>)
    requires
        outcomes.len() == names.len(),
        names.len() >= 1,
        first_fault(outcomes) == outcomes.len(),
    ensures
        count_progress(harness_trace(names, outcomes)) == names.len(),
        count_completed(harness_trace(names, outcomes)) == names.len(),
        count_exit_writes(harness_trace(names, outcomes)) == 1,
        harness_trace(names, outcomes)[harness_trace(names, outcomes).len() - 2]
            == Action::ExitWrite(QemuExitCode::Success),
        harness_trace(names, outcomes) == seq![count_action(names.len() as u64)] + passed_actions(
            names,
            names.len() as int,
        ) + success_response(),
{
    lemma_trace_profile(names, outcomes);
}

/// Law: the exit-port write is the last observable action of a run. Every
/// earlier action is a diagnostic line — in particular no second exit
/// write exists — and the only action after it is the defensive halt,
/// which is reached only if the host fails to terminate the machine.
pub proof fn lemma_exit_write_is_last(names: Seq<String>, outcomes: Seq<TestOutcome>)
    requires
        outcomes.len() == names.len(),
    ensures
        harness_trace(names, outcomes).len() >= 3,
        is_exit_write(
            harness_trace(names, outcomes)[harness_trace(names, outcomes).len() - 2],
        ),
        harness_trace(names, outcomes).last() == Action::Halt,
        count_exit_writes(harness_trace(names, outcomes)) == 1,
        forall|j: int|
            0 <= j < harness_trace(names, outcomes).len() - 2 ==> is_emit(
                #[trigger] harness_trace(names, outcomes)[j],
            ),
{
    lemma_trace_profile(names, outcomes);
}

/// Law: the same holds of a whole self-test boot, whose trace is the
/// screen greeting followed by the harness run.
pub proof fn lemma_boot_exit_write_is_last(names: Seq<String>, outcomes: Seq<TestOutcome>)
    requires
        outcomes.len() == names.len(),
    ensures
        (seq![greeting_action()] + harness_trace(names, outcomes)).len() >= 4,
        is_exit_write(
            (seq![greeting_action()] + harness_trace(names, outcomes))[(seq![greeting_action()]
                + harness_trace(names, outcomes)).len() - 2],
        ),
        (seq![greeting_action()] + harness_trace(names, outcomes)).last() == Action::Halt,
        forall|j: int|
            0 <= j < (seq![greeting_action()] + harness_trace(names, outcomes)).len() - 2
                ==> is_emit(
                #[trigger] (seq![greeting_action()] + harness_trace(names, outcomes))[j],
            ),
{
    lemma_trace_profile(names, outcomes);
    let t = harness_trace(names, outcomes);
    let boot = seq![greeting_action()] + t;
    assert forall|j: int| 0 <= j < boot.len() - 2 implies is_emit(#[trigger] boot[j]) by {
        if j > 0 {
            assert(boot[j] == t[j - 1]);
        }
    }
    assert(boot[boot.len() - 2] == t[t.len() - 2]);
    assert(boot.last() == t.last());
}

} // verus!

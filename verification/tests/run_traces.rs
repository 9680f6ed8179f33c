use boot_core::diag::{Action, Channel, Line, PanicPayload, SourceLocation};
use boot_core::entry::{start_normal, start_self_test};
use boot_core::exit::QemuExitCode;
use boot_core::fault::{FaultHandler, ReportAndExit, ReportAndHalt};
use boot_core::harness::{check_eq, test_runner, trivial_assertion, EqualityCheck, TestOutcome, Testable};

fn passing_check(name: &str) -> (String, EqualityCheck) {
    (
        String::from(name),
        EqualityCheck { left: 1, right: 1, message: format!("{} failed", name) },
    )
}

fn failing_check(name: &str) -> (String, EqualityCheck) {
    (
        String::from(name),
        EqualityCheck { left: 1, right: 2, message: format!("{} failed", name) },
    )
}

fn progress_count(trace: &[Action]) -> usize {
    trace
        .iter()
        .filter(|a| matches!(a, Action::Emit(Channel::Serial, Line::Progress(_))))
        .count()
}

fn completed_count(trace: &[Action]) -> usize {
    trace
        .iter()
        .filter(|a| matches!(a, Action::Emit(Channel::Serial, Line::Completed)))
        .count()
}

fn exit_write_count(trace: &[Action]) -> usize {
    trace.iter().filter(|a| matches!(a, Action::ExitWrite(_))).count()
}

#[test]
fn trivial_assertion_passes() {
    assert_eq!(trivial_assertion(), TestOutcome::Passed);
}

#[test]
fn check_eq_faults_on_unequal_values() {
    let outcome = check_eq(1, 2, String::from("one equals two"));
    assert_eq!(
        outcome,
        TestOutcome::Faulted(PanicPayload {
            message: String::from("one equals two"),
            location: None,
        })
    );
}

#[test]
fn empty_sequence_reports_zero_and_succeeds() {
    let tests: Vec<(String, EqualityCheck)> = Vec::new();
    let trace = test_runner(tests);
    let expected = vec![
        Action::Emit(Channel::Serial, Line::TestCount(0)),
        Action::ExitWrite(QemuExitCode::Success),
        Action::Halt,
    ];
    assert_eq!(trace, expected);
}

#[test]
fn one_passing_check_serial_sequence() {
    let tests = vec![passing_check("trivial_assertion")];
    let trace = test_runner(tests);
    let expected = vec![
        Action::Emit(Channel::Serial, Line::TestCount(1)),
        Action::Emit(Channel::Serial, Line::Progress(String::from("trivial_assertion"))),
        Action::Emit(Channel::Serial, Line::Completed),
        Action::ExitWrite(QemuExitCode::Success),
        Action::Halt,
    ];
    assert_eq!(trace, expected);
    match &trace[3] {
        Action::ExitWrite(code) => assert_eq!(code.code(), 0x10),
        other => panic!("expected an exit write, got {:?}", other),
    }
}

#[test]
fn one_failing_check_serial_sequence() {
    let tests = vec![failing_check("trivial_assertion")];
    let trace = test_runner(tests);
    let expected = vec![
        Action::Emit(Channel::Serial, Line::TestCount(1)),
        Action::Emit(Channel::Serial, Line::Progress(String::from("trivial_assertion"))),
        Action::Emit(Channel::Serial, Line::FailureMarker),
        Action::Emit(
            Channel::Serial,
            Line::FaultReport(PanicPayload {
                message: String::from("trivial_assertion failed"),
                location: None,
            }),
        ),
        Action::ExitWrite(QemuExitCode::Failed),
        Action::Halt,
    ];
    assert_eq!(trace, expected);
    match &trace[4] {
        Action::ExitWrite(code) => assert_eq!(code.code(), 0x11),
        other => panic!("expected an exit write, got {:?}", other),
    }
    assert_eq!(completed_count(&trace), 0);
}

#[test]
fn passing_sequence_emits_one_pair_per_check() {
    let tests = vec![passing_check("first"), passing_check("second"), passing_check("third")];
    let trace = test_runner(tests);
    let expected = vec![
        Action::Emit(Channel::Serial, Line::TestCount(3)),
        Action::Emit(Channel::Serial, Line::Progress(String::from("first"))),
        Action::Emit(Channel::Serial, Line::Completed),
        Action::Emit(Channel::Serial, Line::Progress(String::from("second"))),
        Action::Emit(Channel::Serial, Line::Completed),
        Action::Emit(Channel::Serial, Line::Progress(String::from("third"))),
        Action::Emit(Channel::Serial, Line::Completed),
        Action::ExitWrite(QemuExitCode::Success),
        Action::Halt,
    ];
    assert_eq!(trace, expected);
    assert_eq!(progress_count(&trace), 3);
    assert_eq!(completed_count(&trace), 3);
    assert_eq!(exit_write_count(&trace), 1);
}

#[test]
fn faulting_check_aborts_remaining_sequence() {
    let tests = vec![passing_check("first"), failing_check("second"), passing_check("third")];
    let trace = test_runner(tests);
    // The third check never runs: two progress lines only.
    assert_eq!(progress_count(&trace), 2);
    assert_eq!(completed_count(&trace), 1);
    assert!(!trace.contains(&Action::Emit(Channel::Serial, Line::Progress(String::from("third")))));
    // Exactly one exit write, failed-coded; the success path is never reached.
    assert_eq!(exit_write_count(&trace), 1);
    assert!(trace.contains(&Action::ExitWrite(QemuExitCode::Failed)));
    assert!(!trace.contains(&Action::ExitWrite(QemuExitCode::Success)));
}

#[test]
fn exit_write_is_last_observable_action() {
    let runs = vec![
        Vec::new(),
        vec![passing_check("only")],
        vec![passing_check("first"), failing_check("second")],
    ];
    for tests in runs {
        let trace = test_runner(tests);
        let len = trace.len();
        assert!(len >= 3);
        assert!(matches!(trace[len - 2], Action::ExitWrite(_)));
        assert_eq!(trace[len - 1], Action::Halt);
        for action in &trace[..len - 2] {
            assert!(matches!(action, Action::Emit(_, _)));
        }
    }
}

#[test]
fn normal_boot_greets_and_halts() {
    let trace = start_normal();
    let expected = vec![Action::Emit(Channel::Screen, Line::Greeting), Action::Halt];
    assert_eq!(trace, expected);
}

#[test]
fn self_test_boot_greets_then_runs_harness() {
    let tests = vec![passing_check("trivial_assertion")];
    let boot_trace = start_self_test(tests);
    let harness_trace = test_runner(vec![passing_check("trivial_assertion")]);
    let mut expected = vec![Action::Emit(Channel::Screen, Line::Greeting)];
    expected.extend(harness_trace);
    assert_eq!(boot_trace, expected);
}

#[test]
fn report_and_halt_stays_on_screen() {
    let payload = PanicPayload { message: String::from("unexpected fault"), location: None };
    let handler = ReportAndHalt;
    let actions = handler.handle(payload.clone());
    let expected = vec![
        Action::Emit(Channel::Screen, Line::FaultReport(payload)),
        Action::Halt,
    ];
    assert_eq!(actions, expected);
}

#[test]
fn report_and_exit_signals_failure_over_serial() {
    let payload = PanicPayload {
        message: String::from("unexpected fault"),
        location: Some(SourceLocation { file: String::from("main.rs"), line: 7, column: 3 }),
    };
    let handler = ReportAndExit;
    let actions = handler.handle(payload.clone());
    let expected = vec![
        Action::Emit(Channel::Serial, Line::FailureMarker),
        Action::Emit(Channel::Serial, Line::FaultReport(payload)),
        Action::ExitWrite(QemuExitCode::Failed),
        Action::Halt,
    ];
    assert_eq!(actions, expected);
}

struct AlwaysFaults;

impl Testable for AlwaysFaults {
    fn run(&self) -> TestOutcome {
        TestOutcome::Faulted(PanicPayload {
            message: String::from("deliberate fault"),
            location: Some(SourceLocation { file: String::from("lib.rs"), line: 42, column: 5 }),
        })
    }
}

#[test]
fn fault_report_carries_payload_and_location() {
    let tests = vec![(String::from("always_faults"), AlwaysFaults)];
    let trace = test_runner(tests);
    let report = trace
        .iter()
        .find_map(|a| match a {
            Action::Emit(Channel::Serial, Line::FaultReport(p)) => Some(p.clone()),
            _ => None,
        })
        .expect("a fault report is emitted");
    assert_eq!(report.message, String::from("deliberate fault"));
    let location = report.location.expect("the location is kept");
    assert_eq!(location.file, String::from("lib.rs"));
    assert_eq!(location.line, 42);
    assert_eq!(location.column, 5);
}

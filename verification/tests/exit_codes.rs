use boot_core::exit::{host_status, QemuExitCode};

#[test]
fn success_encodes_to_the_agreed_port_value() {
    assert_eq!(QemuExitCode::Success.code(), 0x10);
}

#[test]
fn failed_encodes_to_the_agreed_port_value() {
    assert_eq!(QemuExitCode::Failed.code(), 0x11);
}

#[test]
fn encodings_are_distinct() {
    assert_ne!(QemuExitCode::Success.code(), QemuExitCode::Failed.code());
}

#[test]
fn host_translates_success_by_shift_and_set() {
    assert_eq!(host_status(QemuExitCode::Success.code()), 0x21);
    assert_eq!(host_status(0x10), 33);
}

#[test]
fn host_translates_failure_by_shift_and_set() {
    assert_eq!(host_status(QemuExitCode::Failed.code()), 0x23);
    assert_eq!(host_status(0x11), 35);
}

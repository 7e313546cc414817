use specdown::exit_codes::ExitCode;

#[test]
fn exit_statuses_are_distinct() {
    assert_eq!(ExitCode::Success.status(), 0);
    assert_ne!(ExitCode::TestFailed.status(), 0);
    assert_ne!(ExitCode::ErrorOccurred.status(), 0);
    assert_ne!(ExitCode::TestFailed.status(), ExitCode::ErrorOccurred.status());
}

#[test]
fn exit_statuses_have_their_numbers() {
    assert_eq!(ExitCode::Success.status(), 0);
    assert_eq!(ExitCode::TestFailed.status(), 1);
    assert_eq!(ExitCode::ErrorOccurred.status(), 2);
}

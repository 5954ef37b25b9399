use qspace::logger::{format_log_line, log_line_now};
use qspace::runner::{is_fatal, kind_message, outcome_error, ErrorKind, RunOutcome};

#[test]
fn outcomes_classify_distinctly() {
    assert_eq!(outcome_error(&RunOutcome::Success), None);
    assert_eq!(
        outcome_error(&RunOutcome::Failed(1)),
        Some(ErrorKind::CommandFailure)
    );
    assert_eq!(
        outcome_error(&RunOutcome::NotFound),
        Some(ErrorKind::MissingDependency)
    );
    // A missing program and a failing program are distinguishable.
    assert_ne!(RunOutcome::NotFound, RunOutcome::Failed(127));
    assert_ne!(
        outcome_error(&RunOutcome::NotFound),
        outcome_error(&RunOutcome::Failed(127))
    );
}

#[test]
fn only_io_failure_is_fatal() {
    assert!(is_fatal(ErrorKind::FatalIo));
    assert!(!is_fatal(ErrorKind::MissingDependency));
    assert!(!is_fatal(ErrorKind::CommandFailure));
    assert!(!is_fatal(ErrorKind::ConfigAbsent));
    assert!(!is_fatal(ErrorKind::ConfigCorrupt));
}

#[test]
fn every_kind_has_a_message() {
    assert_eq!(
        kind_message(ErrorKind::MissingDependency).as_str(),
        "required program is not installed"
    );
    assert_eq!(kind_message(ErrorKind::CommandFailure).as_str(), "external command failed");
    assert_eq!(
        kind_message(ErrorKind::ConfigCorrupt).as_str(),
        "configuration file is unreadable, please reconfigure"
    );
    assert_eq!(
        kind_message(ErrorKind::FatalIo).as_str(),
        "input/output failed, cannot continue"
    );
}

#[test]
fn log_line_format_exact() {
    let line = format_log_line("2024-01-02 03:04:05", "Easy Mode setup complete");
    assert_eq!(line.as_str(), "2024-01-02 03:04:05 - Easy Mode setup complete\n");
}

#[test]
fn appended_entries_accumulate() {
    // Logging "A" then "B" yields a two-line file holding both, the first
    // entry untouched by the second write.
    let mut log = String::new();
    let first = format_log_line("2024-01-02 03:04:05", "A");
    log.push_str(first.as_str());
    let after_first = log.clone();
    log.push_str(format_log_line("2024-01-02 03:04:06", "B").as_str());
    assert!(log.starts_with(after_first.as_str()));
    assert_eq!(log.lines().count(), 2);
    assert_eq!(log.lines().next(), Some("2024-01-02 03:04:05 - A"));
    assert_eq!(log.lines().nth(1), Some("2024-01-02 03:04:06 - B"));
}

#[test]
fn stamped_line_shape() {
    let line = log_line_now("ping");
    // timestamp (at least 19 characters), separator, message, line break
    assert!(line.len() >= 19 + 3 + 4 + 1);
    assert!(line.ends_with(" - ping\n"));
    assert_eq!(line.matches('\n').count(), 1);
}

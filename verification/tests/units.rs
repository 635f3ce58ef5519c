use trster::protocol::{BackendMessage, TestMeasure, TestResult};
use trster::test_unit::{PollAction, SpawnStep, TestingUnit, TestingUnitMessage};

fn unit(name: &str) -> TestingUnit {
    TestingUnit::new(
        "/opt/prog".to_string(),
        "/fixtures/in".to_string(),
        "/fixtures/out".to_string(),
        "/fixtures/err".to_string(),
        name.to_string(),
    )
}

#[test]
fn fixture_paths_join_with_separator() {
    let u = unit("t1");
    assert_eq!(u.in_file_path(), "/fixtures/in/t1.in");
    assert_eq!(u.out_file_path(), "/fixtures/out/t1.out");
    assert_eq!(u.err_file_path(), "/fixtures/err/t1.err");
}

#[test]
fn fixture_paths_keep_trailing_separator() {
    let u = TestingUnit::new(
        "/opt/prog".to_string(),
        "/fixtures/in/".to_string(),
        "/fixtures/out/".to_string(),
        "/fixtures/err/".to_string(),
        "t1".to_string(),
    );
    assert_eq!(u.in_file_path(), "/fixtures/in/t1.in");
    assert_eq!(u.out_file_path(), "/fixtures/out/t1.out");
    assert_eq!(u.err_file_path(), "/fixtures/err/t1.err");
}

#[test]
fn fixture_paths_of_empty_directory() {
    let u = TestingUnit::new(
        "p".to_string(),
        "".to_string(),
        "".to_string(),
        "".to_string(),
        "t".to_string(),
    );
    assert_eq!(u.in_file_path(), "/t.in");
}

#[test]
fn stdout_mismatch_fails_even_when_stderr_matches() {
    let u = unit("t1");
    let r = u.check_outcome(
        Ok("actual\n".to_string()),
        Ok("".to_string()),
        Some(0),
        Ok("expected\n".to_string()),
        Ok("".to_string()),
        42,
    );
    assert_eq!(
        r,
        TestingUnitMessage::Done {
            result: TestResult::new(
                "t1".to_string(),
                TestMeasure::Failure {
                    stdout: "actual\n".to_string(),
                    stderr: "".to_string(),
                    exit_status: Some(0),
                },
            ),
        }
    );
}

#[test]
fn stderr_is_compared_only_when_stdout_matches() {
    // With stdout mismatching, even an unreadable .err fixture is never
    // consulted: the result is a plain Failure.
    let u = unit("t1");
    let r = u.check_outcome(
        Ok("actual\n".to_string()),
        Ok("noise\n".to_string()),
        Some(1),
        Ok("expected\n".to_string()),
        Err("No such file or directory".to_string()),
        7,
    );
    assert_eq!(
        r,
        TestingUnitMessage::Done {
            result: TestResult::new(
                "t1".to_string(),
                TestMeasure::Failure {
                    stdout: "actual\n".to_string(),
                    stderr: "noise\n".to_string(),
                    exit_status: Some(1),
                },
            ),
        }
    );
}

#[test]
fn stderr_mismatch_fails() {
    let u = unit("t1");
    let r = u.check_outcome(
        Ok("same\n".to_string()),
        Ok("oops\n".to_string()),
        Some(0),
        Ok("same\n".to_string()),
        Ok("".to_string()),
        5,
    );
    assert_eq!(
        r,
        TestingUnitMessage::Done {
            result: TestResult::new(
                "t1".to_string(),
                TestMeasure::Failure {
                    stdout: "same\n".to_string(),
                    stderr: "oops\n".to_string(),
                    exit_status: Some(0),
                },
            ),
        }
    );
}

#[test]
fn matching_streams_succeed() {
    let u = unit("t1");
    let r = u.check_outcome(
        Ok("same\n".to_string()),
        Ok("log\n".to_string()),
        Some(0),
        Ok("same\n".to_string()),
        Ok("log\n".to_string()),
        321,
    );
    assert_eq!(
        r,
        TestingUnitMessage::Done {
            result: TestResult::new(
                "t1".to_string(),
                TestMeasure::Success {
                    time_millis: 321,
                    exit_status: Some(0),
                },
            ),
        }
    );
}

#[test]
fn unreadable_out_fixture_is_internal_error() {
    let u = unit("t1");
    let r = u.check_outcome(
        Ok("x".to_string()),
        Ok("".to_string()),
        Some(0),
        Err("No such file or directory (os error 2)".to_string()),
        Ok("".to_string()),
        1,
    );
    assert_eq!(
        r,
        TestingUnitMessage::Done {
            result: TestResult::new(
                "t1".to_string(),
                TestMeasure::InternalProgramError {
                    description: "No such file or directory (os error 2)".to_string(),
                },
            ),
        }
    );
}

#[test]
fn unreadable_err_fixture_is_internal_error() {
    let u = unit("t1");
    let r = u.check_outcome(
        Ok("same".to_string()),
        Ok("".to_string()),
        Some(0),
        Ok("same".to_string()),
        Err("permission denied".to_string()),
        1,
    );
    assert_eq!(
        r,
        TestingUnitMessage::Done {
            result: TestResult::new(
                "t1".to_string(),
                TestMeasure::InternalProgramError {
                    description: "permission denied".to_string(),
                },
            ),
        }
    );
}

#[test]
fn undecodable_stream_is_internal_error() {
    let u = unit("t1");
    let r = u.check_outcome(
        Err("invalid utf-8 sequence".to_string()),
        Ok("".to_string()),
        Some(0),
        Ok("same".to_string()),
        Ok("".to_string()),
        1,
    );
    assert_eq!(
        r,
        TestingUnitMessage::Done {
            result: TestResult::new(
                "t1".to_string(),
                TestMeasure::InternalProgramError {
                    description: "invalid utf-8 sequence".to_string(),
                },
            ),
        }
    );
}

#[test]
fn missing_in_fixture_aborts_before_start() {
    // A unit whose .in fixture cannot be read reports an internal error
    // whose description names the missing file, and never announces a
    // start.
    let u = unit("t2");
    let path = u.in_file_path();
    assert_eq!(path, "/fixtures/in/t2.in");
    let step = u.begin_run(Err(format!("{path}: No such file or directory")));
    match step {
        SpawnStep::Fail { report } => {
            assert_eq!(
                report,
                TestingUnitMessage::Done {
                    result: TestResult::new(
                        "t2".to_string(),
                        TestMeasure::InternalProgramError {
                            description: "/fixtures/in/t2.in: No such file or directory"
                                .to_string(),
                        },
                    ),
                }
            );
        }
        SpawnStep::Proceed { .. } => panic!("a failed fixture read must not proceed"),
    }
}

#[test]
fn readable_in_fixture_proceeds_and_starts() {
    let u = unit("t1");
    let step = u.begin_run(Ok(vec![53, 10]));
    match step {
        SpawnStep::Proceed { input, started } => {
            assert_eq!(input, vec![53, 10]);
            assert_eq!(
                started,
                TestingUnitMessage::StartedExecution {
                    name: "t1".to_string(),
                }
            );
        }
        SpawnStep::Fail { .. } => panic!("a readable fixture must proceed"),
    }
}

#[test]
fn poll_kills_only_past_the_timeout() {
    // A process that runs past its wall-clock budget is killed and
    // reported Timeout; within the budget the loop keeps waiting; an
    // exited process moves on to output comparison.
    assert_eq!(
        trster::test_unit::poll_decision(false, 1050, 1000),
        PollAction::KillAndReportTimeout
    );
    assert_eq!(
        trster::test_unit::poll_decision(false, 1000, 1000),
        PollAction::KeepWaiting
    );
    assert_eq!(
        trster::test_unit::poll_decision(false, 0, 1000),
        PollAction::KeepWaiting
    );
    assert_eq!(
        trster::test_unit::poll_decision(true, 5000, 1000),
        PollAction::CollectOutput
    );
}

#[test]
fn timeout_report_is_timeout_never_success_or_failure() {
    let result = TestingUnit::report_timing_out("t1".to_string());
    assert_eq!(result, TestResult::new("t1".to_string(), TestMeasure::Timeout));
    assert!(!matches!(result.outcome(), TestMeasure::Success { .. }));
    assert!(!matches!(result.outcome(), TestMeasure::Failure { .. }));
}

#[test]
fn unit_report_translates_to_backend_message() {
    let started = TestingUnitMessage::StartedExecution {
        name: "t1".to_string(),
    };
    assert_eq!(
        BackendMessage::from(started),
        BackendMessage::ExecutionStarted {
            test_name: "t1".to_string(),
        }
    );
    let done = TestingUnitMessage::Done {
        result: TestResult::new("t1".to_string(), TestMeasure::Timeout),
    };
    assert_eq!(
        BackendMessage::from(done),
        BackendMessage::TestCompleted {
            result: TestResult::new("t1".to_string(), TestMeasure::Timeout),
        }
    );
}

use trster::config::{Concurrency, Config, Language, RunningMode};
use trster::executor::{ExecutorGuard, Paths, TestExecutor, TestExecutorError};
use trster::protocol::{BackendMessage, TestMeasure, TestResult};
use trster::test_unit::TestingUnitMessage;

fn local_config(names: &[&str], concurrency: Concurrency) -> Config {
    Config::new(
        RunningMode::Local {
            in_test_path: "/fx/in".to_string(),
            out_test_path: "/fx/out".to_string(),
            err_test_path: "/fx/err".to_string(),
            compiled_program_path: "/opt/prog".to_string(),
        },
        names.iter().map(|n| n.to_string()).collect(),
        Language::Cpp,
        concurrency,
    )
}

#[test]
fn second_executor_is_refused() {
    let mut guard = ExecutorGuard::new();
    let first = TestExecutor::new(&mut guard);
    assert!(first.is_ok());
    let second = TestExecutor::new(&mut guard);
    assert!(matches!(second, Err(TestExecutorError::AlreadyCreated)));
}

#[test]
fn paths_come_from_the_local_mode() {
    let config = local_config(&["t1"], Concurrency::Disabled);
    let paths = Paths::new(&config);
    assert_eq!(paths.program_path, "/opt/prog");
    assert_eq!(paths.in_test_path, "/fx/in");
    assert_eq!(paths.out_test_path, "/fx/out");
    assert_eq!(paths.err_test_path, "/fx/err");
}

#[test]
fn load_tests_registers_one_unit_per_name() {
    let config = local_config(&["a", "b", "c"], Concurrency::Disabled);
    let mut guard = ExecutorGuard::new();
    let executor = trster::executor::load_tests(&config, &mut guard);
    assert_eq!(executor.tests.len(), 3);
    assert_eq!(executor.tests[0].name, "a");
    assert_eq!(executor.tests[1].name, "b");
    assert_eq!(executor.tests[2].name, "c");
    assert_eq!(executor.tests[2].program_path, "/opt/prog");
    assert_eq!(executor.tests[2].in_test_path, "/fx/in");
    assert!(guard.created);
}

fn done(name: &str, outcome: TestMeasure) -> TestingUnitMessage {
    TestingUnitMessage::Done {
        result: TestResult::new(name.to_string(), outcome),
    }
}

fn started(name: &str) -> TestingUnitMessage {
    TestingUnitMessage::StartedExecution {
        name: name.to_string(),
    }
}

#[test]
fn serial_run_launches_the_second_test_only_after_the_first_completes() {
    // Two instant successes on one concurrency slot: the second unit is
    // handed out to be launched only on the first's terminal report, so
    // its started message can only follow the first's completed message.
    let config = local_config(&["t1", "t2"], Concurrency::Disabled);
    let mut guard = ExecutorGuard::new();
    let executor = trster::executor::load_tests(&config, &mut guard);
    let (mut schedule, first_wave) = executor.schedule(1);

    assert_eq!(first_wave.len(), 1);
    assert_eq!(first_wave[0].name, "t1");
    assert!(!schedule.is_finished());

    let (msg, launch) = schedule.on_message(started("t1"));
    assert_eq!(
        msg,
        BackendMessage::ExecutionStarted {
            test_name: "t1".to_string(),
        }
    );
    assert!(launch.is_none());

    let outcome = TestMeasure::Success {
        time_millis: 1,
        exit_status: Some(0),
    };
    let (msg, launch) = schedule.on_message(done("t1", outcome.clone()));
    assert_eq!(
        msg,
        BackendMessage::TestCompleted {
            result: TestResult::new("t1".to_string(), outcome),
        }
    );
    let second = launch.expect("a freed slot must launch the waiting unit");
    assert_eq!(second.name, "t2");
    assert!(!schedule.is_finished());

    let (_, launch) = schedule.on_message(started("t2"));
    assert!(launch.is_none());
    let outcome = TestMeasure::Success {
        time_millis: 2,
        exit_status: Some(0),
    };
    let (_, launch) = schedule.on_message(done("t2", outcome));
    assert!(launch.is_none());
    assert!(schedule.is_finished());
}

#[test]
fn timed_out_run_reports_started_then_timeout_then_terminal() {
    // One test whose program outlives the budget: the stream carries its
    // started message, its Timeout completion, and then the run's one
    // terminal message.
    let config = local_config(&["t1"], Concurrency::Disabled);
    let mut guard = ExecutorGuard::new();
    let executor = trster::executor::load_tests(&config, &mut guard);
    let (mut schedule, first_wave) = executor.schedule(1);
    assert_eq!(first_wave.len(), 1);

    let mut stream = Vec::new();
    let (msg, _) = schedule.on_message(started("t1"));
    stream.push(msg);
    let (msg, launch) = schedule.on_message(done("t1", TestMeasure::Timeout));
    stream.push(msg);
    assert!(launch.is_none());
    assert!(schedule.is_finished());
    stream.push(BackendMessage::TestingProcessCompleted);

    assert_eq!(
        stream,
        vec![
            BackendMessage::ExecutionStarted {
                test_name: "t1".to_string(),
            },
            BackendMessage::TestCompleted {
                result: TestResult::new("t1".to_string(), TestMeasure::Timeout),
            },
            BackendMessage::TestingProcessCompleted,
        ]
    );
}

#[test]
fn full_run_emits_one_started_and_one_completed_per_test() {
    // Three tests on two slots: across the whole run, exactly one started
    // and one completed message per test, and never more than two
    // in-flight units.
    let config = local_config(&["a", "b", "c"], Concurrency::Enabled(2));
    let mut guard = ExecutorGuard::new();
    let executor = trster::executor::load_tests(&config, &mut guard);
    let (mut schedule, first_wave) = executor.schedule(2);
    assert_eq!(first_wave.len(), 2);

    let ok = |millis: u64| TestMeasure::Success {
        time_millis: millis,
        exit_status: Some(0),
    };

    let mut in_flight = first_wave.len();
    let mut stream = Vec::new();
    let trace = vec![
        started("a"),
        started("b"),
        done("b", ok(5)),
        started("c"),
        done("a", ok(9)),
        done("c", ok(2)),
    ];
    for event in trace {
        let (msg, launch) = schedule.on_message(event);
        if matches!(msg, BackendMessage::TestCompleted { .. }) {
            in_flight -= 1;
        }
        if let Some(_unit) = launch {
            in_flight += 1;
        }
        assert!(in_flight <= 2);
        stream.push(msg);
    }
    assert!(schedule.is_finished());

    let started_count = stream
        .iter()
        .filter(|m| matches!(m, BackendMessage::ExecutionStarted { .. }))
        .count();
    let completed_count = stream
        .iter()
        .filter(|m| matches!(m, BackendMessage::TestCompleted { .. }))
        .count();
    let terminal_count = stream
        .iter()
        .filter(|m| matches!(m, BackendMessage::TestingProcessCompleted))
        .count();
    assert_eq!(started_count, 3);
    assert_eq!(completed_count, 3);
    assert_eq!(terminal_count, 0);
}

#[test]
fn wide_schedule_launches_at_most_all_tests() {
    let config = local_config(&["a", "b"], Concurrency::Enabled(8));
    let mut guard = ExecutorGuard::new();
    let executor = trster::executor::load_tests(&config, &mut guard);
    let (schedule, first_wave) = executor.schedule(8);
    assert_eq!(first_wave.len(), 2);
    assert!(!schedule.is_finished());
}

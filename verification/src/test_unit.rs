//! One test case's lifecycle: fixture paths, the spawn-phase decision, the
//! timeout-bounded polling decision, and the comparison of captured output
//! against the golden fixtures.
//!
//! The process work itself (reading fixture files, spawning the child,
//! feeding its input, killing it) is performed by the surrounding harness
//! binary; every decision it takes is a function here, verified for every
//! value the process work can hand back.

use crate::protocol::{
    BackendMessage, MeasureView, MessageView, ResultView, TestMeasure, TestResult,
};
use vstd::prelude::*;

verus! {

/// A progress report of one test unit: the unit announces its start, and
/// later reports exactly one terminal result.
#[derive(Debug, PartialEq)]
pub enum TestingUnitMessage {
    StartedExecution { name: String },
    Done { result: TestResult },
}

/// The mathematical value of a `TestingUnitMessage`.
pub enum UnitMessageView {
    StartedExecution { name: Seq<char> },
    Done { result: ResultView },
}

impl View for TestingUnitMessage {
    type V = UnitMessageView;

    open spec fn view(&self) -> UnitMessageView {
        match self {
            TestingUnitMessage::StartedExecution { name } => UnitMessageView::StartedExecution {
                name: name@,
            },
            TestingUnitMessage::Done { result } => UnitMessageView::Done { result: result@ },
        }
    }
}

/// How a unit's progress report reads on the output stream.
pub open spec fn translate(m: UnitMessageView) -> MessageView {
    match m {
        UnitMessageView::StartedExecution { name } => MessageView::ExecutionStarted {
            test_name: name,
        },
        UnitMessageView::Done { result } => MessageView::TestCompleted { result },
    }
}

impl From<TestingUnitMessage> for BackendMessage {
    fn from(msg: TestingUnitMessage) -> (r: Self) {
        match msg {
            TestingUnitMessage::Done { result } => BackendMessage::TestCompleted { result },
            TestingUnitMessage::StartedExecution { name } => BackendMessage::ExecutionStarted {
                test_name: name,
            },
        }
    }
}

impl vstd::std_specs::convert::FromSpecImpl<TestingUnitMessage> for BackendMessage {
    open spec fn obeys_from_spec() -> bool {
        true
    }

    open spec fn from_spec(msg: TestingUnitMessage) -> Self {
        match msg {
            TestingUnitMessage::Done { result } => BackendMessage::TestCompleted { result },
            TestingUnitMessage::StartedExecution { name } => BackendMessage::ExecutionStarted {
                test_name: name,
            },
        }
    }
}

// ---------------------------------------------------------------------------
// The test unit
// ---------------------------------------------------------------------------

/// One test case, with the shared read-only paths it derives its fixture
/// files from. Created once per test name; consumed by its single run.
#[derive(Debug)]
pub struct TestingUnit {
    pub program_path: String,
    pub in_test_path: String,
    pub out_test_path: String,
    pub err_test_path: String,
    pub name: String,
}

/// `{dir}/{name}{ext}`, joining with a separator only if the directory path
/// lacks a trailing one.
pub open spec fn joined_path(dir: Seq<char>, name: Seq<char>, ext: Seq<char>) -> Seq<char> {
    if dir.len() > 0 && dir.last() == '/' {
        dir + name + ext
    } else {
        dir + "/"@ + name + ext
    }
}

/// Appends `{name}{ext}` to a copy of `dir`, inserting a separator unless
/// `dir` already ends with one.
fn join_path(dir: &String, name: &String, ext: &str) -> (r: String)
    ensures
        r@ == joined_path(dir@, name@, ext@),
{
    let d = dir.as_str();
    let n = d.unicode_len();
    let ends_with_slash = if n > 0 {
        d.get_char(n - 1) == '/'
    } else {
        false
    };
    let mut out = String::from_str(d);
    if !ends_with_slash {
        out.append("/");
    }
    out.append(name.as_str());
    out.append(ext);
    out
}

impl TestingUnit {
    pub fn new(
        program_path: String,
        in_test_path: String,
        out_test_path: String,
        err_test_path: String,
        name: String,
    ) -> (r: Self)
        ensures
            r.program_path == program_path,
            r.in_test_path == in_test_path,
            r.out_test_path == out_test_path,
            r.err_test_path == err_test_path,
            r.name == name,
    {
        TestingUnit { program_path, in_test_path, out_test_path, err_test_path, name }
    }

    /// The `.in` fixture path of this unit.
    pub fn in_file_path(&self) -> (r: String)
        ensures
            r@ == joined_path(self.in_test_path@, self.name@, ".in"@),
    {
        join_path(&self.in_test_path, &self.name, ".in")
    }

    /// The `.out` fixture path of this unit.
    pub fn out_file_path(&self) -> (r: String)
        ensures
            r@ == joined_path(self.out_test_path@, self.name@, ".out"@),
    {
        join_path(&self.out_test_path, &self.name, ".out")
    }

    /// The `.err` fixture path of this unit.
    pub fn err_file_path(&self) -> (r: String)
        ensures
            r@ == joined_path(self.err_test_path@, self.name@, ".err"@),
    {
        join_path(&self.err_test_path, &self.name, ".err")
    }

    /// Wraps a harness defect as this test's terminal result.
    pub fn report_internal_error(test_name: String, description: String) -> (r: TestResult)
        ensures
            r@ == (ResultView {
                name: test_name@,
                outcome: MeasureView::InternalProgramError { description: description@ },
            }),
    {
        let measure = TestMeasure::InternalProgramError { description };
        TestResult::new(test_name, measure)
    }

    /// Wraps a timeout as this test's terminal result.
    pub fn report_timing_out(test_name: String) -> (r: TestResult)
        ensures
            r@ == (ResultView { name: test_name@, outcome: MeasureView::Timeout }),
    {
        let measure = TestMeasure::Timeout;
        TestResult::new(test_name, measure)
    }
}

// ---------------------------------------------------------------------------
// Spawn phase
// ---------------------------------------------------------------------------

/// The decision taken when a unit is spawned.
pub enum SpawnStep {
    /// The `.in` fixture could not be read: the unit is over before it
    /// started, with an internal error and no started report.
    Fail { report: TestingUnitMessage },
    /// The fixture was read: announce the start, then feed `input` to the
    /// child process.
    Proceed { input: Vec<u8>, started: TestingUnitMessage },
}

impl TestingUnit {
    /// Decides how the run begins from the attempt to read the `.in`
    /// fixture. A read failure produces `InternalProgramError` carrying the
    /// failure's description, and no `StartedExecution` is ever reported
    /// for this unit.
    pub fn begin_run(&self, in_fixture: Result<Vec<u8>, String>) -> (r: SpawnStep)
        ensures
            in_fixture matches Err(d) ==> r matches SpawnStep::Fail { report } && report@
                == (UnitMessageView::Done {
                result: ResultView {
                    name: self.name@,
                    outcome: MeasureView::InternalProgramError { description: d@ },
                },
            }),
            in_fixture matches Ok(bytes) ==> r matches SpawnStep::Proceed { input, started }
                && input == bytes && started@ == (UnitMessageView::StartedExecution {
                name: self.name@,
            }),
    {
        match in_fixture {
            Err(description) => SpawnStep::Fail {
                report: TestingUnitMessage::Done {
                    result: Self::report_internal_error(self.name.clone(), description),
                },
            },
            Ok(input) => SpawnStep::Proceed {
                input,
                started: TestingUnitMessage::StartedExecution { name: self.name.clone() },
            },
        }
    }
}

// ---------------------------------------------------------------------------
// Polling phase
// ---------------------------------------------------------------------------

/// What the polling loop does next with a running child process.
#[derive(Debug, PartialEq)]
pub enum PollAction {
    /// The child ran past the wall-clock budget: kill it and report
    /// `Timeout`.
    KillAndReportTimeout,
    /// The child is still running within its budget: sleep one poll
    /// interval and check again.
    KeepWaiting,
    /// The child has exited: collect its output and compare it.
    CollectOutput,
}

/// The polling loop's decision on one status check: a process that has not
/// exited once elapsed time exceeds the configured timeout is killed and
/// reported `Timeout`, never anything else; a process that has exited moves
/// on to output comparison.
pub fn poll_decision(exited: bool, elapsed_millis: u64, timeout_millis: u64) -> (r: PollAction)
    ensures
        r is KillAndReportTimeout <==> !exited && elapsed_millis > timeout_millis,
        r is CollectOutput <==> exited,
        r is KeepWaiting <==> !exited && elapsed_millis <= timeout_millis,
{
    if exited {
        PollAction::CollectOutput
    } else if elapsed_millis > timeout_millis {
        PollAction::KillAndReportTimeout
    } else {
        PollAction::KeepWaiting
    }
}

// ---------------------------------------------------------------------------
// Output comparison
// ---------------------------------------------------------------------------

/// The outcome of a completed run, decided from the decoded streams, the
/// fixture contents, and the exit status. An `Err` among the inputs carries
/// the description of a read or decode failure.
pub open spec fn spec_outcome(
    name: Seq<char>,
    stdout: Result<Seq<char>, Seq<char>>,
    stderr: Result<Seq<char>, Seq<char>>,
    exit_status: Option<i32>,
    out_fixture: Result<Seq<char>, Seq<char>>,
    err_fixture: Result<Seq<char>, Seq<char>>,
    elapsed_millis: u64,
) -> ResultView {
    match out_fixture {
        Err(d) => ResultView { name, outcome: MeasureView::InternalProgramError { description: d } },
        Ok(expected_out) => match stdout {
            Err(d) => ResultView {
                name,
                outcome: MeasureView::InternalProgramError { description: d },
            },
            Ok(so) => match stderr {
                Err(d) => ResultView {
                    name,
                    outcome: MeasureView::InternalProgramError { description: d },
                },
                Ok(se) => {
                    if so != expected_out {
                        ResultView {
                            name,
                            outcome: MeasureView::Failure {
                                stdout: so,
                                stderr: se,
                                exit_status,
                            },
                        }
                    } else {
                        match err_fixture {
                            Err(d) => ResultView {
                                name,
                                outcome: MeasureView::InternalProgramError { description: d },
                            },
                            Ok(expected_err) => {
                                if se != expected_err {
                                    ResultView {
                                        name,
                                        outcome: MeasureView::Failure {
                                            stdout: so,
                                            stderr: se,
                                            exit_status,
                                        },
                                    }
                                } else {
                                    ResultView {
                                        name,
                                        outcome: MeasureView::Success {
                                            time_millis: elapsed_millis,
                                            exit_status,
                                        },
                                    }
                                }
                            },
                        }
                    }
                },
            },
        },
    }
}

impl TestingUnit {
    /// Compares a completed run against its fixtures and reports the
    /// terminal result. The `.out` fixture is checked against the decoded
    /// stdout first; the `.err` fixture is consulted only when stdout
    /// matches. Unreadable fixtures and undecodable streams are harness
    /// defects (`InternalProgramError`), not test failures.
    pub fn check_outcome(
        self,
        stdout: Result<String, String>,
        stderr: Result<String, String>,
        exit_status: Option<i32>,
        out_fixture: Result<String, String>,
        err_fixture: Result<String, String>,
        elapsed_millis: u64,
    ) -> (r: TestingUnitMessage)
        ensures
            r matches TestingUnitMessage::Done { result } && result@ == spec_outcome(
                self.name@,
                res_view(stdout),
                res_view(stderr),
                exit_status,
                res_view(out_fixture),
                res_view(err_fixture),
                elapsed_millis,
            ),
    {
        let out_file = match out_fixture {
            Err(d) => {
                return TestingUnitMessage::Done {
                    result: Self::report_internal_error(self.name, d),
                };
            },
            Ok(content) => content,
        };
        let program_stdout = match stdout {
            Err(d) => {
                return TestingUnitMessage::Done {
                    result: Self::report_internal_error(self.name, d),
                };
            },
            Ok(s) => s,
        };
        let program_stderr = match stderr {
            Err(d) => {
                return TestingUnitMessage::Done {
                    result: Self::report_internal_error(self.name, d),
                };
            },
            Ok(s) => s,
        };
        if program_stdout != out_file {
            return self.failed_test(program_stdout, program_stderr, exit_status);
        }
        let err_file = match err_fixture {
            Err(d) => {
                return TestingUnitMessage::Done {
                    result: Self::report_internal_error(self.name, d),
                };
            },
            Ok(content) => content,
        };
        if program_stderr != err_file {
            return self.failed_test(program_stdout, program_stderr, exit_status);
        }
        TestingUnitMessage::Done {
            result: TestResult::new(
                self.name,
                TestMeasure::Success { time_millis: elapsed_millis, exit_status },
            ),
        }
    }

    /// Wraps an output mismatch as this test's terminal result, carrying
    /// both captured streams and the exit status for diagnosis.
    pub fn failed_test(self, stdout: String, stderr: String, exit_status: Option<i32>) -> (r:
        TestingUnitMessage)
        ensures
            r@ == (UnitMessageView::Done {
                result: ResultView {
                    name: self.name@,
                    outcome: MeasureView::Failure {
                        stdout: stdout@,
                        stderr: stderr@,
                        exit_status,
                    },
                },
            }),
    {
        TestingUnitMessage::Done {
            result: TestResult::new(
                self.name,
                TestMeasure::Failure { stdout, stderr, exit_status },
            ),
        }
    }
}

/// The value carried by a string-or-description result.
pub open spec fn res_view(r: Result<String, String>) -> Result<Seq<char>, Seq<char>> {
    match r {
        Ok(s) => Ok(s@),
        Err(e) => Err(e@),
    }
}

/// A test whose decoded stdout differs from its `.out` fixture fails, even
/// if stderr matches its fixture; stderr is compared only when stdout
/// matches, and only a run matching both fixtures succeeds.
pub proof fn lemma_stdout_short_circuit(
    name: Seq<char>,
    so: Seq<char>,
    se: Seq<char>,
    exit_status: Option<i32>,
    eo: Seq<char>,
    ee: Seq<char>,
    elapsed_millis: u64,
)
    ensures
        so != eo ==> spec_outcome(name, Ok(so), Ok(se), exit_status, Ok(eo), Ok(ee), elapsed_millis)
            == (ResultView {
            name,
            outcome: MeasureView::Failure { stdout: so, stderr: se, exit_status },
        }),
        so == eo && se != ee ==> spec_outcome(
            name,
            Ok(so),
            Ok(se),
            exit_status,
            Ok(eo),
            Ok(ee),
            elapsed_millis,
        ) == (ResultView {
            name,
            outcome: MeasureView::Failure { stdout: so, stderr: se, exit_status },
        }),
        so == eo && se == ee ==> spec_outcome(
            name,
            Ok(so),
            Ok(se),
            exit_status,
            Ok(eo),
            Ok(ee),
            elapsed_millis,
        ) == (ResultView {
            name,
            outcome: MeasureView::Success { time_millis: elapsed_millis, exit_status },
        }),
{
}

} // verus!

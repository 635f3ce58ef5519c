//! The bounded-concurrency scheduler: it owns the registered test units,
//! launches up to the configured number of them, and on every terminal
//! report refills the freed slot, translating each report into one output
//! message.
//!
//! The surrounding harness binary runs the actual receive loop (threads and
//! the completion channel); every decision of that loop — what to emit and
//! what to launch next — is taken here, and the concurrency bound and the
//! message counts are proved over a model of the loop's whole trace.

use crate::config::{Config, RunningMode};
use crate::protocol::{BackendMessage, MessageView};
use crate::test_unit::{translate, TestingUnit, TestingUnitMessage, UnitMessageView};
use vstd::prelude::*;

verus! {

/// The executor's construction failure: a prior instance was already
/// created in this process.
#[derive(Debug, PartialEq)]
pub enum TestExecutorError {
    AlreadyCreated,
}

/// The per-process exclusivity token the executor's constructor consumes:
/// the caller makes one at startup and every construction is checked
/// against it, so only one executor runs per process.
pub struct ExecutorGuard {
    pub created: bool,
}

impl ExecutorGuard {
    pub fn new() -> (r: Self)
        ensures
            !r.created,
    {
        ExecutorGuard { created: false }
    }
}

/// The shared read-only paths every test unit derives its files from.
#[derive(Debug)]
pub struct Paths {
    pub program_path: String,
    pub in_test_path: String,
    pub out_test_path: String,
    pub err_test_path: String,
}

impl Clone for Paths {
    fn clone(&self) -> (r: Self)
        ensures
            r.program_path == self.program_path,
            r.in_test_path == self.in_test_path,
            r.out_test_path == self.out_test_path,
            r.err_test_path == self.err_test_path,
    {
        Paths {
            program_path: self.program_path.clone(),
            in_test_path: self.in_test_path.clone(),
            out_test_path: self.out_test_path.clone(),
            err_test_path: self.err_test_path.clone(),
        }
    }
}

impl Paths {
    /// Takes the four paths out of a local-mode configuration. The git
    /// repository mode is declared but not yet actionable, so the caller
    /// must have checked the mode first.
    pub fn new(config: &Config) -> (r: Self)
        requires
            config.mode is Local,
        ensures
            config.mode matches RunningMode::Local {
                in_test_path,
                out_test_path,
                err_test_path,
                compiled_program_path,
            } && r.program_path == compiled_program_path && r.in_test_path == in_test_path
                && r.out_test_path == out_test_path && r.err_test_path == err_test_path,
    {
        match config.running_mode() {
            RunningMode::Local {
                in_test_path,
                out_test_path,
                err_test_path,
                compiled_program_path,
            } => Paths {
                program_path: compiled_program_path.clone(),
                in_test_path: in_test_path.clone(),
                out_test_path: out_test_path.clone(),
                err_test_path: err_test_path.clone(),
            },
            RunningMode::GitRepository { .. } => unreached(),
        }
    }
}

// ---------------------------------------------------------------------------
// The executor
// ---------------------------------------------------------------------------

/// The executor before the run: the registered test units, in registration
/// order.
#[derive(Debug)]
pub struct TestExecutor {
    pub tests: Vec<TestingUnit>,
}

impl TestExecutor {
    /// Constructs the process's one executor, or refuses when the guard
    /// says one was already created.
    pub fn new(guard: &mut ExecutorGuard) -> (r: Result<TestExecutor, TestExecutorError>)
        ensures
            old(guard).created ==> (r matches Err(TestExecutorError::AlreadyCreated)
                && *final(guard) == *old(guard)),
            !old(guard).created ==> final(guard).created,
            !old(guard).created ==> (r matches Ok(e) && e.tests@.len() == 0),
    {
        if guard.created {
            Err(TestExecutorError::AlreadyCreated)
        } else {
            guard.created = true;
            Ok(TestExecutor { tests: Vec::new() })
        }
    }

    /// Registers one test: a unit is appended that derives its fixture
    /// files from `paths` under `test_name`.
    pub fn push_test(&mut self, paths: Paths, test_name: String)
        ensures
            final(self).tests@ == old(self).tests@.push(
                TestingUnit {
                    program_path: paths.program_path,
                    in_test_path: paths.in_test_path,
                    out_test_path: paths.out_test_path,
                    err_test_path: paths.err_test_path,
                    name: test_name,
                },
            ),
    {
        self.tests.push(
            TestingUnit {
                program_path: paths.program_path,
                in_test_path: paths.in_test_path,
                out_test_path: paths.out_test_path,
                err_test_path: paths.err_test_path,
                name: test_name,
            },
        );
    }
}

/// The executor's interface to the run: consumes the executor and blocks
/// until every test finished and every message was flushed. The harness
/// binary implements it around the scheduler below, since the run itself
/// spawns processes and threads.
pub trait Executor {
    fn execute_testing(self, config: &Config);
}

/// Builds the executor for a configuration: one unit per test name, in the
/// configuration's order, all sharing the local mode's four paths.
pub fn load_tests(config: &Config, guard: &mut ExecutorGuard) -> (r: TestExecutor)
    requires
        !old(guard).created,
        config.mode is Local,
    ensures
        final(guard).created,
        config.mode matches RunningMode::Local {
            in_test_path,
            out_test_path,
            err_test_path,
            compiled_program_path,
        } && r.tests@.len() == config.test_list@.len() && (forall|i: int|
            0 <= i < r.tests@.len() ==> r.tests@[i] == (TestingUnit {
                program_path: compiled_program_path,
                in_test_path,
                out_test_path,
                err_test_path,
                name: config.test_list@[i],
            })),
{
    let mut executor = match TestExecutor::new(guard) {
        Ok(e) => e,
        Err(_) => unreached(),
    };
    let paths = Paths::new(config);
    let names = config.test_names();
    let n = names.len();
    let mut i: usize = 0;
    while i < n
        invariant
            n == config.test_list@.len(),
            0 <= i <= n,
            config.mode is Local,
            paths.program_path == config.mode->Local_compiled_program_path,
            paths.in_test_path == config.mode->Local_in_test_path,
            paths.out_test_path == config.mode->Local_out_test_path,
            paths.err_test_path == config.mode->Local_err_test_path,
            executor.tests@.len() == i,
            forall|j: int|
                0 <= j < i ==> executor.tests@[j] == (TestingUnit {
                    program_path: config.mode->Local_compiled_program_path,
                    in_test_path: config.mode->Local_in_test_path,
                    out_test_path: config.mode->Local_out_test_path,
                    err_test_path: config.mode->Local_err_test_path,
                    name: config.test_list@[j],
                }),
        decreases n - i,
    {
        let name = config.test_names()[i].clone();
        executor.push_test(paths.clone(), name);
        i = i + 1;
    }
    executor
}

// ---------------------------------------------------------------------------
// The scheduler's state and its model
// ---------------------------------------------------------------------------

/// The abstract state of the receive loop: how many units were launched and
/// how many reported done, against the totals of the run.
pub struct ScheduleModel {
    pub total: nat,
    pub cap: nat,
    pub launched: nat,
    pub completed: nat,
}

/// How many units the run launches up front: one per concurrency slot, but
/// never more than there are tests.
pub open spec fn initial_launch(total: nat, cap: nat) -> nat {
    if cap <= total {
        cap
    } else {
        total
    }
}

pub open spec fn init_model(total: nat, cap: nat) -> ScheduleModel {
    ScheduleModel { total, cap, launched: initial_launch(total, cap), completed: 0 }
}

pub open spec fn model_wf(s: ScheduleModel) -> bool {
    &&& s.completed <= s.launched <= s.total
    &&& s.launched - s.completed <= s.cap
    &&& s.cap >= 1
}

/// One step of the receive loop: a started report changes nothing; a
/// terminal report frees a slot and, if any unit is still unlaunched,
/// fills the slot again at once.
pub open spec fn step_model(s: ScheduleModel, m: UnitMessageView) -> ScheduleModel {
    match m {
        UnitMessageView::StartedExecution { .. } => s,
        UnitMessageView::Done { .. } => {
            if s.completed < s.launched {
                ScheduleModel {
                    total: s.total,
                    cap: s.cap,
                    launched: if s.launched < s.total {
                        (s.launched + 1) as nat
                    } else {
                        s.launched
                    },
                    completed: (s.completed + 1) as nat,
                }
            } else {
                s
            }
        },
    }
}

/// The state after the loop consumed a whole trace of unit reports.
pub open spec fn run_model(s: ScheduleModel, t: Seq<UnitMessageView>) -> ScheduleModel
    decreases t.len(),
{
    if t.len() == 0 {
        s
    } else {
        run_model(step_model(s, t[0]), t.skip(1))
    }
}

pub proof fn lemma_step_preserves_wf(s: ScheduleModel, m: UnitMessageView)
    requires
        model_wf(s),
    ensures
        model_wf(step_model(s, m)),
{
}

pub proof fn lemma_run_preserves_wf(s: ScheduleModel, t: Seq<UnitMessageView>)
    requires
        model_wf(s),
    ensures
        model_wf(run_model(s, t)),
        run_model(s, t).cap == s.cap,
        run_model(s, t).total == s.total,
    decreases t.len(),
{
    if t.len() > 0 {
        lemma_step_preserves_wf(s, t[0]);
        lemma_run_preserves_wf(step_model(s, t[0]), t.skip(1));
    }
}

/// At no point during a run do more than `cap` units (the configured
/// concurrency slots, or 1 when concurrency is disabled) stand launched but
/// unfinished: after any prefix of the loop's trace, the number of
/// in-flight units is at most the bound.
pub proof fn lemma_concurrency_never_exceeded(
    total: nat,
    cap: nat,
    t: Seq<UnitMessageView>,
    i: int,
)
    requires
        cap >= 1,
        0 <= i <= t.len(),
    ensures
        run_model(init_model(total, cap), t.take(i)).launched - run_model(
            init_model(total, cap),
            t.take(i),
        ).completed <= cap,
{
    assert(model_wf(init_model(total, cap)));
    lemma_run_preserves_wf(init_model(total, cap), t.take(i));
    assert(model_wf(run_model(init_model(total, cap), t.take(i))));
}

// ---------------------------------------------------------------------------
// Message counting over a whole run
// ---------------------------------------------------------------------------

/// The output stream of a trace: each unit report is translated into
/// exactly one message, in the order received, with no reordering and no
/// batching.
pub open spec fn emitted_log(t: Seq<UnitMessageView>) -> Seq<MessageView> {
    t.map_values(|m: UnitMessageView| translate(m))
}

pub open spec fn count_done(t: Seq<UnitMessageView>) -> nat
    decreases t.len(),
{
    if t.len() == 0 {
        0
    } else {
        (if t[0] is Done {
            1nat
        } else {
            0nat
        }) + count_done(t.skip(1))
    }
}

pub open spec fn count_started(t: Seq<UnitMessageView>) -> nat
    decreases t.len(),
{
    if t.len() == 0 {
        0
    } else {
        (if t[0] is StartedExecution {
            1nat
        } else {
            0nat
        }) + count_started(t.skip(1))
    }
}

pub open spec fn count_completed_msgs(l: Seq<MessageView>) -> nat
    decreases l.len(),
{
    if l.len() == 0 {
        0
    } else {
        (if l[0] is TestCompleted {
            1nat
        } else {
            0nat
        }) + count_completed_msgs(l.skip(1))
    }
}

pub open spec fn count_started_msgs(l: Seq<MessageView>) -> nat
    decreases l.len(),
{
    if l.len() == 0 {
        0
    } else {
        (if l[0] is ExecutionStarted {
            1nat
        } else {
            0nat
        }) + count_started_msgs(l.skip(1))
    }
}

pub open spec fn count_terminal_msgs(l: Seq<MessageView>) -> nat
    decreases l.len(),
{
    if l.len() == 0 {
        0
    } else {
        (if l[0] is TestingProcessCompleted {
            1nat
        } else {
            0nat
        }) + count_terminal_msgs(l.skip(1))
    }
}

proof fn lemma_emitted_counts(t: Seq<UnitMessageView>)
    ensures
        count_completed_msgs(emitted_log(t)) == count_done(t),
        count_started_msgs(emitted_log(t)) == count_started(t),
        count_terminal_msgs(emitted_log(t)) == 0,
    decreases t.len(),
{
    if t.len() > 0 {
        assert(emitted_log(t).skip(1) =~= emitted_log(t.skip(1)));
        lemma_emitted_counts(t.skip(1));
    } else {
        assert(emitted_log(t) =~= Seq::<MessageView>::empty());
    }
}

/// The output stream is the trace, message for message: flush order is
/// exactly the order in which the loop receives the reports, with no
/// reordering and no batching. In particular a test's started message
/// precedes its completed message whenever the unit reported them in that
/// order.
pub proof fn lemma_stream_order(t: Seq<UnitMessageView>)
    ensures
        emitted_log(t).len() == t.len(),
        forall|i: int| 0 <= i < t.len() ==> emitted_log(t)[i] == translate(t[i]),
{
}

/// Over a full run with `k` test names, every unit reports exactly one
/// terminal `Done` and every unit that spawned reports one start, so the
/// output stream carries exactly `k` `TestCompleted` messages and exactly
/// `k` `ExecutionStarted` messages, and no `TestingProcessCompleted` — the
/// single terminal message is appended once by the driver, after the loop.
pub proof fn lemma_exactly_k_messages(t: Seq<UnitMessageView>, k: nat)
    requires
        count_done(t) == k,
        count_started(t) == k,
    ensures
        count_completed_msgs(emitted_log(t)) == k,
        count_started_msgs(emitted_log(t)) == k,
        count_terminal_msgs(emitted_log(t)) == 0,
{
    lemma_emitted_counts(t);
}

// ---------------------------------------------------------------------------
// The scheduler
// ---------------------------------------------------------------------------

/// The receive loop's concrete state: the units not yet launched, and the
/// counters the model abstracts.
pub struct ExecutorSchedule {
    pub pending: Vec<TestingUnit>,
    pub total: usize,
    pub cap: u64,
    pub launched: usize,
    pub completed: usize,
}

impl ExecutorSchedule {
    pub open spec fn model(&self) -> ScheduleModel {
        ScheduleModel {
            total: self.total as nat,
            cap: self.cap as nat,
            launched: self.launched as nat,
            completed: self.completed as nat,
        }
    }

    pub open spec fn wf(&self) -> bool {
        &&& model_wf(self.model())
        &&& self.launched + self.pending@.len() == self.total
    }

    /// Whether every test has reported its terminal result.
    pub fn is_finished(&self) -> (r: bool)
        ensures
            r == (self.completed == self.total),
    {
        self.completed == self.total
    }

    /// The receive loop's decision on one unit report: the report is
    /// translated into the one message to flush, and — only on a terminal
    /// report — the next unlaunched unit, if any, is handed back to be
    /// launched at once into the freed slot.
    pub fn on_message(&mut self, msg: TestingUnitMessage) -> (r: (
        BackendMessage,
        Option<TestingUnit>,
    ))
        requires
            old(self).wf(),
        ensures
            final(self).wf(),
            final(self).model() == step_model(old(self).model(), msg@),
            r.0@ == translate(msg@),
            r.1 is Some ==> msg@ is Done,
            msg@ is StartedExecution ==> r.1 is None
                && final(self).pending@ == old(self).pending@,
            msg@ is Done && old(self).completed < old(self).launched
                && old(self).pending@.len() > 0 ==> r.1 == Some(old(self).pending@[0])
                && final(self).pending@ == old(self).pending@.skip(1),
            msg@ is Done && old(self).pending@.len() == 0 ==> r.1 is None
                && final(self).pending@ == old(self).pending@,
    {
        let launch: Option<TestingUnit> = match &msg {
            TestingUnitMessage::StartedExecution { .. } => None,
            TestingUnitMessage::Done { .. } => {
                if self.completed < self.launched {
                    self.completed = self.completed + 1;
                    if self.pending.len() > 0 {
                        let unit = self.pending.remove(0);
                        self.launched = self.launched + 1;
                        Some(unit)
                    } else {
                        None
                    }
                } else {
                    None
                }
            },
        };
        let out = BackendMessage::from(msg);
        (out, launch)
    }
}

impl TestExecutor {
    /// Turns the registered units into a running schedule: the first
    /// min(`max_concurrent`, total) units are handed back to be launched at
    /// once, the rest wait for freed slots.
    pub fn schedule(self, max_concurrent: u64) -> (r: (ExecutorSchedule, Vec<TestingUnit>))
        requires
            max_concurrent >= 1,
        ensures
            r.0.wf(),
            r.0.model() == init_model(self.tests@.len() as nat, max_concurrent as nat),
            r.1@ == self.tests@.take(initial_launch(self.tests@.len() as nat, max_concurrent as nat) as int),
            r.0.pending@ == self.tests@.skip(initial_launch(self.tests@.len() as nat, max_concurrent as nat) as int),
    {
        let mut tests = self.tests;
        let total = tests.len();
        let k: usize = if max_concurrent >= total as u64 {
            total
        } else {
            max_concurrent as usize
        };
        let pending = tests.split_off(k);
        let schedule = ExecutorSchedule {
            pending,
            total,
            cap: max_concurrent,
            launched: k,
            completed: 0,
        };
        (schedule, tests)
    }
}

} // verus!

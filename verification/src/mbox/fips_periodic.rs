//! Periodic self-tests in the background.

use vstd::prelude::*;

use crate::machine;
use crate::machine::{Machine, Progress};
use crate::pldm::timer::{Hz, Milliseconds, SleepFor, SleepPhase};

verus! {

/// The time between two self-tests, in milliseconds.
pub const FIPS_PERIODIC_INTERVAL_MS: u32 = 60_000;

/// No self-test has been run.
pub const RESULT_NOT_RUN: u32 = 0;

/// The last self-test has passed.
pub const RESULT_PASS: u32 = 1;

/// The last self-test has failed.
pub const RESULT_FAIL: u32 = 2;

/// How often the result of a self-test is asked for.
pub const MAX_POLL_ITERATIONS: u32 = 100;

/// The time before the result is asked for, in milliseconds.
pub const POLL_INTERVAL_MS: u32 = 100;

/// The frequency that is taken for the clock's own where the clock does not
/// tell.
pub const DEFAULT_FREQUENCY: u32 = 1000;

/// The state of the periodic self-test.
#[derive(Copy, Clone, Debug, PartialEq, Eq)]
pub struct FipsState {
    /// Whether the self-test is to be run.
    pub enabled: bool,
    /// The number of self-tests that have been run. It wraps around.
    pub iterations: u32,
    /// How the last one ended.
    pub last_result: u32,
    /// Whether `enabled` has been set since the task last looked.
    pub state_changed: bool,
}

impl FipsState {
    /// The state before anything has happened.
    pub fn new() -> (state: FipsState)
        ensures
            state == (FipsState {
                enabled: false,
                iterations: 0,
                last_result: RESULT_NOT_RUN,
                state_changed: false,
            }),
    {
        FipsState {
            enabled: false,
            iterations: 0,
            last_result: RESULT_NOT_RUN,
            state_changed: false,
        }
    }

    /// The state after `set_enabled`.
    pub open spec fn set_enabled_spec(self, enable: bool) -> FipsState {
        FipsState { enabled: enable, state_changed: true, ..self }
    }

    /// The state after a self-test.
    pub open spec fn tested(self, passed: bool) -> FipsState {
        FipsState {
            iterations: self.iterations.wrapping_add(1),
            last_result: if passed {
                RESULT_PASS
            } else {
                RESULT_FAIL
            },
            ..self
        }
    }
}

/// Whether the periodic self-test is enabled.
pub fn is_enabled(state: &FipsState) -> (enabled: bool)
    ensures
        enabled == state.enabled,
{
    state.enabled
}

/// Enables or disables the periodic self-test.
pub fn set_enabled(state: &mut FipsState, enable: bool)
    ensures
        *final(state) == old(state).set_enabled_spec(enable),
{
    state.enabled = enable;
    state.state_changed = true;
}

/// The number of completed iterations.
pub fn get_iterations(state: &FipsState) -> (iterations: u32)
    ensures
        iterations == state.iterations,
{
    state.iterations
}

/// The last result status.
pub fn get_last_result(state: &FipsState) -> (result: u32)
    ensures
        result == state.last_result,
{
    state.last_result
}

/// The full status: whether the self-test is enabled, the number of completed
/// iterations and the last result.
pub fn get_status(state: &FipsState) -> (status: (bool, u32, u32))
    ensures
        status == (state.enabled, state.iterations, state.last_result),
{
    (is_enabled(state), get_iterations(state), get_last_result(state))
}

/// Starts to sleep. How the sleep ends does not matter.
pub fn sleep_ms(ms: u32) -> (s: SleepFor<Milliseconds>)
    ensures
        s == (SleepFor {
            time: Milliseconds(ms),
            otherwise: Some(Hz(DEFAULT_FREQUENCY)),
            phase: SleepPhase::Frequency,
        }),
{
    SleepFor {
        time: Milliseconds(ms),
        otherwise: Some(Hz(DEFAULT_FREQUENCY)),
        phase: SleepPhase::Frequency,
    }
}

/// How a self-test ended.
#[derive(Copy, Clone, Debug, PartialEq, Eq, Structural)]
pub enum SelfTestEnd {
    Passed,
    /// It could not be started.
    NotStarted,
    /// It was asked for its result as often as it may be.
    TimedOut,
}

impl SelfTestEnd {
    /// Whether the self-test has passed.
    pub fn passed(&self) -> (passed: bool)
        ensures
            passed == (*self is Passed),
    {
        matches!(self, SelfTestEnd::Passed)
    }
}

/// What a self-test asks for.
#[derive(Copy, Clone, Debug, PartialEq, Eq, Structural)]
pub enum SelfTestAsk {
    /// Send the command that starts it.
    Start,
    /// Sleep for that many milliseconds.
    Sleep { ms: u32 },
    /// Send the command that asks for its result.
    GetResults,
}

/// What a self-test is answered.
#[derive(Copy, Clone, Debug, PartialEq, Eq, Structural)]
pub enum SelfTestAnswer {
    /// Whether the command succeeded.
    Executed { ok: bool },
    /// The sleep is over.
    Slept,
}

/// How far a self-test has come.
#[derive(Copy, Clone, Debug, PartialEq, Eq, Structural)]
pub enum SelfTest {
    Starting,
    /// Sleeping, with `polls` results asked for so far.
    Sleeping { polls: u32 },
    /// Asking for the result, with `polls` asked for before.
    Polling { polls: u32 },
}

/// Starts a single self-test: it is started, and then its result is asked for
/// at intervals until that succeeds, a limited number of times.
pub fn run_fips_self_test() -> (test: SelfTest)
    ensures
        test == SelfTest::Starting,
        test.wf(),
{
    SelfTest::Starting
}

impl Machine for SelfTest {
    type Ask = SelfTestAsk;

    type Answer = SelfTestAnswer;

    type Out = SelfTestEnd;

    open spec fn wf(self) -> bool {
        match self {
            SelfTest::Starting => true,
            SelfTest::Sleeping { polls } => polls < MAX_POLL_ITERATIONS,
            SelfTest::Polling { polls } => polls < MAX_POLL_ITERATIONS,
        }
    }

    open spec fn question(self) -> SelfTestAsk {
        match self {
            SelfTest::Starting => SelfTestAsk::Start,
            SelfTest::Sleeping { .. } => SelfTestAsk::Sleep { ms: POLL_INTERVAL_MS },
            SelfTest::Polling { .. } => SelfTestAsk::GetResults,
        }
    }

    open spec fn accepts(self, answer: SelfTestAnswer) -> bool {
        self is Sleeping == (answer is Slept)
    }

    open spec fn after(self, answer: SelfTestAnswer) -> Progress<SelfTest, SelfTestEnd> {
        let ok = answer == SelfTestAnswer::Executed { ok: true };
        match self {
            SelfTest::Starting => if ok {
                Progress::Pending(SelfTest::Sleeping { polls: 0 })
            } else {
                Progress::Done(SelfTestEnd::NotStarted)
            },
            SelfTest::Sleeping { polls } => Progress::Pending(SelfTest::Polling { polls }),
            SelfTest::Polling { polls } => if ok {
                Progress::Done(SelfTestEnd::Passed)
            } else if polls + 1 < MAX_POLL_ITERATIONS {
                Progress::Pending(SelfTest::Sleeping { polls: (polls + 1) as u32 })
            } else {
                Progress::Done(SelfTestEnd::TimedOut)
            },
        }
    }

    proof fn after_is_wf(self, answer: SelfTestAnswer) {
    }

    fn ask(&self) -> (asked: SelfTestAsk) {
        match self {
            SelfTest::Starting => SelfTestAsk::Start,
            SelfTest::Sleeping { .. } => SelfTestAsk::Sleep { ms: POLL_INTERVAL_MS },
            SelfTest::Polling { .. } => SelfTestAsk::GetResults,
        }
    }

    fn resume(self, answer: SelfTestAnswer) -> (next: Progress<SelfTest, SelfTestEnd>) {
        let ok = matches!(answer, SelfTestAnswer::Executed { ok: true });
        match self {
            SelfTest::Starting => if ok {
                Progress::Pending(SelfTest::Sleeping { polls: 0 })
            } else {
                Progress::Done(SelfTestEnd::NotStarted)
            },
            SelfTest::Sleeping { polls } => Progress::Pending(SelfTest::Polling { polls }),
            SelfTest::Polling { polls } => if ok {
                Progress::Done(SelfTestEnd::Passed)
            } else if polls + 1 < MAX_POLL_ITERATIONS {
                Progress::Pending(SelfTest::Sleeping { polls: polls + 1 })
            } else {
                Progress::Done(SelfTestEnd::TimedOut)
            },
        }
    }
}

/// The questions of a self-test in their order: one start, then a sleep before
/// each of the polls.
pub open spec fn self_test_plan() -> Seq<SelfTestAsk> {
    Seq::new(
        (1 + 2 * MAX_POLL_ITERATIONS) as nat,
        |i: int|
            if i == 0 {
                SelfTestAsk::Start
            } else if i % 2 == 1 {
                SelfTestAsk::Sleep { ms: POLL_INTERVAL_MS }
            } else {
                SelfTestAsk::GetResults
            },
    )
}

/// Whether a command of the self-test has succeeded.
pub open spec fn succeeded(answer: SelfTestAnswer) -> bool {
    answer == SelfTestAnswer::Executed { ok: true }
}

/// A self-test asks the questions of its plan in their order and no others. It
/// passes as soon as a poll succeeds, ends as not started if the start fails,
/// and ends as timed out if the last poll fails; until then it goes on.
pub proof fn law_self_test(answers: Seq<SelfTestAnswer>)
    requires
        machine::answered(Progress::Pending(SelfTest::Starting), answers),
    ensures
        ({
            let p = Progress::Pending(SelfTest::Starting);
            let n = answers.len() as int;
            &&& n <= self_test_plan().len()
            &&& machine::asked(p, answers) == self_test_plan().take(n)
            &&& n > 1 ==> succeeded(answers[0])
            &&& forall|i: int|
                0 < i < n - 1 && i % 2 == 0 ==> !succeeded(#[trigger] answers[i])
            &&& machine::run(p, answers) == if n == 1 && !succeeded(answers[0]) {
                Progress::Done(SelfTestEnd::NotStarted)
            } else if n > 1 && n % 2 == 1 && succeeded(answers.last()) {
                Progress::Done(SelfTestEnd::Passed)
            } else if n == self_test_plan().len() {
                Progress::Done(SelfTestEnd::TimedOut)
            } else if n == 0 {
                Progress::Pending(SelfTest::Starting)
            } else if n % 2 == 1 {
                Progress::Pending(SelfTest::Sleeping { polls: (n / 2) as u32 })
            } else {
                Progress::Pending(SelfTest::Polling { polls: (n / 2 - 1) as u32 })
            }
        }),
    decreases answers.len(),
{
    let plan = self_test_plan();
    if answers.len() == 0 {
        assert(plan.take(0) =~= Seq::empty());
    } else {
        let before = answers.drop_last();
        law_self_test(before);
        let n = before.len() as int;
        assert(plan.take(n + 1) =~= plan.take(n).push(plan[n]));
        assert forall|i: int| 0 < i < answers.len() - 1 && i % 2 == 0 implies !succeeded(
            #[trigger] answers[i],
        ) by {
            assert(answers[i] == before[i]);
        }
    }
}

/// The background task.
#[derive(Copy, Clone, Debug, PartialEq, Eq, Structural)]
pub enum FipsPeriodic {
    /// A self-test is being run.
    Testing(SelfTest),
    /// The time between two self-tests is being slept.
    Pausing,
    /// The self-test is disabled. The task waits for that to change.
    Waiting,
}

/// What the task asks for.
#[derive(Copy, Clone, Debug, PartialEq, Eq, Structural)]
pub enum PeriodicAsk {
    Test(SelfTestAsk),
    /// Sleep for that many milliseconds.
    Pause { ms: u32 },
    /// Let others run.
    YieldWait,
}

/// What the task is answered.
#[derive(Copy, Clone, Debug, PartialEq, Eq, Structural)]
pub enum PeriodicAnswer {
    Test(SelfTestAnswer),
    /// The pause is over.
    Paused,
    /// Others have run.
    Yielded,
}

/// Where the task goes at the top of its loop, and the state it leaves.
pub open spec fn loop_top_spec(state: FipsState) -> (FipsPeriodic, FipsState) {
    if state.enabled {
        (FipsPeriodic::Testing(SelfTest::Starting), state)
    } else {
        (FipsPeriodic::Waiting, FipsState { state_changed: false, ..state })
    }
}

/// The top of the loop: a self-test is started if it is enabled. If not, a
/// change that has been noticed is forgotten and the next one is waited for.
fn loop_top(state: &mut FipsState) -> (task: FipsPeriodic)
    ensures
        (task, *final(state)) == loop_top_spec(*old(state)),
{
    if is_enabled(state) {
        FipsPeriodic::Testing(run_fips_self_test())
    } else {
        state.state_changed = false;
        FipsPeriodic::Waiting
    }
}

/// Starts the background task, which never ends.
pub fn fips_periodic_task(state: &mut FipsState) -> (task: FipsPeriodic)
    ensures
        (task, *final(state)) == loop_top_spec(*old(state)),
        task.wf(),
{
    loop_top(state)
}

impl FipsPeriodic {
    pub open spec fn wf(self) -> bool {
        self matches FipsPeriodic::Testing(test) ==> test.wf()
    }

    pub open spec fn question(self) -> PeriodicAsk {
        match self {
            FipsPeriodic::Testing(test) => PeriodicAsk::Test(test.question()),
            FipsPeriodic::Pausing => PeriodicAsk::Pause { ms: FIPS_PERIODIC_INTERVAL_MS },
            FipsPeriodic::Waiting => PeriodicAsk::YieldWait,
        }
    }

    /// Whether the answer is of the kind that the question calls for.
    pub open spec fn accepts(self, answer: PeriodicAnswer) -> bool {
        match (self, answer) {
            (FipsPeriodic::Testing(test), PeriodicAnswer::Test(a)) => test.accepts(a),
            (FipsPeriodic::Pausing, PeriodicAnswer::Paused) => true,
            (FipsPeriodic::Waiting, PeriodicAnswer::Yielded) => true,
            _ => false,
        }
    }

    /// The task after an answer, and the state it leaves.
    pub open spec fn after(self, answer: PeriodicAnswer, state: FipsState) -> (
        FipsPeriodic,
        FipsState,
    ) {
        match (self, answer) {
            (FipsPeriodic::Testing(test), PeriodicAnswer::Test(a)) => match test.after(a) {
                Progress::Pending(t) => (FipsPeriodic::Testing(t), state),
                Progress::Done(end) => (FipsPeriodic::Pausing, state.tested(end is Passed)),
            },
            (FipsPeriodic::Pausing, _) => loop_top_spec(state),
            _ => if state.state_changed {
                loop_top_spec(FipsState { state_changed: false, ..state })
            } else {
                (FipsPeriodic::Waiting, state)
            },
        }
    }

    /// Returns what the task asks for.
    pub fn ask(&self) -> (asked: PeriodicAsk)
        requires
            self.wf(),
        ensures
            asked == self.question(),
    {
        match self {
            FipsPeriodic::Testing(test) => PeriodicAsk::Test(test.ask()),
            FipsPeriodic::Pausing => PeriodicAsk::Pause { ms: FIPS_PERIODIC_INTERVAL_MS },
            FipsPeriodic::Waiting => PeriodicAsk::YieldWait,
        }
    }

    /// Goes on with an answer. `state` is the state as it then is: others may
    /// have changed it since the task last looked.
    pub fn resume(self, answer: PeriodicAnswer, state: &mut FipsState) -> (task: FipsPeriodic)
        requires
            self.wf(),
            self.accepts(answer),
        ensures
            task.wf(),
            (task, *final(state)) == self.after(answer, *old(state)),
    {
        match (self, answer) {
            (FipsPeriodic::Testing(test), PeriodicAnswer::Test(a)) => {
                proof {
                    test.after_is_wf(a);
                }
                match test.resume(a) {
                    Progress::Pending(t) => FipsPeriodic::Testing(t),
                    Progress::Done(end) => {
                        state.iterations = state.iterations.wrapping_add(1);
                        state.last_result = if end.passed() {
                            RESULT_PASS
                        } else {
                            RESULT_FAIL
                        };
                        FipsPeriodic::Pausing
                    },
                }
            },
            (FipsPeriodic::Pausing, _) => loop_top(state),
            _ => if state.state_changed {
                state.state_changed = false;
                loop_top(state)
            } else {
                FipsPeriodic::Waiting
            },
        }
    }
}

/// A self-test starts only while the self-test is enabled. Whether it is
/// enabled is never changed by the task itself.
pub proof fn law_tests_only_when_enabled(
    task: FipsPeriodic,
    answer: PeriodicAnswer,
    state: FipsState,
)
    requires
        task.accepts(answer),
    ensures
        task.after(answer, state).0 == FipsPeriodic::Testing(SelfTest::Starting)
            ==> state.enabled,
        task.after(answer, state).1.enabled == state.enabled,
{
}

/// A task that waits starts a self-test the next time it runs after the
/// self-test has been enabled, and goes on waiting after it has been disabled.
pub proof fn law_enabling_wakes_the_task(state: FipsState, enable: bool)
    ensures
        FipsPeriodic::Waiting.after(
            PeriodicAnswer::Yielded,
            state.set_enabled_spec(enable),
        ).0 == if enable {
            FipsPeriodic::Testing(SelfTest::Starting)
        } else {
            FipsPeriodic::Waiting
        },
{
}

/// The number of iterations and the last result change exactly when a
/// self-test ends: the number goes up by one, and the result tells whether the
/// self-test has passed. Then the task pauses.
pub proof fn law_iterations_count_ended_tests(
    task: FipsPeriodic,
    answer: PeriodicAnswer,
    state: FipsState,
)
    requires
        task.accepts(answer),
    ensures
        ({
            let (next, left) = task.after(answer, state);
            match (task, answer) {
                (FipsPeriodic::Testing(test), PeriodicAnswer::Test(a)) => match test.after(a) {
                    Progress::Done(end) => {
                        &&& next == FipsPeriodic::Pausing
                        &&& left.iterations == if state.iterations < u32::MAX {
                            state.iterations + 1
                        } else {
                            0
                        }
                        &&& left.last_result == if end is Passed {
                            RESULT_PASS
                        } else {
                            RESULT_FAIL
                        }
                    },
                    Progress::Pending(_) => left == state,
                },
                _ => {
                    &&& left.iterations == state.iterations
                    &&& left.last_result == state.last_result
                },
            }
        }),
{
}

/// What can happen while the task runs: it is answered, or somebody enables or
/// disables the self-test.
pub enum PeriodicEvent {
    Answer(PeriodicAnswer),
    SetEnabled(bool),
}

/// Whether each answer is of the kind that the task asked for at the time.
pub open spec fn events_fit(
    task: FipsPeriodic,
    state: FipsState,
    events: Seq<PeriodicEvent>,
) -> bool
    decreases events.len(),
{
    events.len() > 0 ==> {
        &&& events_fit(task, state, events.drop_last())
        &&& events.last() matches PeriodicEvent::Answer(answer) ==> periodic_run(
            task,
            state,
            events.drop_last(),
        ).0.accepts(answer)
    }
}

/// The task and the state after some events.
pub open spec fn periodic_run(
    task: FipsPeriodic,
    state: FipsState,
    events: Seq<PeriodicEvent>,
) -> (FipsPeriodic, FipsState)
    decreases events.len(),
{
    if events.len() == 0 {
        (task, state)
    } else {
        let (t, s) = periodic_run(task, state, events.drop_last());
        match events.last() {
            PeriodicEvent::Answer(answer) => t.after(answer, s),
            PeriodicEvent::SetEnabled(enable) => (t, s.set_enabled_spec(enable)),
        }
    }
}

/// How the self-tests ended that were run in the course of some events, in
/// order.
pub open spec fn tests_ended(
    task: FipsPeriodic,
    state: FipsState,
    events: Seq<PeriodicEvent>,
) -> Seq<SelfTestEnd>
    decreases events.len(),
{
    if events.len() == 0 {
        Seq::empty()
    } else {
        let before = tests_ended(task, state, events.drop_last());
        let (t, _) = periodic_run(task, state, events.drop_last());
        match (t, events.last()) {
            (
                FipsPeriodic::Testing(test),
                PeriodicEvent::Answer(PeriodicAnswer::Test(a)),
            ) => match test.after(a) {
                Progress::Done(end) => before.push(end),
                Progress::Pending(_) => before,
            },
            _ => before,
        }
    }
}

/// Whether the self-test was last said to be enabled; at first it is as `at_first`
/// says.
pub open spec fn last_said(at_first: bool, events: Seq<PeriodicEvent>) -> bool
    decreases events.len(),
{
    if events.len() == 0 {
        at_first
    } else {
        match events.last() {
            PeriodicEvent::SetEnabled(enable) => enable,
            PeriodicEvent::Answer(_) => last_said(at_first, events.drop_last()),
        }
    }
}

/// Whatever happens in whatever order, the state tells of the self-tests that
/// were run: how many there were, counted around the end of the counter, and
/// how the last one ended. Whether the self-test is enabled is what somebody
/// last said.
pub proof fn law_status_tells_of_tests(
    task: FipsPeriodic,
    state: FipsState,
    events: Seq<PeriodicEvent>,
)
    requires
        events_fit(task, state, events),
    ensures
        ({
            let left = periodic_run(task, state, events).1;
            let ended = tests_ended(task, state, events);
            &&& left.iterations == (state.iterations + ended.len()) % 0x1_0000_0000
            &&& left.last_result == if ended.len() == 0 {
                state.last_result
            } else if ended.last() is Passed {
                RESULT_PASS
            } else {
                RESULT_FAIL
            }
            &&& left.enabled == last_said(state.enabled, events)
        }),
    decreases events.len(),
{
    if events.len() > 0 {
        let before = events.drop_last();
        law_status_tells_of_tests(task, state, before);
        let (t, s) = periodic_run(task, state, before);
        if let PeriodicEvent::Answer(answer) = events.last() {
            law_iterations_count_ended_tests(t, answer, s);
            law_tests_only_when_enabled(t, answer, s);
        }
    }
}

/// What a self-test does, whatever it is answered. It is started once; then it
/// sleeps for 100 milliseconds and asks for the result, by turns, a hundred
/// times at most. It passes with the first result that succeeds. It ends as not
/// started if the start fails, and as timed out if the hundredth result fails;
/// in every other case it goes on.
pub proof fn law_self_test_run(answers: Seq<SelfTestAnswer>)
    requires
        machine::answered(Progress::Pending(SelfTest::Starting), answers),
    ensures
        ({
            let p = Progress::Pending(SelfTest::Starting);
            let n = answers.len() as int;
            let asked = machine::asked(p, answers);
            &&& n <= 201
            &&& asked.len() == n
            &&& forall|i: int|
                0 <= i < n ==> match #[trigger] asked[i] {
                    SelfTestAsk::Start => i == 0,
                    SelfTestAsk::Sleep { ms } => i % 2 == 1 && ms == 100,
                    SelfTestAsk::GetResults => i > 0 && i % 2 == 0,
                }
            &&& n > 0 ==> match (machine::run(p, answers), answers.last()) {
                (Progress::Pending(_), SelfTestAnswer::Slept) => true,
                (Progress::Pending(_), SelfTestAnswer::Executed { ok }) => if n == 1 {
                    ok
                } else {
                    !ok && n < 201
                },
                (Progress::Done(end), SelfTestAnswer::Executed { ok }) => match end {
                    SelfTestEnd::NotStarted => n == 1 && !ok,
                    SelfTestEnd::Passed => n > 1 && ok,
                    SelfTestEnd::TimedOut => n == 201 && !ok,
                },
                (Progress::Done(_), SelfTestAnswer::Slept) => false,
            }
            &&& n == 0 ==> machine::run(p, answers) is Pending
        }),
{
    law_self_test(answers);
    let p = Progress::Pending(SelfTest::Starting);
    let n = answers.len() as int;
    if n > 0 {
        let before = answers.drop_last();
        law_self_test(before);
        machine::law_runs_step_by_step(p, answers, n - 1);
        assert(answers.take(n - 1) =~= before);
    }
    assert(machine::asked(p, answers) == self_test_plan().take(n));
}

/// Once a pause is over, and when the task starts, a self-test is started if
/// and only if the self-test is enabled, whatever came before. If it is not,
/// the task waits, and a change up to then is forgotten.
pub proof fn law_pause_ends_by_enabled(state: FipsState)
    ensures
        ({
            let (task, left) = FipsPeriodic::Pausing.after(PeriodicAnswer::Paused, state);
            &&& task == FipsPeriodic::Testing(SelfTest::Starting) <==> state.enabled
            &&& task == FipsPeriodic::Waiting <==> !state.enabled
            &&& left.enabled == state.enabled
            &&& left.iterations == state.iterations && left.last_result == state.last_result
            &&& left.state_changed == (state.state_changed && state.enabled)
        }),
        loop_top_spec(state) == FipsPeriodic::Pausing.after(PeriodicAnswer::Paused, state),
{
}

/// A task that waits goes on waiting, and changes nothing, until somebody has
/// said whether the self-test is enabled. It then notes that it has looked, and
/// starts a self-test if and only if it is enabled.
pub proof fn law_waiting_ends_by_change(state: FipsState)
    ensures
        ({
            let (task, left) = FipsPeriodic::Waiting.after(PeriodicAnswer::Yielded, state);
            &&& task == FipsPeriodic::Testing(SelfTest::Starting) <==> state.state_changed
                && state.enabled
            &&& task == FipsPeriodic::Waiting <==> !(state.state_changed && state.enabled)
            &&& left.enabled == state.enabled
            &&& left.iterations == state.iterations && left.last_result == state.last_result
            &&& !left.state_changed
        }),
{
}

/// A self-test under way is given its answers and nothing else happens, until
/// it ends; then the task pauses, whatever the result and whether or not the
/// self-test is still enabled.
pub proof fn law_test_runs_to_its_end(test: SelfTest, answer: SelfTestAnswer, state: FipsState)
    requires
        test.wf(),
        test.accepts(answer),
    ensures
        ({
            let (task, left) = FipsPeriodic::Testing(test).after(
                PeriodicAnswer::Test(answer),
                state,
            );
            &&& test.after(answer) matches Progress::Pending(next) ==> task
                == FipsPeriodic::Testing(next) && left == state
            &&& test.after(answer) is Done ==> task == FipsPeriodic::Pausing
            &&& left.enabled == state.enabled && left.state_changed == state.state_changed
        }),
{
}

/// What the task asks for: what the self-test asks for while one runs, a minute
/// between two of them, and otherwise to let others run. Only answers to that
/// are accepted.
pub proof fn law_periodic_questions(test: SelfTest, answer: PeriodicAnswer)
    ensures
        FipsPeriodic::Testing(test).question() == PeriodicAsk::Test(test.question()),
        FipsPeriodic::Pausing.question() == (PeriodicAsk::Pause { ms: 60_000 }),
        FipsPeriodic::Waiting.question() == PeriodicAsk::YieldWait,
        FipsPeriodic::Pausing.accepts(answer) <==> answer is Paused,
        FipsPeriodic::Waiting.accepts(answer) <==> answer is Yielded,
        FipsPeriodic::Testing(test).accepts(answer) <==> answer is Test && test.accepts(
            answer->Test_0,
        ),
{
}

/// Saying whether the self-test is enabled changes that, is noted as a change
/// even if it is none, and leaves what is known of past self-tests.
pub proof fn law_set_enabled(state: FipsState, enable: bool)
    ensures
        ({
            let after = state.set_enabled_spec(enable);
            &&& after.enabled == enable
            &&& after.state_changed
            &&& after.iterations == state.iterations && after.last_result == state.last_result
        }),
{
}

/// While the self-test stays enabled, the task runs one self-test after the
/// other: after each that ends, whatever its result, come a pause and the start
/// of the next.
pub proof fn law_tests_repeat(test: SelfTest, answer: SelfTestAnswer, state: FipsState)
    requires
        test.wf(),
        test.accepts(answer),
        test.after(answer) is Done,
        state.enabled,
    ensures
        ({
            let (pause, s) = FipsPeriodic::Testing(test).after(
                PeriodicAnswer::Test(answer),
                state,
            );
            let (next, _) = pause.after(PeriodicAnswer::Paused, s);
            &&& pause.question() is Pause
            &&& pause.accepts(PeriodicAnswer::Paused)
            &&& next.question() == PeriodicAsk::Test(SelfTestAsk::Start)
        }),
{
}

/// The numbers of the periodic self-test.
pub proof fn law_fips_numbers()
    ensures
        FIPS_PERIODIC_INTERVAL_MS == 60_000 && POLL_INTERVAL_MS == 100 && MAX_POLL_ITERATIONS
            == 100,
        RESULT_NOT_RUN == 0 && RESULT_PASS == 1 && RESULT_FAIL == 2,
        DEFAULT_FREQUENCY == 1000,
{
}

} // verus!

//! The alarm clock.

use vstd::prelude::*;

use crate::blocking::subscribe_and_wait;
use crate::error::ErrorCode;
use crate::kernel;
use crate::kernel::{unit_reply, BlockingRequest, Command, Expect, Op, Reply};
use crate::machine;
use crate::machine::{Machine, Progress};

verus! {

/// Driver number of the alarm.
pub const DRIVER_NUM: u32 = 0;

/// Succeeds if the driver exists.
pub const EXISTS: u32 = 0;

/// Returns the frequency of the clock.
pub const FREQUENCY: u32 = 1;

/// Returns the time in ticks.
pub const TIME: u32 = 2;

/// Stops the alarm.
pub const STOP: u32 = 3;

/// Sets the alarm a number of ticks from now.
pub const SET_RELATIVE: u32 = 5;

/// Sets the alarm at a time.
pub const SET_ABSOLUTE: u32 = 6;

/// Alarm callback.
pub const CALLBACK: u32 = 0;

/// A frequency in ticks per second.
#[derive(Copy, Clone, Debug, PartialEq, Eq, Structural)]
pub struct Hz(pub u32);

/// A time in milliseconds.
#[derive(Copy, Clone, Debug, PartialEq, Eq, Structural)]
pub struct Milliseconds(pub u32);

/// The alarm driver.
#[derive(Copy, Clone, Debug, PartialEq, Eq)]
pub struct AsyncAlarm;

/// A reply whose first word is a frequency.
pub open spec fn frequency_of(reply: Reply) -> Result<Hz, ErrorCode> {
    match reply {
        Ok(args) => Ok(Hz(args.0)),
        Err(e) => Err(e),
    }
}

/// The operation that sleeps for a number of ticks.
pub open spec fn sleep_op(ticks: u32) -> Op {
    Op::Blocking(
        BlockingRequest {
            driver_num: DRIVER_NUM,
            subscribe_num: CALLBACK,
            ro: None,
            rw: None,
            cmd: SET_RELATIVE,
            arg1: ticks,
            arg2: 0,
        },
    )
}

/// The time in milliseconds at a number of ticks. The rate of the clock is
/// rounded down to whole ticks per millisecond.
pub open spec fn milliseconds(ticks: u32, freq: Hz) -> u64 {
    (ticks as int / (freq.0 as int / 1000)) as u64
}

impl AsyncAlarm {
    /// Asks whether the driver is available. The reply is read by
    /// [`unit_reply`].
    pub fn driver_exists() -> (op: Op)
        ensures
            op == kernel::unit_command(DRIVER_NUM, EXISTS, 0, 0),
    {
        Op::Command {
            command: Command { driver_num: DRIVER_NUM, command_num: EXISTS, arg0: 0, arg1: 0 },
            expect: Expect::Unit,
        }
    }

    /// Asks for the frequency of the clock. The reply is read by
    /// `frequency_reply`.
    pub fn get_frequency() -> (op: Op)
        ensures
            op == kernel::word_command(DRIVER_NUM, FREQUENCY, 0, 0),
    {
        Op::Command {
            command: Command { driver_num: DRIVER_NUM, command_num: FREQUENCY, arg0: 0, arg1: 0 },
            expect: Expect::Word,
        }
    }

    /// The frequency in a reply to `get_frequency`.
    pub fn frequency_reply(reply: Reply) -> (r: Result<Hz, ErrorCode>)
        ensures
            r == frequency_of(reply),
    {
        match reply {
            Ok(args) => Ok(Hz(args.0)),
            Err(e) => Err(e),
        }
    }

    /// Asks for the time in ticks.
    pub fn get_ticks() -> (op: Op)
        ensures
            op == kernel::word_command(DRIVER_NUM, TIME, 0, 0),
    {
        Op::Command {
            command: Command { driver_num: DRIVER_NUM, command_num: TIME, arg0: 0, arg1: 0 },
            expect: Expect::Word,
        }
    }

    /// Starts to ask for the time in milliseconds.
    pub fn get_milliseconds() -> (m: GetMilliseconds)
        ensures
            m.ticks is None,
    {
        GetMilliseconds { ticks: None }
    }

    /// Starts to sleep for a time.
    pub fn sleep_for<T: Copy>(time: T) -> (s: SleepFor<T>)
        ensures
            s == (SleepFor { time, otherwise: None, phase: SleepPhase::Frequency }),
    {
        SleepFor { time, otherwise: None, phase: SleepPhase::Frequency }
    }

    /// Sleeps for a number of ticks. The reply is read by [`unit_reply`].
    pub fn sleep_ticks(ticks: u32) -> (op: Op)
        ensures
            op == sleep_op(ticks),
    {
        Op::Blocking(subscribe_and_wait(DRIVER_NUM, CALLBACK, SET_RELATIVE, ticks, 0))
    }

    /// Starts to sleep for a number of milliseconds. How the sleep ends does
    /// not matter.
    pub fn sleep(time: Milliseconds) -> (s: SleepFor<Milliseconds>)
        ensures
            s == (SleepFor { time, otherwise: None, phase: SleepPhase::Frequency }),
    {
        Self::sleep_for(time)
    }
}

/// The time in milliseconds being asked for: first the ticks, then the
/// frequency.
#[derive(Copy, Clone, Debug, PartialEq, Eq)]
pub struct GetMilliseconds {
    /// The ticks, once they are known.
    pub ticks: Option<u32>,
}

impl Machine for GetMilliseconds {
    type Ask = Op;

    type Answer = Reply;

    type Out = Result<u64, ErrorCode>;

    open spec fn wf(self) -> bool {
        true
    }

    open spec fn question(self) -> Op {
        if self.ticks is None {
            kernel::word_command(DRIVER_NUM, TIME, 0, 0)
        } else {
            kernel::word_command(DRIVER_NUM, FREQUENCY, 0, 0)
        }
    }

    /// A clock must tick once a millisecond at least.
    open spec fn accepts(self, answer: Reply) -> bool {
        self.ticks is Some ==> (frequency_of(answer) matches Ok(freq) ==> freq.0 >= 1000)
    }

    open spec fn after(self, answer: Reply) -> Progress<GetMilliseconds, Result<u64, ErrorCode>> {
        match (self.ticks, answer) {
            (_, Err(e)) => Progress::Done(Err(e)),
            (None, Ok(args)) => Progress::Pending(GetMilliseconds { ticks: Some(args.0) }),
            (Some(ticks), Ok(args)) => Progress::Done(Ok(milliseconds(ticks, Hz(args.0)))),
        }
    }

    proof fn after_is_wf(self, answer: Reply) {
    }

    fn ask(&self) -> (asked: Op) {
        if self.ticks.is_none() {
            AsyncAlarm::get_ticks()
        } else {
            AsyncAlarm::get_frequency()
        }
    }

    fn resume(self, answer: Reply) -> (next: Progress<GetMilliseconds, Result<u64, ErrorCode>>) {
        match answer {
            Err(e) => Progress::Done(Err(e)),
            Ok(args) => match self.ticks {
                None => Progress::Pending(GetMilliseconds { ticks: Some(args.0) }),
                Some(ticks) => {
                    let freq: u64 = args.0 as u64;
                    assert(ticks as int / (freq as int / 1000) <= ticks) by (nonlinear_arith)
                        requires
                            freq >= 1000,
                            ticks >= 0,
                    ;
                    Progress::Done(Ok(ticks as u64 / (freq / 1000)))
                },
            },
        }
    }
}

/// The time in milliseconds comes from the ticks and the frequency of the
/// clock, which are asked for in this order. It is the number of whole
/// milliseconds that have gone by at that rate.
pub proof fn law_get_milliseconds(ticks: u32, freq: u32)
    requires
        freq >= 1000,
    ensures
        ({
            let p = Progress::Pending(GetMilliseconds { ticks: None });
            let answers: Seq<Reply> = seq![Ok((ticks, 0, 0)), Ok((freq, 0, 0))];
            let rate = freq as int / 1000;
            &&& machine::answered(p, answers)
            &&& machine::asked(p, answers) == seq![
                kernel::word_command(DRIVER_NUM, TIME, 0, 0),
                kernel::word_command(DRIVER_NUM, FREQUENCY, 0, 0),
            ]
            &&& machine::run(p, answers) matches Progress::Done(Ok(ms))
            &&& rate * ms <= ticks < rate * (ms + 1)
        }),
{
    let answers: Seq<Reply> = seq![Ok((ticks, 0, 0)), Ok((freq, 0, 0))];
    let rate = freq as int / 1000;
    reveal_with_fuel(machine::run, 3);
    reveal_with_fuel(machine::answered, 3);
    reveal_with_fuel(machine::asked, 3);
    assert(answers.drop_last() =~= answers.take(1));
    assert(answers.take(1).drop_last() =~= Seq::empty());
    assert(ticks as int / rate <= ticks && rate * (ticks as int / rate) <= ticks < rate * (ticks
        as int / rate + 1)) by (nonlinear_arith)
        requires
            rate >= 1,
            ticks >= 0,
    ;
}

/// How far a sleep has come.
#[derive(Copy, Clone, Debug, PartialEq, Eq, Structural)]
pub enum SleepPhase {
    /// The frequency is asked for.
    Frequency,
    /// The time is converted to ticks.
    Convert(Hz),
    /// The ticks are slept.
    Ticks(u32),
}

/// A sleep under way.
#[derive(Debug, PartialEq, Eq)]
pub struct SleepFor<T> {
    pub time: T,
    /// The frequency that is taken for the clock's own where the clock does
    /// not tell. Without one the sleep fails.
    pub otherwise: Option<Hz>,
    pub phase: SleepPhase,
}

/// What a sleep asks for.
#[derive(Debug, PartialEq, Eq)]
pub enum SleepAsk<T> {
    Kernel(Op),
    /// Convert a time to ticks of a clock.
    ToTicks { time: T, freq: Hz },
}

/// What a sleep is answered.
#[derive(Copy, Clone, Debug, PartialEq, Eq)]
pub enum SleepAnswer {
    Kernel(Reply),
    Ticks(u32),
}

impl<T: Copy> Machine for SleepFor<T> {
    type Ask = SleepAsk<T>;

    type Answer = SleepAnswer;

    type Out = Result<(), ErrorCode>;

    open spec fn wf(self) -> bool {
        true
    }

    open spec fn question(self) -> SleepAsk<T> {
        match self.phase {
            SleepPhase::Frequency => SleepAsk::Kernel(
                kernel::word_command(DRIVER_NUM, FREQUENCY, 0, 0),
            ),
            SleepPhase::Convert(freq) => SleepAsk::ToTicks { time: self.time, freq },
            SleepPhase::Ticks(ticks) => SleepAsk::Kernel(sleep_op(ticks)),
        }
    }

    open spec fn accepts(self, answer: SleepAnswer) -> bool {
        self.phase is Convert == (answer is Ticks)
    }

    open spec fn after(self, answer: SleepAnswer) -> Progress<
        SleepFor<T>,
        Result<(), ErrorCode>,
    > {
        match answer {
            SleepAnswer::Ticks(ticks) => Progress::Pending(
                SleepFor { phase: SleepPhase::Ticks(ticks), ..self },
            ),
            SleepAnswer::Kernel(reply) => if self.phase is Frequency {
                match (frequency_of(reply), self.otherwise) {
                    (Ok(freq), _) => Progress::Pending(
                        SleepFor { phase: SleepPhase::Convert(freq), ..self },
                    ),
                    (Err(_), Some(freq)) => Progress::Pending(
                        SleepFor { phase: SleepPhase::Convert(freq), ..self },
                    ),
                    (Err(e), None) => Progress::Done(Err(e)),
                }
            } else {
                Progress::Done(kernel::unit_of(reply))
            },
        }
    }

    proof fn after_is_wf(self, answer: SleepAnswer) {
    }

    fn ask(&self) -> (asked: SleepAsk<T>) {
        match self.phase {
            SleepPhase::Frequency => SleepAsk::Kernel(AsyncAlarm::get_frequency()),
            SleepPhase::Convert(freq) => SleepAsk::ToTicks { time: self.time, freq },
            SleepPhase::Ticks(ticks) => SleepAsk::Kernel(AsyncAlarm::sleep_ticks(ticks)),
        }
    }

    fn resume(self, answer: SleepAnswer) -> (next: Progress<SleepFor<T>, Result<(), ErrorCode>>) {
        let SleepFor { time, otherwise, phase } = self;
        match answer {
            SleepAnswer::Ticks(ticks) => Progress::Pending(
                SleepFor { time, otherwise, phase: SleepPhase::Ticks(ticks) },
            ),
            SleepAnswer::Kernel(reply) => match phase {
                SleepPhase::Frequency => match AsyncAlarm::frequency_reply(reply) {
                    Ok(freq) => Progress::Pending(
                        SleepFor { time, otherwise, phase: SleepPhase::Convert(freq) },
                    ),
                    Err(e) => match otherwise {
                        Some(freq) => Progress::Pending(
                            SleepFor { time, otherwise, phase: SleepPhase::Convert(freq) },
                        ),
                        None => Progress::Done(Err(e)),
                    },
                },
                _ => Progress::Done(unit_reply(reply)),
            },
        }
    }
}

/// A sleep for a time asks for the frequency of the clock, has the time
/// converted to ticks of that frequency, sleeps that many ticks, and ends with
/// what the sleep was answered. Where the frequency cannot be had, it ends
/// with that error, unless there is a frequency to take in its place.
pub proof fn law_sleep_for<T: Copy>(
    time: T,
    otherwise: Option<Hz>,
    frequency: Reply,
    ticks: u32,
    slept: Reply,
)
    ensures
        ({
            let p = Progress::Pending(
                SleepFor { time, otherwise, phase: SleepPhase::Frequency },
            );
            let all = seq![
                SleepAnswer::Kernel(frequency),
                SleepAnswer::Ticks(ticks),
                SleepAnswer::Kernel(slept),
            ];
            match (frequency_of(frequency), otherwise) {
                (Err(e), None) => {
                    &&& machine::answered(p, all.take(1))
                    &&& machine::run(p, all.take(1)) == Progress::<
                        SleepFor<T>,
                        Result<(), ErrorCode>,
                    >::Done(Err(e))
                },
                (f, _) => {
                    let freq = if f is Ok {
                        f->Ok_0
                    } else {
                        otherwise->0
                    };
                    &&& machine::answered(p, all)
                    &&& machine::asked(p, all) == seq![
                        SleepAsk::Kernel(kernel::word_command(DRIVER_NUM, FREQUENCY, 0, 0)),
                        SleepAsk::ToTicks { time, freq },
                        SleepAsk::Kernel(sleep_op(ticks)),
                    ]
                    &&& machine::run(p, all) == Progress::<SleepFor<T>, Result<(), ErrorCode>>::Done(
                        kernel::unit_of(slept),
                    )
                },
            }
        }),
{
    let all = seq![
        SleepAnswer::Kernel(frequency),
        SleepAnswer::Ticks(ticks),
        SleepAnswer::Kernel(slept),
    ];
    reveal_with_fuel(machine::run, 4);
    reveal_with_fuel(machine::answered, 4);
    reveal_with_fuel(machine::asked, 4);
    assert(all.drop_last() =~= all.take(2));
    assert(all.take(2).drop_last() =~= all.take(1));
    assert(all.take(1).drop_last() =~= Seq::empty());
    assert(all.take(1).last() == SleepAnswer::Kernel(frequency));
}

/// What sleeping does, whatever it is answered: the frequency is asked for, the
/// time is converted to ticks of it, and that many ticks are slept. Where the
/// clock does not tell, the sleep fails with that error, unless there is a
/// frequency to take in its place. In the end it is what the sleep was answered.
pub proof fn law_sleep_run<T: Copy>(
    time: T,
    otherwise: Option<Hz>,
    answers: Seq<SleepAnswer>,
)
    requires
        machine::answered(
            Progress::Pending(SleepFor { time, otherwise, phase: SleepPhase::Frequency }),
            answers,
        ),
    ensures
        ({
            let p = Progress::Pending(SleepFor { time, otherwise, phase: SleepPhase::Frequency });
            let n = answers.len() as int;
            let asked = machine::asked(p, answers);
            &&& n <= 3
            &&& asked.len() == n
            &&& n > 0 ==> {
                &&& asked[0] matches SleepAsk::Kernel(Op::Command { command, expect })
                &&& command.driver_num == 0 && command.command_num == 1
                &&& command.arg0 == 0 && command.arg1 == 0
                &&& expect is Word
                &&& answers[0] is Kernel
            }
            &&& n > 1 ==> {
                &&& asked[1] matches SleepAsk::ToTicks { time: t, freq }
                &&& t == time
                &&& match answers[0]->Kernel_0 {
                    Ok((hz, _, _)) => freq.0 == hz,
                    Err(_) => otherwise == Some(freq),
                }
                &&& answers[1] is Ticks
            }
            &&& n > 2 ==> {
                &&& asked[2] matches SleepAsk::Kernel(Op::Blocking(request))
                &&& request.driver_num == 0 && request.subscribe_num == 0
                &&& request.cmd == 5
                &&& request.arg1 == answers[1]->Ticks_0 && request.arg2 == 0
                &&& request.ro is None && request.rw is None
                &&& answers[2] is Kernel
            }
            &&& match machine::run(p, answers) {
                Progress::Pending(_) => n < 3 && (n == 1 ==> answers[0]->Kernel_0 is Ok
                    || otherwise is Some),
                Progress::Done(r) => {
                    &&& n == 1 || n == 3
                    &&& n == 1 ==> otherwise is None && answers[0]->Kernel_0 is Err && r is Err
                        && r->Err_0 == answers[0]->Kernel_0->Err_0
                    &&& n == 3 ==> match answers[2]->Kernel_0 {
                        Ok(_) => r is Ok,
                        Err(e) => r is Err && r->Err_0 == e,
                    }
                },
            }
        }),
    decreases answers.len(),
{
    let p = Progress::Pending(SleepFor { time, otherwise, phase: SleepPhase::Frequency });
    if answers.len() > 0 {
        let before = answers.drop_last();
        law_sleep_run(time, otherwise, before);
        lemma_sleep_state(time, otherwise, before);
        let asked = machine::asked(p, answers);
        let asked_before = machine::asked(p, before);
        assert(forall|i: int| 0 <= i < before.len() ==> asked[i] == asked_before[i]);
        assert(forall|i: int| 0 <= i < before.len() ==> before[i] == answers[i]);
    }
}

proof fn lemma_sleep_state<T: Copy>(
    time: T,
    otherwise: Option<Hz>,
    answers: Seq<SleepAnswer>,
)
    requires
        machine::answered(
            Progress::Pending(SleepFor { time, otherwise, phase: SleepPhase::Frequency }),
            answers,
        ),
    ensures
        machine::run(
            Progress::Pending(SleepFor { time, otherwise, phase: SleepPhase::Frequency }),
            answers,
        ) matches Progress::Pending(m) ==> {
            &&& m.time == time && m.otherwise == otherwise
            &&& match m.phase {
                SleepPhase::Frequency => answers.len() == 0,
                SleepPhase::Convert(freq) => answers.len() == 1 && match answers[0]->Kernel_0 {
                    Ok((hz, _, _)) => freq.0 == hz,
                    Err(_) => otherwise == Some(freq),
                },
                SleepPhase::Ticks(ticks) => answers.len() == 2 && answers[1]
                    == SleepAnswer::Ticks(ticks),
            }
        },
    decreases answers.len(),
{
    if answers.len() > 0 {
        lemma_sleep_state(time, otherwise, answers.drop_last());
    }
}

/// Asking for the time fails with the first error, and otherwise ends with the
/// second reply: the ticks divided by the whole ticks in a millisecond.
pub proof fn law_get_milliseconds_run(answers: Seq<Reply>)
    requires
        machine::answered(Progress::Pending(GetMilliseconds { ticks: None }), answers),
    ensures
        ({
            let p = Progress::Pending(GetMilliseconds { ticks: None });
            let n = answers.len() as int;
            let asked = machine::asked(p, answers);
            &&& n <= 2
            &&& asked.len() == n
            &&& n > 0 ==> {
                &&& asked[0] matches Op::Command { command, expect }
                &&& command.driver_num == 0 && command.command_num == 2
                &&& expect is Word
            }
            &&& n > 1 ==> {
                &&& asked[1] matches Op::Command { command, expect }
                &&& command.driver_num == 0 && command.command_num == 1
                &&& expect is Word
                &&& answers[0] is Ok
            }
            &&& match machine::run(p, answers) {
                Progress::Pending(_) => n == 0 || n == 1 && answers[0] is Ok,
                Progress::Done(r) => n > 0 && match answers.last() {
                    Err(e) => r is Err && r->Err_0 == e,
                    Ok((freq, _, _)) => n == 2 && r is Ok && r->Ok_0 == answers[0]->Ok_0.0 as int / (
                    freq as int / 1000),
                },
            }
        }),
    decreases answers.len(),
{
    let p = Progress::Pending(GetMilliseconds { ticks: None });
    if answers.len() > 0 {
        let before = answers.drop_last();
        law_get_milliseconds_run(before);
        if before.len() > 0 {
            assert(before[0] == answers[0]);
            assert(before.drop_last() =~= Seq::empty());
            assert(machine::run(p, before) == GetMilliseconds { ticks: None }.after(before[0]));
            if let (Ok((ticks, _, _)), Ok((freq, _, _))) = (answers[0], answers.last()) {
                let rate = freq as int / 1000;
                assert(0 <= ticks as int / rate <= ticks) by (nonlinear_arith)
                    requires
                        rate >= 1,
                        ticks >= 0,
                ;
            }
        }
        let asked = machine::asked(p, answers);
        let asked_before = machine::asked(p, before);
        assert(forall|i: int| 0 <= i < before.len() ==> asked[i] == asked_before[i]);
    }
}

/// A sleep for a number of ticks, and a frequency that was replied.
pub proof fn law_alarm_words(ticks: u32, reply: Reply)
    ensures
        ({
            &&& sleep_op(ticks) matches Op::Blocking(request)
            &&& request.driver_num == 0 && request.subscribe_num == 0 && request.cmd == 5
            &&& request.arg1 == ticks && request.arg2 == 0
            &&& request.ro is None && request.rw is None
        }),
        match reply {
            Ok((hz, _, _)) => frequency_of(reply) is Ok && frequency_of(reply)->Ok_0.0 == hz,
            Err(e) => frequency_of(reply) is Err && frequency_of(reply)->Err_0 == e,
        },
        DRIVER_NUM == 0 && EXISTS == 0 && FREQUENCY == 1 && TIME == 2 && STOP == 3 && SET_RELATIVE
            == 5 && SET_ABSOLUTE == 6 && CALLBACK == 0,
{
}

} // verus!

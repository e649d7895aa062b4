//! The service that responds to messages and fetches firmware.

use vstd::prelude::*;

use crate::machine;
use crate::machine::{Machine, Progress};

verus! {

/// The number of download steps between two sleeps.
pub const YIELD_EVERY_ITERATIONS: u32 = 32;

#[derive(Copy, Clone, Debug, PartialEq, Eq, Structural)]
pub enum PldmServiceError {
    StartError,
    StopError,
}

/// A service, with the interface that handles its messages.
///
/// Whether the service is running is a flag that all the services of a program
/// share. It is handed to each function that looks at it or changes it.
#[derive(Debug, PartialEq, Eq)]
pub struct PldmService<C> {
    pub cmd_interface: C,
}

/// What starting a service returns, if the flag is `running` before.
pub open spec fn started(running: bool) -> Result<ServiceLoop, PldmServiceError> {
    if running {
        Err(PldmServiceError::StartError)
    } else {
        Ok(ServiceLoop { kind: LoopKind::Service, step: LoopStep::Running })
    }
}

impl<C> PldmService<C> {
    /// A service. Whether one is running does not change.
    pub fn init(cmd_interface: C) -> (service: PldmService<C>)
        ensures
            service.cmd_interface == cmd_interface,
    {
        PldmService { cmd_interface }
    }

    /// Starts the service and runs it until it is stopped. While a service is
    /// running, be it this or another, none can be started.
    pub fn start(&mut self, running: &mut bool) -> (r: Result<ServiceLoop, PldmServiceError>)
        ensures
            r == started(*old(running)),
            *final(running) == flag_after(*old(running), ServiceOp::Start),
            *final(self) == *old(self),
    {
        if *running {
            return Err(PldmServiceError::StartError);
        }
        *running = true;
        Ok(pldm_service_loop())
    }

    /// Runs the service until a condition holds or it is stopped. It is
    /// started if none is running, and stays started.
    pub fn run_until(&mut self, running: &mut bool) -> (run: ServiceLoop)
        ensures
            run == (ServiceLoop { kind: LoopKind::Until, step: LoopStep::Running }),
            *final(running) == flag_after(*old(running), ServiceOp::RunUntil),
            *final(self) == *old(self),
    {
        if !*running {
            *running = true;
        }
        ServiceLoop { kind: LoopKind::Until, step: LoopStep::Running }
    }

    /// Stops the service, and with it every other.
    pub fn stop(&mut self, running: &mut bool)
        ensures
            *final(running) == flag_after(*old(running), ServiceOp::Stop),
            *final(self) == *old(self),
    {
        *running = false;
    }
}

/// What can be done with a service.
pub enum ServiceOp {
    Init,
    Start,
    RunUntil,
    Stop,
}

/// Something done with one of the services of a program.
pub struct ServiceUse {
    pub service: nat,
    pub op: ServiceOp,
}

/// The flag after something has been done with a service.
pub open spec fn flag_after(running: bool, op: ServiceOp) -> bool {
    match op {
        ServiceOp::Init => running,
        ServiceOp::Start => true,
        ServiceOp::RunUntil => true,
        ServiceOp::Stop => false,
    }
}

/// The flag after several things have been done with services.
pub open spec fn flag_after_uses(running: bool, uses: Seq<ServiceUse>) -> bool
    decreases uses.len(),
{
    if uses.len() == 0 {
        running
    } else {
        flag_after(flag_after_uses(running, uses.drop_last()), uses.last().op)
    }
}

/// Whether the use at `i` is the last one that is more than making a service.
pub open spec fn last_effective(uses: Seq<ServiceUse>, i: int) -> bool {
    &&& 0 <= i < uses.len()
    &&& !(uses[i].op is Init)
    &&& forall|j: int| i < j < uses.len() ==> (#[trigger] uses[j]).op is Init
}

/// All services share one flag: whatever was done with whichever of them,
/// starting any of them is refused exactly if the last thing done, but for
/// making services, was not to stop one. If nothing was done, it is as before.
pub proof fn law_running_flag_is_shared(running: bool, uses: Seq<ServiceUse>)
    ensures
        forall|i: int| #[trigger]
            last_effective(uses, i) ==> (started(flag_after_uses(running, uses)) is Err <==> !(
            uses[i].op is Stop)),
        (forall|j: int| 0 <= j < uses.len() ==> (#[trigger] uses[j]).op is Init)
            ==> flag_after_uses(running, uses) == running,
    decreases uses.len(),
{
    if uses.len() > 0 {
        let before = uses.drop_last();
        law_running_flag_is_shared(running, before);
        assert(uses.last() == uses[uses.len() - 1]);
        assert(forall|j: int| 0 <= j < before.len() ==> before[j] == #[trigger] uses[j]);
        assert forall|i: int| #[trigger] last_effective(uses, i) implies (started(
            flag_after_uses(running, uses),
        ) is Err <==> !(uses[i].op is Stop)) by {
            if i < before.len() {
                assert forall|j: int| i < j < before.len() implies (#[trigger] before[j]).op is
                    Init by {
                    assert(uses[j].op is Init);
                }
                assert(last_effective(before, i));
            }
        }
        if forall|j: int| 0 <= j < uses.len() ==> (#[trigger] uses[j]).op is Init {
            assert forall|j: int| 0 <= j < before.len() implies (#[trigger] before[j]).op is
                Init by {
                assert(uses[j].op is Init);
            }
        }
    }
}

/// Of two services, one that is run or started keeps the other from being
/// started, whatever was done before. Stopping one lets the other be started.
pub proof fn law_two_services(running: bool, uses: Seq<ServiceUse>, first: nat, second: nat)
    ensures
        ({
            let after = |op: ServiceOp|
                flag_after_uses(
                    running,
                    uses.push(ServiceUse { service: first, op }).push(
                        ServiceUse { service: second, op: ServiceOp::Init },
                    ),
                );
            let refused = Err::<ServiceLoop, PldmServiceError>(PldmServiceError::StartError);
            &&& started(after(ServiceOp::RunUntil)) == refused
            &&& started(after(ServiceOp::Start)) == refused
            &&& started(after(ServiceOp::Stop)) is Ok
        }),
{
    assert forall|op: ServiceOp| flag_after_uses(
        running,
        #[trigger] uses.push(ServiceUse { service: first, op }).push(
            ServiceUse { service: second, op: ServiceOp::Init },
        ),
    ) == flag_after(flag_after_uses(running, uses), op) by {
        let one = uses.push(ServiceUse { service: first, op });
        let two = one.push(ServiceUse { service: second, op: ServiceOp::Init });
        reveal_with_fuel(flag_after_uses, 3);
        assert(two.drop_last() =~= one);
        assert(one.drop_last() =~= uses);
    }
}

/// What a loop does besides responding to messages.
#[derive(Copy, Clone, Debug, PartialEq, Eq, Structural)]
pub enum LoopKind {
    /// It fetches firmware.
    Service,
    /// It fetches firmware, and ends once a condition holds.
    Until,
    /// It tells another to fetch firmware.
    Responder,
}

/// How far an iteration of a loop has come.
#[derive(Copy, Clone, Debug, PartialEq, Eq, Structural)]
pub enum LoopStep {
    Running,
    Condition,
    Respond,
    Start,
    Initiate,
}

/// A loop that responds to one message in each iteration.
#[derive(Copy, Clone, Debug, PartialEq, Eq, Structural)]
pub struct ServiceLoop {
    pub kind: LoopKind,
    pub step: LoopStep,
}

/// What a loop asks for.
#[derive(Copy, Clone, Debug, PartialEq, Eq, Structural)]
pub enum LoopAsk {
    /// Is the service running?
    IsRunning,
    /// Does the condition hold that the loop is to end on?
    IsDone,
    /// Receive a message and respond to it. That it fails does not end the
    /// loop.
    HandleResponderMsg,
    /// Is there firmware to be fetched?
    ShouldStartInitiator,
    /// Fetch firmware.
    RunInitiator,
    /// Tell another that there is firmware to be fetched.
    RaiseInitiatorFlag,
}

/// What a loop is answered.
#[derive(Copy, Clone, Debug, PartialEq, Eq, Structural)]
pub enum LoopAnswer {
    Flag(bool),
    /// It is done, well or not.
    Done,
}

/// Starts to respond to messages and to fetch firmware, until the service is
/// stopped.
pub fn pldm_service_loop() -> (run: ServiceLoop)
    ensures
        run == (ServiceLoop { kind: LoopKind::Service, step: LoopStep::Running }),
{
    ServiceLoop { kind: LoopKind::Service, step: LoopStep::Running }
}

/// Starts to respond to messages, and to tell another when there is firmware
/// to be fetched, until the service is stopped.
pub fn pldm_responder() -> (run: ServiceLoop)
    ensures
        run == (ServiceLoop { kind: LoopKind::Responder, step: LoopStep::Running }),
{
    ServiceLoop { kind: LoopKind::Responder, step: LoopStep::Running }
}

/// The task that responds to messages.
pub fn pldm_responder_task() -> (run: ServiceLoop)
    ensures
        run == (ServiceLoop { kind: LoopKind::Responder, step: LoopStep::Running }),
{
    pldm_responder()
}

impl Machine for ServiceLoop {
    type Ask = LoopAsk;

    type Answer = LoopAnswer;

    type Out = ();

    open spec fn wf(self) -> bool {
        self.step is Condition ==> self.kind is Until
    }

    open spec fn question(self) -> LoopAsk {
        match self.step {
            LoopStep::Running => LoopAsk::IsRunning,
            LoopStep::Condition => LoopAsk::IsDone,
            LoopStep::Respond => LoopAsk::HandleResponderMsg,
            LoopStep::Start => LoopAsk::ShouldStartInitiator,
            LoopStep::Initiate => if self.kind is Responder {
                LoopAsk::RaiseInitiatorFlag
            } else {
                LoopAsk::RunInitiator
            },
        }
    }

    open spec fn accepts(self, answer: LoopAnswer) -> bool {
        (self.step is Respond || self.step is Initiate) == (answer is Done)
    }

    open spec fn after(self, answer: LoopAnswer) -> Progress<ServiceLoop, ()> {
        let flag = answer == LoopAnswer::Flag(true);
        match self.step {
            LoopStep::Running => if !flag {
                Progress::Done(())
            } else if self.kind is Until {
                Progress::Pending(ServiceLoop { step: LoopStep::Condition, ..self })
            } else {
                Progress::Pending(ServiceLoop { step: LoopStep::Respond, ..self })
            },
            LoopStep::Condition => if flag {
                Progress::Done(())
            } else {
                Progress::Pending(ServiceLoop { step: LoopStep::Respond, ..self })
            },
            LoopStep::Respond => Progress::Pending(ServiceLoop { step: LoopStep::Start, ..self }),
            LoopStep::Start => if flag {
                Progress::Pending(ServiceLoop { step: LoopStep::Initiate, ..self })
            } else {
                Progress::Pending(ServiceLoop { step: LoopStep::Running, ..self })
            },
            LoopStep::Initiate => Progress::Pending(
                ServiceLoop { step: LoopStep::Running, ..self },
            ),
        }
    }

    proof fn after_is_wf(self, answer: LoopAnswer) {
    }

    fn ask(&self) -> (asked: LoopAsk) {
        match self.step {
            LoopStep::Running => LoopAsk::IsRunning,
            LoopStep::Condition => LoopAsk::IsDone,
            LoopStep::Respond => LoopAsk::HandleResponderMsg,
            LoopStep::Start => LoopAsk::ShouldStartInitiator,
            LoopStep::Initiate => match self.kind {
                LoopKind::Responder => LoopAsk::RaiseInitiatorFlag,
                _ => LoopAsk::RunInitiator,
            },
        }
    }

    fn resume(self, answer: LoopAnswer) -> (next: Progress<ServiceLoop, ()>) {
        let flag = matches!(answer, LoopAnswer::Flag(true));
        let step = match self.step {
            LoopStep::Running => {
                if !flag {
                    return Progress::Done(());
                }
                match self.kind {
                    LoopKind::Until => LoopStep::Condition,
                    _ => LoopStep::Respond,
                }
            },
            LoopStep::Condition => {
                if flag {
                    return Progress::Done(());
                }
                LoopStep::Respond
            },
            LoopStep::Respond => LoopStep::Start,
            LoopStep::Start => if flag {
                LoopStep::Initiate
            } else {
                LoopStep::Running
            },
            LoopStep::Initiate => LoopStep::Running,
        };
        Progress::Pending(ServiceLoop { kind: self.kind, step })
    }
}

/// The answers that take a loop through an iteration.
pub open spec fn loop_iteration(kind: LoopKind, start: bool) -> Seq<LoopAnswer> {
    let head = if kind is Until {
        seq![LoopAnswer::Flag(true), LoopAnswer::Flag(false)]
    } else {
        seq![LoopAnswer::Flag(true)]
    };
    let tail = if start {
        seq![LoopAnswer::Flag(true), LoopAnswer::Done]
    } else {
        seq![LoopAnswer::Flag(false)]
    };
    head + seq![LoopAnswer::Done] + tail
}

/// An iteration of a loop looks whether it is to go on, responds to one
/// message, looks whether there is firmware to be fetched, and if so has it
/// fetched. Then the loop is where it was.
pub proof fn law_loop_iteration(kind: LoopKind, start: bool)
    ensures
        ({
            let p = Progress::Pending(ServiceLoop { kind, step: LoopStep::Running });
            let answers = loop_iteration(kind, start);
            let head = if kind is Until {
                seq![LoopAsk::IsRunning, LoopAsk::IsDone]
            } else {
                seq![LoopAsk::IsRunning]
            };
            let initiate = if kind is Responder {
                LoopAsk::RaiseInitiatorFlag
            } else {
                LoopAsk::RunInitiator
            };
            let tail = if start {
                seq![LoopAsk::ShouldStartInitiator, initiate]
            } else {
                seq![LoopAsk::ShouldStartInitiator]
            };
            &&& machine::answered(p, answers)
            &&& machine::asked(p, answers) == head + seq![LoopAsk::HandleResponderMsg] + tail
            &&& machine::run(p, answers) == p
        }),
{
    let answers = loop_iteration(kind, start);
    reveal_with_fuel(machine::run, 6);
    reveal_with_fuel(machine::answered, 6);
    reveal_with_fuel(machine::asked, 6);
    let n = answers.len() as int;
    assert(answers.drop_last() =~= answers.take(n - 1));
    assert(answers.take(n - 1).drop_last() =~= answers.take(n - 2));
    assert(answers.take(n - 2).drop_last() =~= answers.take(n - 3));
    if n >= 4 {
        assert(answers.take(n - 3).drop_last() =~= answers.take(n - 4));
    }
    if n == 5 {
        assert(answers.take(n - 4).drop_last() =~= answers.take(n - 5));
    }
    assert(answers.take(0) =~= Seq::empty());
}

/// A loop ends exactly where it finds the service stopped, or the condition
/// that it is to end on met.
pub proof fn law_loop_end(m: ServiceLoop, answer: LoopAnswer)
    requires
        m.wf(),
        m.accepts(answer),
    ensures
        m.after(answer) is Done <==> {
            ||| m.question() is IsRunning && answer == LoopAnswer::Flag(false)
            ||| m.question() is IsDone && answer == LoopAnswer::Flag(true)
        },
{
}

/// How an attempt at a download step ended.
#[derive(Copy, Clone, Debug, PartialEq, Eq, Structural)]
pub enum DownloadEnd {
    /// There is more to fetch.
    InProgress,
    /// The download has ended.
    Complete,
    /// The step has failed.
    Failed,
}

/// What the initiator asks for.
#[derive(Copy, Clone, Debug, PartialEq, Eq, Structural)]
pub enum InitiatorAsk {
    /// Is the service running?
    IsRunning,
    /// Is there nothing left to be fetched?
    ShouldStop,
    /// Do a step of the download in the session.
    Download,
    /// Write the session back.
    SyncSession,
    /// Send the message that is due and handle the response.
    HandleInitiatorMsg,
    /// Is there firmware to be fetched?
    ShouldStartInitiator,
    /// Open a session for the download.
    CreateSession,
    /// Sleep. How the sleep ends does not matter.
    SleepTicks { ticks: u32 },
}

/// What the initiator is answered.
#[derive(Copy, Clone, Debug, PartialEq, Eq, Structural)]
pub enum InitiatorAnswer {
    Flag(bool),
    Downloaded(DownloadEnd),
    /// Whether the message could be handled.
    Handled { ok: bool },
    /// It is done.
    Done,
}

/// How far an iteration of the initiator has come.
#[derive(Copy, Clone, Debug, PartialEq, Eq, Structural)]
pub enum InitiatorStep {
    Running,
    Stop,
    Download,
    Sync,
    Handle,
    Start,
    Create,
    Sleep,
}

/// The initiator: it fetches firmware until there is none left. Steps of the
/// download are done in a session of its own where it can.
#[derive(Copy, Clone, Debug, PartialEq, Eq, Structural)]
pub struct Initiator {
    /// Whether a session is open.
    pub session: bool,
    /// The number of steps since the session was opened. It wraps around.
    pub counter: u32,
    pub step: InitiatorStep,
}

/// Starts the initiator, without a session.
pub fn pldm_initiator_inline() -> (run: Initiator)
    ensures
        run == (Initiator { session: false, counter: 0, step: InitiatorStep::Running }),
        run.wf(),
{
    Initiator { session: false, counter: 0, step: InitiatorStep::Running }
}

impl Machine for Initiator {
    type Ask = InitiatorAsk;

    type Answer = InitiatorAnswer;

    type Out = ();

    open spec fn wf(self) -> bool {
        match self.step {
            InitiatorStep::Download => self.session,
            InitiatorStep::Sync => self.session,
            InitiatorStep::Handle => !self.session,
            InitiatorStep::Start => !self.session,
            InitiatorStep::Create => !self.session,
            _ => true,
        }
    }

    open spec fn question(self) -> InitiatorAsk {
        match self.step {
            InitiatorStep::Running => InitiatorAsk::IsRunning,
            InitiatorStep::Stop => InitiatorAsk::ShouldStop,
            InitiatorStep::Download => InitiatorAsk::Download,
            InitiatorStep::Sync => InitiatorAsk::SyncSession,
            InitiatorStep::Handle => InitiatorAsk::HandleInitiatorMsg,
            InitiatorStep::Start => InitiatorAsk::ShouldStartInitiator,
            InitiatorStep::Create => InitiatorAsk::CreateSession,
            InitiatorStep::Sleep => InitiatorAsk::SleepTicks { ticks: 1 },
        }
    }

    open spec fn accepts(self, answer: InitiatorAnswer) -> bool {
        match self.step {
            InitiatorStep::Running => answer is Flag,
            InitiatorStep::Stop => answer is Flag,
            InitiatorStep::Download => answer is Downloaded,
            InitiatorStep::Sync => answer is Done,
            InitiatorStep::Handle => answer is Handled,
            InitiatorStep::Start => answer is Flag,
            InitiatorStep::Create => answer is Done,
            InitiatorStep::Sleep => answer is Done,
        }
    }

    open spec fn after(self, answer: InitiatorAnswer) -> Progress<Initiator, ()> {
        let flag = answer == InitiatorAnswer::Flag(true);
        match self.step {
            InitiatorStep::Running => if flag {
                Progress::Pending(Initiator { step: InitiatorStep::Stop, ..self })
            } else {
                Progress::Done(())
            },
            InitiatorStep::Stop => if flag {
                Progress::Done(())
            } else if self.session {
                Progress::Pending(Initiator { step: InitiatorStep::Download, ..self })
            } else {
                Progress::Pending(Initiator { step: InitiatorStep::Handle, ..self })
            },
            InitiatorStep::Download => if answer == InitiatorAnswer::Downloaded(
                DownloadEnd::InProgress,
            ) {
                let counter = self.counter.wrapping_add(1);
                Progress::Pending(
                    Initiator {
                        counter,
                        step: if counter % YIELD_EVERY_ITERATIONS == 0 {
                            InitiatorStep::Sleep
                        } else {
                            InitiatorStep::Running
                        },
                        ..self
                    },
                )
            } else {
                Progress::Pending(Initiator { step: InitiatorStep::Sync, ..self })
            },
            InitiatorStep::Sync => Progress::Pending(
                Initiator { session: false, step: InitiatorStep::Handle, ..self },
            ),
            InitiatorStep::Handle => if answer == (InitiatorAnswer::Handled { ok: true }) {
                Progress::Pending(Initiator { step: InitiatorStep::Start, ..self })
            } else {
                Progress::Pending(Initiator { step: InitiatorStep::Sleep, ..self })
            },
            InitiatorStep::Start => if flag {
                Progress::Pending(Initiator { step: InitiatorStep::Create, ..self })
            } else {
                Progress::Pending(Initiator { step: InitiatorStep::Sleep, ..self })
            },
            InitiatorStep::Create => Progress::Pending(
                Initiator { session: true, counter: 0, step: InitiatorStep::Sleep },
            ),
            InitiatorStep::Sleep => Progress::Pending(
                Initiator { step: InitiatorStep::Running, ..self },
            ),
        }
    }

    proof fn after_is_wf(self, answer: InitiatorAnswer) {
    }

    fn ask(&self) -> (asked: InitiatorAsk) {
        match self.step {
            InitiatorStep::Running => InitiatorAsk::IsRunning,
            InitiatorStep::Stop => InitiatorAsk::ShouldStop,
            InitiatorStep::Download => InitiatorAsk::Download,
            InitiatorStep::Sync => InitiatorAsk::SyncSession,
            InitiatorStep::Handle => InitiatorAsk::HandleInitiatorMsg,
            InitiatorStep::Start => InitiatorAsk::ShouldStartInitiator,
            InitiatorStep::Create => InitiatorAsk::CreateSession,
            InitiatorStep::Sleep => InitiatorAsk::SleepTicks { ticks: 1 },
        }
    }

    fn resume(self, answer: InitiatorAnswer) -> (next: Progress<Initiator, ()>) {
        let flag = matches!(answer, InitiatorAnswer::Flag(true));
        let mut next = self;
        match self.step {
            InitiatorStep::Running => {
                if !flag {
                    return Progress::Done(());
                }
                next.step = InitiatorStep::Stop;
            },
            InitiatorStep::Stop => {
                if flag {
                    return Progress::Done(());
                }
                next.step = if self.session {
                    InitiatorStep::Download
                } else {
                    InitiatorStep::Handle
                };
            },
            InitiatorStep::Download => match answer {
                InitiatorAnswer::Downloaded(DownloadEnd::InProgress) => {
                    next.counter = self.counter.wrapping_add(1);
                    next.step = if next.counter % YIELD_EVERY_ITERATIONS == 0 {
                        InitiatorStep::Sleep
                    } else {
                        InitiatorStep::Running
                    };
                },
                _ => {
                    next.step = InitiatorStep::Sync;
                },
            },
            InitiatorStep::Sync => {
                next.session = false;
                next.step = InitiatorStep::Handle;
            },
            InitiatorStep::Handle => {
                next.step = if matches!(answer, InitiatorAnswer::Handled { ok: true }) {
                    InitiatorStep::Start
                } else {
                    InitiatorStep::Sleep
                };
            },
            InitiatorStep::Start => {
                next.step = if flag {
                    InitiatorStep::Create
                } else {
                    InitiatorStep::Sleep
                };
            },
            InitiatorStep::Create => {
                next.session = true;
                next.counter = 0;
                next.step = InitiatorStep::Sleep;
            },
            InitiatorStep::Sleep => {
                next.step = InitiatorStep::Running;
            },
        }
        Progress::Pending(next)
    }
}

/// The initiator ends exactly where it finds the service stopped or nothing
/// left to be fetched.
pub proof fn law_initiator_end(m: Initiator, answer: InitiatorAnswer)
    requires
        m.wf(),
        m.accepts(answer),
    ensures
        m.after(answer) is Done <==> {
            ||| m.question() is IsRunning && answer == InitiatorAnswer::Flag(false)
            ||| m.question() is ShouldStop && answer == InitiatorAnswer::Flag(true)
        },
{
}

/// As long as the initiator goes on, it gives a session up only by writing it
/// back, and it opens one only where none is open. Steps of the download are
/// done only in a session, and messages are handled in the ordinary way only
/// without one.
pub proof fn law_initiator_session(m: Initiator, answer: InitiatorAnswer)
    requires
        m.wf(),
        m.accepts(answer),
    ensures
        m.question() is Download ==> m.session,
        m.question() is HandleInitiatorMsg ==> !m.session,
        m.question() is CreateSession ==> !m.session,
        m.after(answer) matches Progress::Pending(next) ==> {
            &&& m.session && !next.session <==> m.question() is SyncSession
            &&& !m.session && next.session <==> m.question() is CreateSession
        },
{
}

/// The answers that take the initiator through an iteration in which a step of
/// the download is done and there is more to fetch. Every so often it sleeps.
pub open spec fn download_iteration(sleeps: bool) -> Seq<InitiatorAnswer> {
    let work = seq![
        InitiatorAnswer::Flag(true),
        InitiatorAnswer::Flag(false),
        InitiatorAnswer::Downloaded(DownloadEnd::InProgress),
    ];
    if sleeps {
        work.push(InitiatorAnswer::Done)
    } else {
        work
    }
}

/// The initiator at the top of its loop, in a session in which `steps` steps
/// of the download have been done.
pub open spec fn in_session(steps: nat) -> Progress<Initiator, ()> {
    Progress::Pending(
        Initiator {
            session: true,
            counter: (steps % 0x1_0000_0000) as u32,
            step: InitiatorStep::Running,
        },
    )
}

/// In a session the initiator sleeps after every thirty-second step of the
/// download, however many are done, and after no other.
pub proof fn law_initiator_yields(steps: nat)
    ensures
        ({
            let sleeps = (steps + 1) % (YIELD_EVERY_ITERATIONS as nat) == 0;
            let answers = download_iteration(sleeps);
            let work = seq![
                InitiatorAsk::IsRunning,
                InitiatorAsk::ShouldStop,
                InitiatorAsk::Download,
            ];
            &&& machine::answered(in_session(steps), answers)
            &&& machine::asked(in_session(steps), answers) == if sleeps {
                work.push(InitiatorAsk::SleepTicks { ticks: 1 })
            } else {
                work
            }
            &&& machine::run(in_session(steps), answers) == in_session(steps + 1)
        }),
{
    let sleeps = (steps + 1) % (YIELD_EVERY_ITERATIONS as nat) == 0;
    let answers = download_iteration(sleeps);
    let counter = (steps % 0x1_0000_0000) as u32;
    assert(counter.wrapping_add(1) == ((steps + 1) % 0x1_0000_0000) as u32);
    assert(counter.wrapping_add(1) % YIELD_EVERY_ITERATIONS == 0 <==> sleeps);
    let p = in_session(steps);
    let none = Seq::<InitiatorAnswer>::empty();
    let one = none.push(InitiatorAnswer::Flag(true));
    let two = one.push(InitiatorAnswer::Flag(false));
    let three = two.push(InitiatorAnswer::Downloaded(DownloadEnd::InProgress));
    machine::law_one_more_answer(p, none, InitiatorAnswer::Flag(true));
    machine::law_one_more_answer(p, one, InitiatorAnswer::Flag(false));
    machine::law_one_more_answer(
        p,
        two,
        InitiatorAnswer::Downloaded(DownloadEnd::InProgress),
    );
    if sleeps {
        machine::law_one_more_answer(p, three, InitiatorAnswer::Done);
        assert(answers =~= three.push(InitiatorAnswer::Done));
    } else {
        assert(answers =~= three);
    }
}

/// A download step that ends the download or fails is followed by writing the
/// session back and by handling a message in the ordinary way, in the same
/// iteration.
pub proof fn law_initiator_falls_back(counter: u32, end: DownloadEnd)
    requires
        end != DownloadEnd::InProgress,
    ensures
        ({
            let p = Progress::Pending(
                Initiator { session: true, counter, step: InitiatorStep::Download },
            );
            let answers = seq![InitiatorAnswer::Downloaded(end), InitiatorAnswer::Done];
            &&& machine::answered(p, answers)
            &&& machine::asked(p, answers) == seq![
                InitiatorAsk::Download,
                InitiatorAsk::SyncSession,
            ]
            &&& machine::run(p, answers) == Progress::<Initiator, ()>::Pending(
                Initiator { session: false, counter, step: InitiatorStep::Handle },
            )
        }),
{
    let answers = seq![InitiatorAnswer::Downloaded(end), InitiatorAnswer::Done];
    reveal_with_fuel(machine::run, 3);
    reveal_with_fuel(machine::answered, 3);
    reveal_with_fuel(machine::asked, 3);
    assert(answers.drop_last() =~= answers.take(1));
    assert(answers.take(1).drop_last() =~= Seq::empty());
}

/// What comes after each question of the initiator. It looks whether it is to
/// go on before anything else. In a session it does a step of the download, and
/// stays in the session while there is more; otherwise it writes the session
/// back and handles a message in the ordinary way. Handling a message is
/// followed by a sleep, and by opening a session before the sleep exactly if the
/// message was handled well and there is firmware to be fetched.
pub proof fn law_initiator_steps(m: Initiator, answer: InitiatorAnswer)
    requires
        m.wf(),
        m.accepts(answer),
    ensures
        match (m.question(), answer) {
            (InitiatorAsk::IsRunning, InitiatorAnswer::Flag(running)) => if running {
                m.after(answer) matches Progress::Pending(next) && next.question() is ShouldStop
                    && next.session == m.session && next.counter == m.counter
            } else {
                m.after(answer) is Done
            },
            (InitiatorAsk::ShouldStop, InitiatorAnswer::Flag(stop)) => if stop {
                m.after(answer) is Done
            } else {
                &&& m.after(answer) matches Progress::Pending(next)
                &&& m.session ==> next.question() is Download
                &&& !m.session ==> next.question() is HandleInitiatorMsg
                &&& next.session == m.session && next.counter == m.counter
            },
            (InitiatorAsk::Download, InitiatorAnswer::Downloaded(end)) => {
                &&& m.after(answer) matches Progress::Pending(next)
                &&& m.session && next.session
                &&& end is InProgress ==> {
                    &&& next.counter == if m.counter == u32::MAX {
                        0
                    } else {
                        m.counter + 1
                    }
                    &&& next.question() == if next.counter % 32 == 0 {
                        InitiatorAsk::SleepTicks { ticks: 1 }
                    } else {
                        InitiatorAsk::IsRunning
                    }
                }
                &&& !(end is InProgress) ==> next.question() is SyncSession
            },
            (InitiatorAsk::SyncSession, InitiatorAnswer::Done) => {
                &&& m.after(answer) matches Progress::Pending(next)
                &&& next.question() is HandleInitiatorMsg
                &&& !next.session
            },
            (InitiatorAsk::HandleInitiatorMsg, InitiatorAnswer::Handled { ok }) => {
                &&& m.after(answer) matches Progress::Pending(next)
                &&& next.question() == if ok {
                    InitiatorAsk::ShouldStartInitiator
                } else {
                    InitiatorAsk::SleepTicks { ticks: 1 }
                }
                &&& !next.session
            },
            (InitiatorAsk::ShouldStartInitiator, InitiatorAnswer::Flag(start)) => {
                &&& m.after(answer) matches Progress::Pending(next)
                &&& next.question() == if start {
                    InitiatorAsk::CreateSession
                } else {
                    InitiatorAsk::SleepTicks { ticks: 1 }
                }
                &&& !next.session
            },
            (InitiatorAsk::CreateSession, InitiatorAnswer::Done) => {
                &&& m.after(answer) matches Progress::Pending(next)
                &&& next.question() == (InitiatorAsk::SleepTicks { ticks: 1 })
                &&& next.session && next.counter == 0
            },
            (InitiatorAsk::SleepTicks { ticks }, InitiatorAnswer::Done) => {
                &&& ticks == 1
                &&& m.after(answer) matches Progress::Pending(next)
                &&& next.question() is IsRunning
                &&& next.session == m.session && next.counter == m.counter
            },
            _ => false,
        },
{
}

/// An iteration without a session, whatever comes of the message, and one that
/// leaves its session, end in a sleep of one tick, after which the initiator
/// looks again whether it is to go on.
pub proof fn law_initiator_iteration(ok: bool, start: bool, counter: u32)
    ensures
        ({
            let top = Initiator { session: false, counter, step: InitiatorStep::Running };
            let head = seq![
                InitiatorAnswer::Flag(true),
                InitiatorAnswer::Flag(false),
                InitiatorAnswer::Handled { ok },
            ];
            let middle = if !ok {
                seq![]
            } else if start {
                seq![InitiatorAnswer::Flag(true), InitiatorAnswer::Done]
            } else {
                seq![InitiatorAnswer::Flag(false)]
            };
            let tail = seq![
                InitiatorAnswer::Done,
                InitiatorAnswer::Flag(true),
                InitiatorAnswer::Flag(false),
            ];
            let answers = head + middle + tail;
            let asked = machine::asked(Progress::Pending(top), answers);
            let n = answers.len() as int;
            &&& machine::answered(Progress::Pending(top), answers)
            &&& asked.len() == n
            &&& asked[0] is IsRunning && asked[1] is ShouldStop && asked[2] is HandleInitiatorMsg
            &&& asked[n - 3] == (InitiatorAsk::SleepTicks { ticks: 1 })
            &&& asked[n - 2] is IsRunning && asked[n - 1] is ShouldStop
            &&& machine::run(Progress::Pending(top), answers) matches Progress::Pending(next)
            &&& next.session == (ok && start)
            &&& next.question() == if ok && start {
                InitiatorAsk::Download
            } else {
                InitiatorAsk::HandleInitiatorMsg
            }
        }),
{
    let top = Initiator { session: false, counter, step: InitiatorStep::Running };
    let head = seq![
        InitiatorAnswer::Flag(true),
        InitiatorAnswer::Flag(false),
        InitiatorAnswer::Handled { ok },
    ];
    let middle = if !ok {
        seq![]
    } else if start {
        seq![InitiatorAnswer::Flag(true), InitiatorAnswer::Done]
    } else {
        seq![InitiatorAnswer::Flag(false)]
    };
    let tail = seq![
        InitiatorAnswer::Done,
        InitiatorAnswer::Flag(true),
        InitiatorAnswer::Flag(false),
    ];
    let p = Progress::Pending(top);
    let none = Seq::<InitiatorAnswer>::empty();
    let one = none.push(InitiatorAnswer::Flag(true));
    let two = one.push(InitiatorAnswer::Flag(false));
    let three = two.push(InitiatorAnswer::Handled { ok });
    machine::law_one_more_answer(p, none, InitiatorAnswer::Flag(true));
    machine::law_one_more_answer(p, one, InitiatorAnswer::Flag(false));
    machine::law_one_more_answer(p, two, InitiatorAnswer::Handled { ok });
    let four = three.push(InitiatorAnswer::Flag(start));
    let work = if !ok {
        three
    } else if start {
        machine::law_one_more_answer(p, three, InitiatorAnswer::Flag(true));
        machine::law_one_more_answer(p, four, InitiatorAnswer::Done);
        four.push(InitiatorAnswer::Done)
    } else {
        machine::law_one_more_answer(p, three, InitiatorAnswer::Flag(false));
        four
    };
    assert(work =~= head + middle);
    let slept = work.push(InitiatorAnswer::Done);
    machine::law_one_more_answer(p, work, InitiatorAnswer::Done);
    let runs = slept.push(InitiatorAnswer::Flag(true));
    machine::law_one_more_answer(p, slept, InitiatorAnswer::Flag(true));
    machine::law_one_more_answer(p, runs, InitiatorAnswer::Flag(false));
    assert(runs.push(InitiatorAnswer::Flag(false)) =~= head + middle + tail);
}

/// Between two messages that are handled in the ordinary way the initiator
/// always looks whether the service is running and whether it is to stop; the
/// same between a message and a step of the download after it, and between two
/// steps of the download. So it never goes on for long without looking.
pub proof fn law_initiator_looks(answers: Seq<InitiatorAnswer>, i: int, j: int)
    requires
        machine::answered(
            Progress::Pending(
                Initiator { session: false, counter: 0, step: InitiatorStep::Running },
            ),
            answers,
        ),
        0 <= i < j < answers.len(),
        ({
            let asked = machine::asked(
                Progress::Pending(
                    Initiator { session: false, counter: 0, step: InitiatorStep::Running },
                ),
                answers,
            );
            &&& asked[i] is HandleInitiatorMsg || asked[i] is Download && asked[j] is Download
            &&& asked[j] is HandleInitiatorMsg || asked[j] is Download
        }),
    ensures
        ({
            let asked = machine::asked(
                Progress::Pending(
                    Initiator { session: false, counter: 0, step: InitiatorStep::Running },
                ),
                answers,
            );
            &&& exists|k: int| i < k < j && #[trigger] asked[k] == InitiatorAsk::IsRunning
            &&& exists|k: int| i < k < j && #[trigger] asked[k] == InitiatorAsk::ShouldStop
        }),
    decreases j,
{
    let p = Progress::Pending(
        Initiator { session: false, counter: 0, step: InitiatorStep::Running },
    );
    let asked = machine::asked(p, answers);
    // Go back from `j`: a message or a step comes right after the question whether
    // to stop, which comes right after the question whether the service runs; or
    // a message comes after a session was written back, after a step.
    lemma_initiator_predecessor(answers, j);
    if asked[j - 1] is ShouldStop {
        lemma_initiator_predecessor(answers, j - 1);
        assert(asked[j - 2] is IsRunning);
        assert(i < j - 2);
        assert(asked[j - 1] == InitiatorAsk::ShouldStop);
        assert(asked[j - 2] == InitiatorAsk::IsRunning);
    } else {
        assert(asked[j] is HandleInitiatorMsg && asked[j - 1] is SyncSession);
        lemma_initiator_predecessor(answers, j - 1);
        assert(asked[j - 2] is Download);
        assert(asked[i] is HandleInitiatorMsg);
        law_initiator_looks(answers, i, j - 2);
        let a = choose|k: int| i < k < j - 2 && #[trigger] asked[k] == InitiatorAsk::IsRunning;
        let b = choose|k: int| i < k < j - 2 && #[trigger] asked[k] == InitiatorAsk::ShouldStop;
        assert(i < a < j && asked[a] == InitiatorAsk::IsRunning);
        assert(i < b < j && asked[b] == InitiatorAsk::ShouldStop);
    }
}

/// The question before a question of the initiator.
proof fn lemma_initiator_predecessor(answers: Seq<InitiatorAnswer>, j: int)
    requires
        machine::answered(
            Progress::Pending(
                Initiator { session: false, counter: 0, step: InitiatorStep::Running },
            ),
            answers,
        ),
        0 <= j < answers.len(),
    ensures
        ({
            let asked = machine::asked(
                Progress::Pending(
                    Initiator { session: false, counter: 0, step: InitiatorStep::Running },
                ),
                answers,
            );
            &&& j == 0 ==> asked[j] is IsRunning
            &&& asked[j] is ShouldStop ==> j > 0 && asked[j - 1] is IsRunning
            &&& asked[j] is Download ==> j > 0 && asked[j - 1] is ShouldStop
            &&& asked[j] is SyncSession ==> j > 0 && asked[j - 1] is Download
            &&& asked[j] is HandleInitiatorMsg ==> j > 0 && (asked[j - 1] is ShouldStop
                || asked[j - 1] is SyncSession)
        }),
{
    let start = Initiator { session: false, counter: 0, step: InitiatorStep::Running };
    let p = Progress::Pending(start);
    machine::law_runs_step_by_step(p, answers, j);
    if j > 0 {
        machine::law_runs_step_by_step(p, answers, j - 1);
        machine::law_runs_stay_reachable(p, answers.take(j - 1));
    } else {
        assert(answers.take(0) =~= Seq::empty());
    }
}

/// The number of steps between two sleeps.
pub proof fn law_daemon_numbers()
    ensures
        YIELD_EVERY_ITERATIONS == 32,
{
}

/// Starting is refused exactly while the flag is up; starting and running raise
/// the flag, stopping lowers it, and making a service leaves it.
pub proof fn law_flag(running: bool)
    ensures
        started(running) is Err <==> running,
        started(running) is Err ==> started(running)->Err_0 == PldmServiceError::StartError,
        started(running) is Ok ==> {
            &&& started(running)->Ok_0.question() is IsRunning
            &&& started(running)->Ok_0.kind is Service
        },
        flag_after(running, ServiceOp::Start),
        flag_after(running, ServiceOp::RunUntil),
        !flag_after(running, ServiceOp::Stop),
        flag_after(running, ServiceOp::Init) == running,
{
}

/// What comes after each question of a loop.
pub proof fn law_loop_steps(m: ServiceLoop, answer: LoopAnswer)
    requires
        m.wf(),
        m.accepts(answer),
    ensures
        m.after(answer) matches Progress::Pending(next) ==> next.kind == m.kind && match (
            m.question(),
            answer,
        ) {
            (LoopAsk::IsRunning, LoopAnswer::Flag(running)) => running && next.question()
                == if m.kind is Until {
                LoopAsk::IsDone
            } else {
                LoopAsk::HandleResponderMsg
            },
            (LoopAsk::IsDone, LoopAnswer::Flag(done)) => !done && next.question()
                is HandleResponderMsg,
            (LoopAsk::HandleResponderMsg, LoopAnswer::Done) => next.question()
                is ShouldStartInitiator,
            (LoopAsk::ShouldStartInitiator, LoopAnswer::Flag(start)) => next.question() == if start
                && m.kind is Responder {
                LoopAsk::RaiseInitiatorFlag
            } else if start {
                LoopAsk::RunInitiator
            } else {
                LoopAsk::IsRunning
            },
            (LoopAsk::RunInitiator, LoopAnswer::Done) => next.question() is IsRunning,
            (LoopAsk::RaiseInitiatorFlag, LoopAnswer::Done) => next.question() is IsRunning,
            _ => false,
        },
{
}

/// However a message came out that was handled in the ordinary way, the
/// initiator then sleeps for a tick, and looks whether the service is running
/// and whether it is to stop. Before the sleep it asks whether there is firmware
/// to be fetched, if the message was handled well, and opens a session if there
/// is; it asks nothing else.
pub proof fn law_initiator_sleeps(answers: Seq<InitiatorAnswer>, i: int)
    requires
        machine::answered(
            Progress::Pending(
                Initiator { session: false, counter: 0, step: InitiatorStep::Running },
            ),
            answers,
        ),
        0 <= i < answers.len(),
        machine::asked(
            Progress::Pending(
                Initiator { session: false, counter: 0, step: InitiatorStep::Running },
            ),
            answers,
        )[i] is HandleInitiatorMsg,
    ensures
        ({
            let asked = machine::asked(
                Progress::Pending(
                    Initiator { session: false, counter: 0, step: InitiatorStep::Running },
                ),
                answers,
            );
            let n = answers.len();
            let sleep = if answers[i] == (InitiatorAnswer::Handled { ok: false }) {
                i + 1
            } else if i + 1 < n && answers[i + 1] == InitiatorAnswer::Flag(true) {
                i + 3
            } else {
                i + 2
            };
            &&& answers[i] is Handled
            &&& i + 1 < n && sleep > i + 1 ==> asked[i + 1] is ShouldStartInitiator
                && answers[i + 1] is Flag
            &&& i + 2 < n && sleep > i + 2 ==> asked[i + 2] is CreateSession
            &&& sleep < n ==> asked[sleep] == (InitiatorAsk::SleepTicks { ticks: 1 })
            &&& sleep + 1 < n ==> asked[sleep + 1] is IsRunning
            &&& sleep + 2 < n ==> asked[sleep + 2] is ShouldStop
        }),
{
    let p = Progress::Pending(
        Initiator { session: false, counter: 0, step: InitiatorStep::Running },
    );
    let n = answers.len();
    assert forall|k: int| i <= k < n && k <= i + 5 implies {
        let run = #[trigger] machine::run(p, answers.take(k));
        &&& run matches Progress::Pending(m)
        &&& m.accepts(answers[k])
        &&& machine::asked(p, answers)[k] == m.question()
        &&& machine::run(p, answers.take(k + 1)) == m.after(answers[k])
    } by {
        machine::law_runs_step_by_step(p, answers, k);
    }
    let m = machine::run(p, answers.take(i))->Pending_0;
    assert(i + 1 < n ==> machine::run(p, answers.take(i + 1)) is Pending);
    assert(i + 2 < n ==> machine::run(p, answers.take(i + 2)) is Pending);
    assert(i + 3 < n ==> machine::run(p, answers.take(i + 3)) is Pending);
    assert(i + 4 < n ==> machine::run(p, answers.take(i + 4)) is Pending);
    assert(i + 5 < n ==> machine::run(p, answers.take(i + 5)) is Pending);
}

} // verus!

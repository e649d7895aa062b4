//! The mailbox through which other agents send commands.

use vstd::prelude::*;

use crate::blocking;
use crate::blocking::{
    subscribe_allow_ro_and_wait, subscribe_allow_rw_and_wait, BlockingCall, Phase,
};
use crate::error::ErrorCode;
use crate::kernel;
use crate::kernel::{
    BlockingRequest, Command, Expect, KernelReply, Op, Region, Reply, ReturnVariant, Share,
    Syscall,
};
use crate::machine;
use crate::machine::{Machine, Progress};

verus! {

/// Driver number of the first mailbox.
pub const MCU_MBOX0_DRIVER_NUM: u32 = 0x8000_0010;

/// Succeeds if the driver exists.
pub const CMD_EXISTS: u32 = 0;

/// Receives a request.
pub const CMD_RECEIVE_REQUEST: u32 = 1;

/// Sends a response.
pub const CMD_SEND_RESPONSE: u32 = 2;

/// Finishes a response by setting the command status.
pub const CMD_FINISH_RESP: u32 = 3;

/// Read-only buffer with the response.
pub const RO_ALLOW_RESPONSE: u32 = 0;

/// Read-write buffer that receives the request.
pub const RW_ALLOW_REQUEST: u32 = 0;

/// Request received callback.
pub const SUBSCRIBE_REQUEST_RECEIVED: u32 = 0;

/// Response sent callback.
pub const SUBSCRIBE_RESPONSE_SENT: u32 = 1;

/// The code of a mailbox command.
pub type CmdCode = u32;

/// The status of the mailbox.
#[derive(Debug, Copy, Clone, PartialEq, Eq, Structural)]
pub enum MbxCmdStatus {
    /// The command is still being processed.
    Busy,
    /// Data is available to be read.
    DataReady,
    /// The command completed successfully.
    Complete,
    /// The command failed.
    Failure,
}

/// The number that stands for a status.
pub open spec fn status_code(status: MbxCmdStatus) -> u32 {
    match status {
        MbxCmdStatus::Busy => 0,
        MbxCmdStatus::DataReady => 1,
        MbxCmdStatus::Complete => 2,
        MbxCmdStatus::Failure => 3,
    }
}

/// Each status has a number of its own.
pub proof fn law_status_codes_differ(a: MbxCmdStatus, b: MbxCmdStatus)
    ensures
        status_code(a) == status_code(b) <==> a == b,
{
}

impl From<MbxCmdStatus> for u32 {
    fn from(status: MbxCmdStatus) -> (code: u32) {
        match status {
            MbxCmdStatus::Busy => 0,
            MbxCmdStatus::DataReady => 1,
            MbxCmdStatus::Complete => 2,
            MbxCmdStatus::Failure => 3,
        }
    }
}

impl vstd::std_specs::convert::FromSpecImpl<MbxCmdStatus> for u32 {
    open spec fn obeys_from_spec() -> bool {
        true
    }

    open spec fn from_spec(status: MbxCmdStatus) -> u32 {
        status_code(status)
    }
}

/// The mailbox driver.
#[derive(Copy, Clone, Debug, PartialEq, Eq, Structural)]
pub struct McuMbox {
    pub driver_num: u32,
}

/// The request that waits for a command in a buffer of `len` bytes.
pub open spec fn receive_request(driver_num: u32, len: usize) -> BlockingRequest {
    BlockingRequest {
        driver_num,
        subscribe_num: SUBSCRIBE_REQUEST_RECEIVED,
        ro: None,
        rw: Some(Share { buffer_num: RW_ALLOW_REQUEST, region: Region { start: 0, len } }),
        cmd: CMD_RECEIVE_REQUEST,
        arg1: 0,
        arg2: 0,
    }
}

/// The operation that sends a response of `len` bytes.
pub open spec fn send_request(driver_num: u32, len: usize) -> Op {
    Op::Blocking(
        BlockingRequest {
            driver_num,
            subscribe_num: SUBSCRIBE_RESPONSE_SENT,
            ro: Some(Share { buffer_num: RO_ALLOW_RESPONSE, region: Region { start: 0, len } }),
            rw: None,
            cmd: CMD_SEND_RESPONSE,
            arg1: 0,
            arg2: 0,
        },
    )
}

impl Default for McuMbox {
    fn default() -> (mbox: McuMbox)
        ensures
            mbox.driver_num == MCU_MBOX0_DRIVER_NUM,
    {
        McuMbox::new(MCU_MBOX0_DRIVER_NUM)
    }
}

impl McuMbox {
    /// The mailbox behind a driver number.
    pub fn new(driver_num: u32) -> (mbox: McuMbox)
        ensures
            mbox.driver_num == driver_num,
    {
        McuMbox { driver_num }
    }

    /// Asks whether the driver is available. It is if the command succeeds,
    /// whatever value comes with the success.
    pub fn driver_exists(&self) -> (op: Op)
        ensures
            op == (Op::Command {
                command: Command {
                    driver_num: self.driver_num,
                    command_num: CMD_EXISTS,
                    arg0: 0,
                    arg1: 0,
                },
                expect: Expect::Success,
            }),
    {
        Op::Command {
            command: Command {
                driver_num: self.driver_num,
                command_num: CMD_EXISTS,
                arg0: 0,
                arg1: 0,
            },
            expect: Expect::Success,
        }
    }

    /// Whether the reply to `driver_exists` says that the driver is available.
    pub fn exists_reply(reply: Reply) -> (found: bool)
        ensures
            found == (reply is Ok),
    {
        reply.is_ok()
    }

    /// Waits for a command in a buffer of `data_len` bytes. An empty buffer is
    /// refused. With `on_listening` the caller is told first that the mailbox
    /// is about to listen.
    pub fn receive_command(&self, data_len: usize, on_listening: bool) -> (p: Progress<
        ReceiveCommand,
        Result<(CmdCode, usize), ErrorCode>,
    >)
        ensures
            p == if data_len == 0 {
                Progress::<ReceiveCommand, Result<(CmdCode, usize), ErrorCode>>::Done(
                    Err(ErrorCode::Invalid),
                )
            } else {
                Progress::Pending(
                    ReceiveCommand {
                        driver_num: self.driver_num,
                        data_len,
                        listening: !on_listening,
                    },
                )
            },
    {
        if data_len == 0 {
            return Progress::Done(Err(ErrorCode::Invalid));
        }
        Progress::Pending(
            ReceiveCommand { driver_num: self.driver_num, data_len, listening: !on_listening },
        )
    }

    /// Sends a response of `data_len` bytes. An empty one is refused. The
    /// reply is read by [`kernel::unit_reply`].
    pub fn send_response(&self, data_len: usize) -> (r: Result<Op, ErrorCode>)
        ensures
            r == if data_len == 0 {
                Err::<Op, ErrorCode>(ErrorCode::Invalid)
            } else {
                Ok(send_request(self.driver_num, data_len))
            },
    {
        if data_len == 0 {
            return Err(ErrorCode::Invalid);
        }
        Ok(
            Op::Blocking(
                subscribe_allow_ro_and_wait(
                    self.driver_num,
                    SUBSCRIBE_RESPONSE_SENT,
                    RO_ALLOW_RESPONSE,
                    Region { start: 0, len: data_len },
                    CMD_SEND_RESPONSE,
                    0,
                    0,
                ),
            ),
        )
    }

    /// Sets the status of the command in hand.
    pub fn finish_response(&self, status: MbxCmdStatus) -> (op: Op)
        ensures
            op == kernel::unit_command(self.driver_num, CMD_FINISH_RESP, status_code(status), 0),
    {
        Op::Command {
            command: Command {
                driver_num: self.driver_num,
                command_num: CMD_FINISH_RESP,
                arg0: u32::from(status),
                arg1: 0,
            },
            expect: Expect::Unit,
        }
    }

    /// Starts to listen for a command in a buffer of `buf_len` bytes without
    /// waiting for it. An empty buffer is refused.
    pub fn setup_receive_command(&self, buf_len: usize) -> (r: Result<SetupReceive, ErrorCode>)
        ensures
            r == if buf_len == 0 {
                Err::<SetupReceive, ErrorCode>(ErrorCode::Invalid)
            } else {
                Ok(
                    SetupReceive {
                        call: BlockingCall::at_start(receive_request(self.driver_num, buf_len)),
                    },
                )
            },
            r matches Ok(setup) ==> setup.wf(),
    {
        if buf_len == 0 {
            return Err(ErrorCode::Invalid);
        }
        let request = subscribe_allow_rw_and_wait(
            self.driver_num,
            SUBSCRIBE_REQUEST_RECEIVED,
            RW_ALLOW_REQUEST,
            Region { start: 0, len: buf_len },
            CMD_RECEIVE_REQUEST,
            0,
            0,
        );
        Ok(SetupReceive { call: BlockingCall::start(request) })
    }

    /// Starts to listen for the next command in the buffer that is set up.
    pub fn arm_receive_command(&self) -> (op: Op)
        ensures
            op == kernel::unit_command(self.driver_num, CMD_RECEIVE_REQUEST, 0, 0),
    {
        Op::Command {
            command: Command {
                driver_num: self.driver_num,
                command_num: CMD_RECEIVE_REQUEST,
                arg0: 0,
                arg1: 0,
            },
            expect: Expect::Unit,
        }
    }
}

/// What a [`ReceiveCommand`] asks for.
#[derive(Copy, Clone, Debug, PartialEq, Eq)]
pub enum ReceiveAsk {
    /// Tell others that the mailbox is about to listen.
    OnListening,
    /// Wait for the command.
    Kernel(Op),
}

/// What a [`ReceiveCommand`] is answered.
#[derive(Copy, Clone, Debug, PartialEq, Eq)]
pub enum ReceiveAnswer {
    /// The others have been told.
    Told,
    /// The reply of the kernel.
    Kernel(Reply),
}

/// A command being waited for.
#[derive(Copy, Clone, Debug, PartialEq, Eq, Structural)]
pub struct ReceiveCommand {
    pub driver_num: u32,
    pub data_len: usize,
    /// Whether there is nobody left to tell.
    pub listening: bool,
}

impl Machine for ReceiveCommand {
    type Ask = ReceiveAsk;

    type Answer = ReceiveAnswer;

    type Out = Result<(CmdCode, usize), ErrorCode>;

    open spec fn wf(self) -> bool {
        true
    }

    open spec fn question(self) -> ReceiveAsk {
        if self.listening {
            ReceiveAsk::Kernel(Op::Blocking(receive_request(self.driver_num, self.data_len)))
        } else {
            ReceiveAsk::OnListening
        }
    }

    open spec fn accepts(self, answer: ReceiveAnswer) -> bool {
        self.listening == (answer is Kernel)
    }

    open spec fn after(self, answer: ReceiveAnswer) -> Progress<
        ReceiveCommand,
        Result<(CmdCode, usize), ErrorCode>,
    > {
        match answer {
            ReceiveAnswer::Told => Progress::Pending(ReceiveCommand { listening: true, ..self }),
            ReceiveAnswer::Kernel(Ok(args)) => Progress::Done(Ok((args.0, args.1 as usize))),
            ReceiveAnswer::Kernel(Err(e)) => Progress::Done(Err(e)),
        }
    }

    proof fn after_is_wf(self, answer: ReceiveAnswer) {
    }

    fn ask(&self) -> (asked: ReceiveAsk) {
        if self.listening {
            ReceiveAsk::Kernel(
                Op::Blocking(
                    subscribe_allow_rw_and_wait(
                        self.driver_num,
                        SUBSCRIBE_REQUEST_RECEIVED,
                        RW_ALLOW_REQUEST,
                        Region { start: 0, len: self.data_len },
                        CMD_RECEIVE_REQUEST,
                        0,
                        0,
                    ),
                ),
            )
        } else {
            ReceiveAsk::OnListening
        }
    }

    fn resume(self, answer: ReceiveAnswer) -> (next: Progress<
        ReceiveCommand,
        Result<(CmdCode, usize), ErrorCode>,
    >) {
        match answer {
            ReceiveAnswer::Told => Progress::Pending(
                ReceiveCommand {
                    driver_num: self.driver_num,
                    data_len: self.data_len,
                    listening: true,
                },
            ),
            ReceiveAnswer::Kernel(reply) => match reply {
                Ok(args) => Progress::Done(Ok((args.0, args.1 as usize))),
                Err(e) => Progress::Done(Err(e)),
            },
        }
    }
}

/// A command is waited for once, after the caller has been told if it wants to
/// be, and what the kernel replies is what comes of it.
pub proof fn law_receive_command(
    driver_num: u32,
    data_len: usize,
    on_listening: bool,
    reply: Reply,
)
    ensures
        ({
            let p = Progress::Pending(
                ReceiveCommand { driver_num, data_len, listening: !on_listening },
            );
            let wait = ReceiveAsk::Kernel(Op::Blocking(receive_request(driver_num, data_len)));
            let answers = if on_listening {
                seq![ReceiveAnswer::Told, ReceiveAnswer::Kernel(reply)]
            } else {
                seq![ReceiveAnswer::Kernel(reply)]
            };
            &&& machine::answered(p, answers)
            &&& machine::asked(p, answers) == if on_listening {
                seq![ReceiveAsk::OnListening, wait]
            } else {
                seq![wait]
            }
            &&& machine::run(p, answers) == Progress::<
                ReceiveCommand,
                Result<(CmdCode, usize), ErrorCode>,
            >::Done(
                match reply {
                    Ok(args) => Ok((args.0, args.1 as usize)),
                    Err(e) => Err(e),
                },
            )
        }),
{
    let one = seq![ReceiveAnswer::Kernel(reply)];
    let two = seq![ReceiveAnswer::Told, ReceiveAnswer::Kernel(reply)];
    reveal_with_fuel(machine::run, 3);
    reveal_with_fuel(machine::answered, 3);
    reveal_with_fuel(machine::asked, 3);
    assert(one.drop_last() =~= Seq::empty());
    assert(two.drop_last() =~= seq![ReceiveAnswer::Told]);
    assert(two.drop_last().drop_last() =~= Seq::empty());
}

/// The calls that make the mailbox listen, under way. They are those of a
/// blocking request up to the point where it would wait.
#[derive(Copy, Clone, Debug, PartialEq, Eq)]
pub struct SetupReceive {
    pub call: BlockingCall,
}

impl Machine for SetupReceive {
    type Ask = Syscall;

    type Answer = KernelReply;

    type Out = Result<(), ErrorCode>;

    open spec fn wf(self) -> bool {
        &&& self.call.wf()
        &&& self.call.phase != Phase::Wait
    }

    open spec fn question(self) -> Syscall {
        self.call.question()
    }

    open spec fn accepts(self, answer: KernelReply) -> bool {
        self.call.accepts(answer)
    }

    open spec fn after(self, answer: KernelReply) -> Progress<
        SetupReceive,
        Result<(), ErrorCode>,
    > {
        match self.call.after(answer) {
            Progress::Done(Err(e)) => Progress::Done(Err(e)),
            Progress::Done(Ok(_)) => Progress::Done(Ok(())),
            Progress::Pending(call) => if call.phase == Phase::Wait {
                Progress::Done(Ok(()))
            } else {
                Progress::Pending(SetupReceive { call })
            },
        }
    }

    proof fn after_is_wf(self, answer: KernelReply) {
        self.call.after_is_wf(answer);
    }

    fn ask(&self) -> (asked: Syscall) {
        self.call.ask()
    }

    fn resume(self, answer: KernelReply) -> (next: Progress<SetupReceive, Result<(), ErrorCode>>) {
        match self.call.resume(answer) {
            Progress::Done(Err(e)) => Progress::Done(Err(e)),
            Progress::Done(Ok(_)) => Progress::Done(Ok(())),
            Progress::Pending(call) => match call.phase {
                Phase::Wait => Progress::Done(Ok(())),
                _ => Progress::Pending(SetupReceive { call }),
            },
        }
    }
}

/// Setting the mailbox up makes the calls of the plan in their order, never
/// waits, and ends at the first failure or after the last call.
pub proof fn law_setup_receive(
    request: BlockingRequest,
    answers: Seq<KernelReply>,
)
    requires
        machine::answered(
            Progress::Pending(SetupReceive { call: BlockingCall::at_start(request) }),
            answers,
        ),
    ensures
        ({
            let p = Progress::Pending(SetupReceive { call: BlockingCall::at_start(request) });
            let n = answers.len() as int;
            let plan = blocking::plan(request);
            &&& n <= plan.len()
            &&& machine::asked(p, answers) == plan.take(n)
            &&& forall|i: int|
                0 <= i < n - 1 ==> blocking::reply_error(#[trigger] answers[i]) is None
            &&& if n > 0 && blocking::reply_error(answers.last()) is Some {
                machine::run(p, answers) == Progress::<SetupReceive, Result<(), ErrorCode>>::Done(
                    Err(blocking::reply_error(answers.last())->0),
                )
            } else if n == plan.len() {
                machine::run(p, answers) == Progress::<SetupReceive, Result<(), ErrorCode>>::Done(
                    Ok(()),
                )
            } else {
                &&& machine::run(p, answers) matches Progress::Pending(m)
                &&& m.wf()
                &&& m.call.request == request
                &&& m.call.pos() == n
            }
        }),
    decreases answers.len(),
{
    let plan = blocking::plan(request);
    if answers.len() == 0 {
        assert(plan.take(0) =~= Seq::empty());
    } else {
        let before = answers.drop_last();
        law_setup_receive(request, before);
        let n = before.len() as int;
        assert(plan.take(n + 1) =~= plan.take(n).push(plan[n]));
        assert forall|i: int| 0 <= i < answers.len() - 1 implies blocking::reply_error(
            #[trigger] answers[i],
        ) is None by {
            assert(answers[i] == before[i]);
        }
    }
}

/// The number of each status, and the numbers of the driver.
pub proof fn law_mcu_mbox_numbers()
    ensures
        status_code(MbxCmdStatus::Busy) == 0 && status_code(MbxCmdStatus::DataReady) == 1
            && status_code(MbxCmdStatus::Complete) == 2 && status_code(MbxCmdStatus::Failure)
            == 3,
        MCU_MBOX0_DRIVER_NUM == 0x8000_0010,
        CMD_EXISTS == 0 && CMD_RECEIVE_REQUEST == 1 && CMD_SEND_RESPONSE == 2 && CMD_FINISH_RESP
            == 3,
        RO_ALLOW_RESPONSE == 0 && RW_ALLOW_REQUEST == 0,
        SUBSCRIBE_REQUEST_RECEIVED == 0 && SUBSCRIBE_RESPONSE_SENT == 1,
{
}

/// A command is received into all of the buffer, and all of a response is sent.
/// Each shares that one buffer, and its command carries no arguments.
pub proof fn law_mailbox_requests(driver_num: u32, len: usize)
    ensures
        ({
            let receive = receive_request(driver_num, len);
            &&& receive.driver_num == driver_num && receive.subscribe_num == 0
            &&& receive.cmd == 1 && receive.arg1 == 0 && receive.arg2 == 0
            &&& receive.ro is None
            &&& receive.rw matches Some(share)
            &&& share.buffer_num == 0
            &&& share.region.start == 0 && share.region.len == len
        }),
        ({
            &&& send_request(driver_num, len) matches Op::Blocking(send)
            &&& send.driver_num == driver_num && send.subscribe_num == 1
            &&& send.cmd == 2 && send.arg1 == 0 && send.arg2 == 0
            &&& send.rw is None
            &&& send.ro matches Some(share)
            &&& share.buffer_num == 0
            &&& share.region.start == 0 && share.region.len == len
        }),
{
}

/// What waiting for a command does, whatever it is answered: where the caller
/// wants to be told, it is told first, and then the kernel is asked to receive a
/// command into the buffer, once. The command and its length are the first two
/// words of the reply; an error is passed on.
pub proof fn law_receive_command_run(
    driver_num: u32,
    data_len: usize,
    on_listening: bool,
    answers: Seq<ReceiveAnswer>,
)
    requires
        machine::answered(
            Progress::Pending(ReceiveCommand { driver_num, data_len, listening: !on_listening }),
            answers,
        ),
    ensures
        ({
            let p = Progress::Pending(
                ReceiveCommand { driver_num, data_len, listening: !on_listening },
            );
            let t: int = if on_listening { 1 } else { 0 };
            let n = answers.len() as int;
            let asked = machine::asked(p, answers);
            &&& asked.len() == n <= t + 1
            &&& forall|i: int|
                0 <= i < n ==> match #[trigger] asked[i] {
                    ReceiveAsk::OnListening => i < t,
                    ReceiveAsk::Kernel(Op::Blocking(request)) => {
                        &&& i == t
                        &&& request.driver_num == driver_num
                        &&& request.cmd == 1
                        &&& request.rw matches Some(share)
                        &&& share.region.start == 0 && share.region.len == data_len
                    },
                    _ => false,
                }
            &&& match machine::run(p, answers) {
                Progress::Pending(_) => n <= t,
                Progress::Done(r) => n == t + 1 && match answers.last() {
                    ReceiveAnswer::Kernel(Ok((cmd, len, _))) => r is Ok && r->Ok_0.0 == cmd
                        && r->Ok_0.1 == len,
                    ReceiveAnswer::Kernel(Err(e)) => r is Err && r->Err_0 == e,
                    ReceiveAnswer::Told => false,
                },
            }
        }),
    decreases answers.len(),
{
    let p = Progress::Pending(ReceiveCommand { driver_num, data_len, listening: !on_listening });
    if answers.len() > 0 {
        let before = answers.drop_last();
        law_receive_command_run(driver_num, data_len, on_listening, before);
        lemma_receive_state(driver_num, data_len, on_listening, before);
        let asked = machine::asked(p, answers);
        let asked_before = machine::asked(p, before);
        assert(forall|i: int| 0 <= i < before.len() ==> asked[i] == asked_before[i]);
    }
}

proof fn lemma_receive_state(
    driver_num: u32,
    data_len: usize,
    on_listening: bool,
    answers: Seq<ReceiveAnswer>,
)
    requires
        machine::answered(
            Progress::Pending(ReceiveCommand { driver_num, data_len, listening: !on_listening }),
            answers,
        ),
    ensures
        machine::run(
            Progress::Pending(ReceiveCommand { driver_num, data_len, listening: !on_listening }),
            answers,
        ) matches Progress::Pending(m) ==> {
            &&& m.driver_num == driver_num && m.data_len == data_len
            &&& m.listening == (answers.len() > 0 || !on_listening)
        },
    decreases answers.len(),
{
    if answers.len() > 0 {
        lemma_receive_state(driver_num, data_len, on_listening, answers.drop_last());
    }
}

/// What setting the mailbox up does: it shares all of the buffer, subscribes,
/// and asks for a request. It ends well once these three have succeeded, at the
/// first failure with its error, and never before.
pub proof fn law_setup_run(driver_num: u32, len: usize, answers: Seq<KernelReply>)
    requires
        machine::answered(
            Progress::Pending(
                SetupReceive { call: BlockingCall::at_start(receive_request(driver_num, len)) },
            ),
            answers,
        ),
    ensures
        ({
            let p = Progress::Pending(
                SetupReceive { call: BlockingCall::at_start(receive_request(driver_num, len)) },
            );
            let n = answers.len() as int;
            let asked = machine::asked(p, answers);
            &&& n <= 3
            &&& asked.len() == n
            &&& n > 0 ==> {
                &&& asked[0] matches Syscall::AllowRw { driver_num: d, share }
                &&& d == driver_num && share.buffer_num == 0
                &&& share.region.start == 0 && share.region.len == len
            }
            &&& n > 1 ==> {
                &&& asked[1] matches Syscall::Subscribe { driver_num: d, subscribe_num }
                &&& d == driver_num && subscribe_num == 0
            }
            &&& n > 2 ==> {
                &&& asked[2] matches Syscall::Command(command)
                &&& command.driver_num == driver_num && command.command_num == 1
                &&& command.arg0 == 0 && command.arg1 == 0
            }
            &&& match machine::run(p, answers) {
                Progress::Pending(_) => n < 3 && (n > 0 ==> answers.last()->variant
                    == ReturnVariant::Success2U32),
                Progress::Done(Ok(_)) => n == 3 && (answers.last() matches KernelReply::Command(
                    r,
                ) && r is Ok),
                Progress::Done(Err(e)) => match answers.last() {
                    KernelReply::Command(r) => n == 3 && r is Err && r->Err_0 == e,
                    KernelReply::Registers { variant, error } => {
                        &&& n < 3
                        &&& variant != ReturnVariant::Success2U32
                        &&& e == if variant == ReturnVariant::Failure2U32 && error is Some {
                            error->0
                        } else {
                            ErrorCode::Fail
                        }
                    },
                    KernelReply::Yielded(_) => false,
                },
            }
        }),
{
    let request = receive_request(driver_num, len);
    let p = Progress::Pending(SetupReceive { call: BlockingCall::at_start(request) });
    law_setup_receive(request, answers);
    let n = answers.len() as int;
    if n > 0 {
        law_setup_receive(request, answers.drop_last());
        assert(machine::asked(p, answers) == blocking::plan(request).take(n));
    }
}

} // verus!

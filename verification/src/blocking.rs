//! Blocking system-call sequences: share buffers, subscribe, issue a command,
//! and wait for the completion upcall.

use vstd::prelude::*;

use crate::error::ErrorCode;
use crate::kernel::{
    BlockingRequest, Command, KernelReply, Region, ReturnVariant, Share, Syscall, UpcallArgs,
};
use crate::machine;
use crate::machine::{Machine, Progress};

verus! {

/// Holds the arguments of the completion upcall once it has run.
#[derive(Copy, Clone, Debug, PartialEq, Eq)]
pub struct BlockingResult {
    pub result: Option<UpcallArgs>,
}

/// Records the arguments of a completion upcall.
pub fn blocking_upcall(result: &mut BlockingResult, arg0: u32, arg1: u32, arg2: u32)
    ensures
        final(result).result == Some((arg0, arg1, arg2)),
{
    result.result = Some((arg0, arg1, arg2));
}

/// Looks once whether the upcall has run. The caller yields while it has not.
pub fn wait_for_result(result: &BlockingResult) -> (r: Option<UpcallArgs>)
    ensures
        r == result.result,
{
    result.result
}

/// What the two registers of an allow or subscribe call mean.
pub open spec fn registers_outcome(variant: ReturnVariant, error: Option<ErrorCode>) -> Result<
    (),
    ErrorCode,
> {
    if variant == ReturnVariant::Success2U32 {
        Ok(())
    } else if variant == ReturnVariant::Failure2U32 && error is Some {
        Err(error->0)
    } else {
        Err(ErrorCode::Fail)
    }
}

/// Reads the two registers that an allow or subscribe call returns: a failure
/// without a known error code, and a variant that the call cannot have, both
/// count as a plain failure.
pub fn read_registers(variant: ReturnVariant, error: Option<ErrorCode>) -> (r: Result<
    (),
    ErrorCode,
>)
    ensures
        r == registers_outcome(variant, error),
{
    match variant {
        ReturnVariant::Success2U32 => Ok(()),
        ReturnVariant::Failure2U32 => match error {
            Some(e) => Err(e),
            None => Err(ErrorCode::Fail),
        },
        ReturnVariant::Other => Err(ErrorCode::Fail),
    }
}

/// The call that registers the completion upcall.
pub fn do_subscribe(driver_num: u32, subscribe_num: u32) -> (call: Syscall)
    ensures
        call == (Syscall::Subscribe { driver_num, subscribe_num }),
{
    Syscall::Subscribe { driver_num, subscribe_num }
}

/// The call that shares a read-write buffer.
pub fn do_allow_rw(driver_num: u32, buffer_num: u32, buffer: Region) -> (call: Syscall)
    ensures
        call == (Syscall::AllowRw { driver_num, share: Share { buffer_num, region: buffer } }),
{
    Syscall::AllowRw { driver_num, share: Share { buffer_num, region: buffer } }
}

/// The call that shares a read-only buffer.
pub fn do_allow_ro(driver_num: u32, buffer_num: u32, buffer: Region) -> (call: Syscall)
    ensures
        call == (Syscall::AllowRo { driver_num, share: Share { buffer_num, region: buffer } }),
{
    Syscall::AllowRo { driver_num, share: Share { buffer_num, region: buffer } }
}

/// Share `buffer` read-write, subscribe, issue the command, and wait.
pub fn subscribe_allow_rw_and_wait(
    driver_num: u32,
    subscribe_num: u32,
    buffer_num: u32,
    buffer: Region,
    cmd: u32,
    arg1: u32,
    arg2: u32,
) -> (request: BlockingRequest)
    ensures
        request == (BlockingRequest {
            driver_num,
            subscribe_num,
            ro: None,
            rw: Some(Share { buffer_num, region: buffer }),
            cmd,
            arg1,
            arg2,
        }),
{
    BlockingRequest {
        driver_num,
        subscribe_num,
        ro: None,
        rw: Some(Share { buffer_num, region: buffer }),
        cmd,
        arg1,
        arg2,
    }
}

/// Share `buffer` read-only, subscribe, issue the command, and wait.
pub fn subscribe_allow_ro_and_wait(
    driver_num: u32,
    subscribe_num: u32,
    buffer_num: u32,
    buffer: Region,
    cmd: u32,
    arg1: u32,
    arg2: u32,
) -> (request: BlockingRequest)
    ensures
        request == (BlockingRequest {
            driver_num,
            subscribe_num,
            ro: Some(Share { buffer_num, region: buffer }),
            rw: None,
            cmd,
            arg1,
            arg2,
        }),
{
    BlockingRequest {
        driver_num,
        subscribe_num,
        ro: Some(Share { buffer_num, region: buffer }),
        rw: None,
        cmd,
        arg1,
        arg2,
    }
}

/// Share one buffer read-only and one read-write, subscribe, issue the
/// command, and wait.
pub fn subscribe_allow_ro_rw_and_wait(
    driver_num: u32,
    subscribe_num: u32,
    ro_buffer_num: u32,
    ro_buffer: Region,
    rw_buffer_num: u32,
    rw_buffer: Region,
    cmd: u32,
    arg1: u32,
    arg2: u32,
) -> (request: BlockingRequest)
    ensures
        request == (BlockingRequest {
            driver_num,
            subscribe_num,
            ro: Some(Share { buffer_num: ro_buffer_num, region: ro_buffer }),
            rw: Some(Share { buffer_num: rw_buffer_num, region: rw_buffer }),
            cmd,
            arg1,
            arg2,
        }),
{
    BlockingRequest {
        driver_num,
        subscribe_num,
        ro: Some(Share { buffer_num: ro_buffer_num, region: ro_buffer }),
        rw: Some(Share { buffer_num: rw_buffer_num, region: rw_buffer }),
        cmd,
        arg1,
        arg2,
    }
}

/// Subscribe, issue the command, and wait, with no buffer shared.
pub fn subscribe_and_wait(
    driver_num: u32,
    subscribe_num: u32,
    cmd: u32,
    arg1: u32,
    arg2: u32,
) -> (request: BlockingRequest)
    ensures
        request == (BlockingRequest {
            driver_num,
            subscribe_num,
            ro: None,
            rw: None,
            cmd,
            arg1,
            arg2,
        }),
{
    BlockingRequest { driver_num, subscribe_num, ro: None, rw: None, cmd, arg1, arg2 }
}

/// The calls that a request makes before it waits, in order.
pub open spec fn plan(request: BlockingRequest) -> Seq<Syscall> {
    let driver_num = request.driver_num;
    let allow_ro = match request.ro {
        Some(share) => seq![Syscall::AllowRo { driver_num, share }],
        None => Seq::empty(),
    };
    let allow_rw = match request.rw {
        Some(share) => seq![Syscall::AllowRw { driver_num, share }],
        None => Seq::empty(),
    };
    let start = seq![
        Syscall::Subscribe { driver_num, subscribe_num: request.subscribe_num },
        Syscall::Command(
            Command {
                driver_num,
                command_num: request.cmd,
                arg0: request.arg1,
                arg1: request.arg2,
            },
        ),
    ];
    allow_ro + allow_rw + start
}

/// The error that a reply reports, if it reports one.
pub open spec fn reply_error(reply: KernelReply) -> Option<ErrorCode> {
    match reply {
        KernelReply::Registers { variant, error } => match registers_outcome(variant, error) {
            Ok(_) => None,
            Err(e) => Some(e),
        },
        KernelReply::Command(Err(e)) => Some(e),
        _ => None,
    }
}

/// The call that is due in a [`BlockingCall`].
#[derive(Copy, Clone, Debug, PartialEq, Eq, Structural)]
pub enum Phase {
    AllowRo,
    AllowRw,
    Subscribe,
    Command,
    Wait,
}

/// A blocking request under way.
#[derive(Copy, Clone, Debug, PartialEq, Eq)]
pub struct BlockingCall {
    pub request: BlockingRequest,
    pub phase: Phase,
    pub result: BlockingResult,
}

impl BlockingCall {
    /// How many calls have been made before the phase.
    pub open spec fn pos(self) -> int {
        let ro: int = if self.request.ro is Some { 1 } else { 0 };
        let rw: int = if self.request.rw is Some { 1 } else { 0 };
        match self.phase {
            Phase::AllowRo => 0,
            Phase::AllowRw => ro,
            Phase::Subscribe => ro + rw,
            Phase::Command => ro + rw + 1,
            Phase::Wait => ro + rw + 2,
        }
    }

    /// The state of the request before any call.
    pub open spec fn at_start(request: BlockingRequest) -> BlockingCall {
        BlockingCall {
            request,
            phase: if request.ro is Some {
                Phase::AllowRo
            } else if request.rw is Some {
                Phase::AllowRw
            } else {
                Phase::Subscribe
            },
            result: BlockingResult { result: None },
        }
    }

    /// Starts a blocking request.
    pub fn start(request: BlockingRequest) -> (call: BlockingCall)
        ensures
            call == BlockingCall::at_start(request),
            call.wf(),
            call.question() == plan(request)[0],
    {
        let phase = if request.ro.is_some() {
            Phase::AllowRo
        } else if request.rw.is_some() {
            Phase::AllowRw
        } else {
            Phase::Subscribe
        };
        BlockingCall { request, phase, result: BlockingResult { result: None } }
    }

    /// The phase that follows one whose call succeeded.
    pub open spec fn next_phase(self) -> Phase {
        match self.phase {
            Phase::AllowRo => if self.request.rw is Some {
                Phase::AllowRw
            } else {
                Phase::Subscribe
            },
            Phase::AllowRw => Phase::Subscribe,
            Phase::Subscribe => Phase::Command,
            Phase::Command => Phase::Wait,
            Phase::Wait => Phase::Wait,
        }
    }

    /// Goes on to the next call, or ends with the error.
    fn advance(self, outcome: Result<(), ErrorCode>) -> (next: Progress<
        BlockingCall,
        Result<UpcallArgs, ErrorCode>,
    >)
        requires
            self.wf(),
        ensures
            outcome matches Err(e) ==> next == Progress::<
                BlockingCall,
                Result<UpcallArgs, ErrorCode>,
            >::Done(Err(e)),
            outcome is Ok ==> next == Progress::<
                BlockingCall,
                Result<UpcallArgs, ErrorCode>,
            >::Pending(BlockingCall { phase: self.next_phase(), ..self }),
    {
        match outcome {
            Err(e) => Progress::Done(Err(e)),
            Ok(_) => {
                let phase = match self.phase {
                    Phase::AllowRo => if self.request.rw.is_some() {
                        Phase::AllowRw
                    } else {
                        Phase::Subscribe
                    },
                    Phase::AllowRw => Phase::Subscribe,
                    Phase::Subscribe => Phase::Command,
                    Phase::Command => Phase::Wait,
                    Phase::Wait => Phase::Wait,
                };
                Progress::Pending(
                    BlockingCall { request: self.request, phase, result: self.result },
                )
            },
        }
    }
}

impl Machine for BlockingCall {
    type Ask = Syscall;

    type Answer = KernelReply;

    type Out = Result<UpcallArgs, ErrorCode>;

    open spec fn wf(self) -> bool {
        &&& self.phase == Phase::AllowRo ==> self.request.ro is Some
        &&& self.phase == Phase::AllowRw ==> self.request.rw is Some
        &&& self.result.result is None
    }

    open spec fn question(self) -> Syscall {
        if self.phase == Phase::Wait {
            Syscall::YieldWait
        } else {
            plan(self.request)[self.pos()]
        }
    }

    open spec fn accepts(self, answer: KernelReply) -> bool {
        match self.phase {
            Phase::AllowRo | Phase::AllowRw | Phase::Subscribe => answer is Registers,
            Phase::Command => answer is Command,
            Phase::Wait => answer is Yielded,
        }
    }

    open spec fn after(self, answer: KernelReply) -> Progress<
        BlockingCall,
        Result<UpcallArgs, ErrorCode>,
    > {
        match (reply_error(answer), answer) {
            (Some(e), _) => Progress::Done(Err(e)),
            (None, KernelReply::Yielded(Some(args))) => Progress::Done(Ok(args)),
            _ => Progress::Pending(BlockingCall { phase: self.next_phase(), ..self }),
        }
    }

    proof fn after_is_wf(self, answer: KernelReply) {
    }

    fn ask(&self) -> (asked: Syscall) {
        let driver_num = self.request.driver_num;
        match self.phase {
            Phase::AllowRo => {
                let share = self.request.ro.unwrap();
                do_allow_ro(driver_num, share.buffer_num, share.region)
            },
            Phase::AllowRw => {
                let share = self.request.rw.unwrap();
                do_allow_rw(driver_num, share.buffer_num, share.region)
            },
            Phase::Subscribe => do_subscribe(driver_num, self.request.subscribe_num),
            Phase::Command => Syscall::Command(
                Command {
                    driver_num,
                    command_num: self.request.cmd,
                    arg0: self.request.arg1,
                    arg1: self.request.arg2,
                },
            ),
            Phase::Wait => Syscall::YieldWait,
        }
    }

    fn resume(self, answer: KernelReply) -> (next: Progress<
        BlockingCall,
        Result<UpcallArgs, ErrorCode>,
    >) {
        match answer {
            KernelReply::Registers { variant, error } => self.advance(
                read_registers(variant, error),
            ),
            KernelReply::Command(outcome) => self.advance(outcome),
            KernelReply::Yielded(upcall) => {
                let mut result = self.result;
                if let Some((arg0, arg1, arg2)) = upcall {
                    blocking_upcall(&mut result, arg0, arg1, arg2);
                }
                match wait_for_result(&result) {
                    Some(args) => Progress::Done(Ok(args)),
                    None => Progress::Pending(self),
                }
            },
        }
    }
}

/// What a started request has come to after the given answers: the answers so
/// far succeeded and the next call of the plan is due, or the last answer
/// ended it.
proof fn lemma_blocking_run(request: BlockingRequest, answers: Seq<KernelReply>)
    requires
        machine::answered(Progress::Pending(BlockingCall::at_start(request)), answers),
    ensures
        ({
            let n = answers.len() as int;
            let total = plan(request).len() as int;
            match machine::run(Progress::Pending(BlockingCall::at_start(request)), answers) {
                Progress::Pending(m) => {
                    &&& m.wf()
                    &&& m.request == request
                    &&& m.pos() == if n < total { n } else { total }
                    &&& forall|i: int| 0 <= i < n ==> reply_error(#[trigger] answers[i]) is None
                },
                Progress::Done(Ok(args)) => {
                    &&& n > total
                    &&& answers[n - 1] == KernelReply::Yielded(Some(args))
                    &&& forall|i: int| 0 <= i < n ==> reply_error(#[trigger] answers[i]) is None
                },
                Progress::Done(Err(e)) => {
                    &&& 0 < n <= total
                    &&& reply_error(answers[n - 1]) == Some(e)
                    &&& forall|i: int|
                        0 <= i < n - 1 ==> reply_error(#[trigger] answers[i]) is None
                },
            }
        }),
    decreases answers.len(),
{
    if answers.len() > 0 {
        let before = answers.drop_last();
        lemma_blocking_run(request, before);
        assert(forall|i: int| 0 <= i < before.len() ==> before[i] == answers[i]);
    }
}

/// A request makes the calls of its plan in their order and then yields. No
/// answer changes which call comes next; a call is made only if every call
/// before it succeeded.
pub proof fn law_blocking_order(request: BlockingRequest, answers: Seq<KernelReply>, i: int)
    requires
        machine::answered(Progress::Pending(BlockingCall::at_start(request)), answers),
        0 <= i < answers.len(),
    ensures
        machine::asked(Progress::Pending(BlockingCall::at_start(request)), answers).len() == answers.len(),
        machine::asked(Progress::Pending(BlockingCall::at_start(request)), answers)[i] == if i < plan(
            request,
        ).len() {
            plan(request)[i]
        } else {
            Syscall::YieldWait
        },
        forall|j: int| 0 <= j < i ==> reply_error(#[trigger] answers[j]) is None,
    decreases answers.len(),
{
    let p = Progress::Pending(BlockingCall::at_start(request));
    let before = answers.drop_last();
    machine::law_runs_stay_reachable(p, answers);
    machine::law_runs_stay_reachable(p, before);
    lemma_blocking_run(request, before);
    if i < before.len() {
        law_blocking_order(request, before, i);
        assert(forall|j: int| 0 <= j < before.len() ==> before[j] == answers[j]);
    } else {
        assert(forall|j: int| 0 <= j < before.len() ==> before[j] == answers[j]);
    }
}

/// A request ends in exactly two ways: with the arguments of its upcall, after
/// all its calls succeeded and the upcall ran; or with the error of the first
/// call that failed. Until then it is still under way.
pub proof fn law_blocking_outcome(request: BlockingRequest, answers: Seq<KernelReply>)
    requires
        machine::answered(Progress::Pending(BlockingCall::at_start(request)), answers),
    ensures
        ({
            let end = machine::run(Progress::Pending(BlockingCall::at_start(request)), answers);
            let n = answers.len() as int;
            let total = plan(request).len() as int;
            &&& forall|args: UpcallArgs|
                end == Progress::<BlockingCall, Result<UpcallArgs, ErrorCode>>::Done(Ok(args)) <==> (
                n > total && answers[n - 1] == KernelReply::Yielded(Some(args)))
            &&& forall|e: ErrorCode|
                end == Progress::<BlockingCall, Result<UpcallArgs, ErrorCode>>::Done(Err(e)) <==> (n
                    > 0 && reply_error(answers[n - 1]) == Some(e))
        }),
{
    lemma_blocking_run(request, answers);
    if answers.len() > 0 {
        lemma_blocking_run(request, answers.drop_last());
    }
}

/// What a request does, whatever it is answered. Its calls are: the read-only
/// share if there is one, the read-write share if there is one, the
/// subscription, the command with its two arguments, and then nothing but
/// yields. They all go to the driver of the request.
pub proof fn law_blocking_calls(request: BlockingRequest, answers: Seq<KernelReply>)
    requires
        machine::answered(Progress::Pending(BlockingCall::at_start(request)), answers),
    ensures
        ({
            let asked = machine::asked(
                Progress::Pending(BlockingCall::at_start(request)),
                answers,
            );
            let driver_num = request.driver_num;
            let ro: int = if request.ro is Some { 1 } else { 0 };
            let rw: int = if request.rw is Some { 1 } else { 0 };
            &&& asked.len() == answers.len()
            &&& forall|i: int|
                0 <= i < asked.len() ==> match #[trigger] asked[i] {
                    Syscall::AllowRo { driver_num: d, share } => {
                        &&& i == 0
                        &&& d == driver_num
                        &&& request.ro == Some(share)
                    },
                    Syscall::AllowRw { driver_num: d, share } => {
                        &&& i == ro
                        &&& d == driver_num
                        &&& request.rw == Some(share)
                    },
                    Syscall::Subscribe { driver_num: d, subscribe_num } => {
                        &&& i == ro + rw
                        &&& d == driver_num
                        &&& subscribe_num == request.subscribe_num
                    },
                    Syscall::Command(command) => {
                        &&& i == ro + rw + 1
                        &&& command.driver_num == driver_num
                        &&& command.command_num == request.cmd
                        &&& command.arg0 == request.arg1
                        &&& command.arg1 == request.arg2
                    },
                    Syscall::YieldWait => i >= ro + rw + 2,
                }
            &&& forall|i: int|
                ro + rw + 2 <= i < asked.len() ==> #[trigger] asked[i] is YieldWait
        }),
{
    assert forall|i: int| 0 <= i < answers.len() implies machine::asked(
        Progress::Pending(BlockingCall::at_start(request)),
        answers,
    )[i] == if i < plan(request).len() {
        plan(request)[i]
    } else {
        Syscall::YieldWait
    } by {
        law_blocking_order(request, answers, i);
    }
    if answers.len() > 0 {
        law_blocking_order(request, answers, 0);
    }
}

/// When a request ends. It goes on as long as no call fails and the upcall has
/// not run; then it ends with what the last answer says: the arguments of the
/// upcall, the error of the command, the error that the registers name, or a
/// plain failure if they name none.
pub proof fn law_blocking_ends(request: BlockingRequest, answers: Seq<KernelReply>)
    requires
        machine::answered(Progress::Pending(BlockingCall::at_start(request)), answers),
        answers.len() > 0,
    ensures
        match (
            machine::run(Progress::Pending(BlockingCall::at_start(request)), answers),
            answers.last(),
        ) {
            (Progress::Pending(_), KernelReply::Registers { variant, .. }) => variant
                == ReturnVariant::Success2U32,
            (Progress::Pending(_), KernelReply::Command(r)) => r is Ok,
            (Progress::Pending(_), KernelReply::Yielded(upcall)) => upcall is None,
            (Progress::Done(r), KernelReply::Registers { variant, error }) => {
                &&& variant != ReturnVariant::Success2U32
                &&& r is Err
                &&& r->Err_0 == if variant == ReturnVariant::Failure2U32 && error is Some {
                    error->0
                } else {
                    ErrorCode::Fail
                }
            },
            (Progress::Done(r), KernelReply::Command(c)) => c is Err && r is Err && r->Err_0
                == c->Err_0,
            (Progress::Done(r), KernelReply::Yielded(upcall)) => upcall is Some && r is Ok
                && r->Ok_0 == upcall->0,
        },
{
    lemma_blocking_run(request, answers);
    lemma_blocking_run(request, answers.drop_last());
}

/// An upcall that can be looked at without waiting for it.
#[derive(Copy, Clone, Debug, PartialEq, Eq)]
pub struct UpcallNotification {
    pub result: Option<UpcallArgs>,
}

impl UpcallNotification {
    /// A notification whose upcall has not run.
    pub fn new() -> (notify: UpcallNotification)
        ensures
            notify.result is None,
    {
        UpcallNotification { result: None }
    }

    /// Whether the upcall has run since the last `clear`.
    pub fn is_ready(&self) -> (ready: bool)
        ensures
            ready == (self.result is Some),
    {
        self.result.is_some()
    }

    /// The arguments of the upcall that has run.
    pub fn args(&self) -> (args: UpcallArgs)
        requires
            self.result is Some,
        ensures
            args == self.result->0,
    {
        self.result.unwrap()
    }

    /// Records the upcall.
    pub fn notify(&mut self, args: UpcallArgs)
        ensures
            final(self).result == Some(args),
    {
        self.result = Some(args);
    }

    /// Makes the notification wait for the next upcall.
    pub fn clear(&mut self)
        ensures
            final(self).result is None,
    {
        self.result = None;
    }
}

/// A value with one owner at a time.
pub struct SyncMutex<T> {
    pub inner: T,
}

impl<T> SyncMutex<T> {
    /// Wraps a value.
    pub fn new(val: T) -> (mutex: SyncMutex<T>)
        ensures
            mutex.inner == val,
    {
        SyncMutex { inner: val }
    }

    /// Gives access to the value. What is written through the reference is
    /// what the next `lock` sees.
    pub fn lock(&mut self) -> (val: &mut T)
        ensures
            *val == old(self).inner,
            final(self).inner == *final(val),
    {
        &mut self.inner
    }
}

/// A value that is looked at inside a closure.
pub struct CsMutex<T> {
    pub inner: T,
}

impl<T> CsMutex<T> {
    /// Wraps a value.
    pub fn new(val: T) -> (mutex: CsMutex<T>)
        ensures
            mutex.inner == val,
    {
        CsMutex { inner: val }
    }

    /// Calls `f` on the value and returns what it returns.
    pub fn lock<R, F: FnOnce(&T) -> R>(&self, f: F) -> (r: R)
        requires
            call_requires(f, (&self.inner,)),
        ensures
            call_ensures(f, (&self.inner,), r),
    {
        f(&self.inner)
    }
}

/// A value that is made when it is first asked for.
pub struct SyncLazy<T, F> {
    pub init: F,
    pub value: Option<T>,
}

impl<T, F: Fn() -> T> SyncLazy<T, F> {
    /// A value that has not been made yet.
    pub fn new(init: F) -> (lazy: SyncLazy<T, F>)
        ensures
            lazy.init == init,
            lazy.value is None,
    {
        SyncLazy { init, value: None }
    }

    /// Returns the value. The initializer runs if there is none yet; a value
    /// that is there stays, so the initializer runs at most once.
    pub fn get(&mut self) -> (val: &T)
        requires
            old(self).value is None ==> call_requires(old(self).init, ()),
        ensures
            final(self).init == old(self).init,
            final(self).value == Some(*val),
            old(self).value is Some ==> final(self).value == old(self).value,
            old(self).value is None ==> call_ensures(old(self).init, (), *val),
    {
        if self.value.is_none() {
            let made = (self.init)();
            self.value = Some(made);
        }
        self.value.as_ref().unwrap()
    }
}

} // verus!

use mcu_userspace::error::ErrorCode;
use mcu_userspace::kernel::{Op, Region};
use mcu_userspace::machine::{Machine, Progress};
use mcu_userspace::mbox::fips_periodic as fips;
use mcu_userspace::mbox::fips_periodic::{
    FipsPeriodic, FipsState, PeriodicAnswer, PeriodicAsk, SelfTestAnswer, SelfTestAsk, SelfTestEnd,
};
use mcu_userspace::pldm::daemon::{
    pldm_initiator_inline, pldm_responder, pldm_responder_task, DownloadEnd, InitiatorAnswer,
    InitiatorAsk, LoopAnswer, LoopAsk, PldmService, PldmServiceError,
};
use mcu_userspace::pldm::download::{
    run_optimized_download, Chunk, DownloadAnswer, DownloadAsk, DownloadParams, Mark, MessageError,
    MsgHandlerError, Response, TransferResult,
};
use mcu_userspace::pldm::timer::{AsyncAlarm, Hz, Milliseconds, SleepAnswer, SleepAsk};
use mcu_userspace::pldm::transport::TransportError;

fn pending<M, O>(p: Progress<M, O>) -> M {
    match p {
        Progress::Pending(m) => m,
        Progress::Done(_) => panic!("ended too early"),
    }
}

fn ended<M, O>(p: Progress<M, O>) -> O {
    match p {
        Progress::Pending(_) => panic!("has not ended"),
        Progress::Done(o) => o,
    }
}

/// Gives the answers, and returns the questions and where the machine stands.
fn drive<M: Machine>(m: M, answers: Vec<M::Answer>) -> (Vec<M::Ask>, Progress<M, M::Out>) {
    let mut asked = Vec::new();
    let mut p = Progress::Pending(m);
    for answer in answers {
        let m = pending(p);
        asked.push(m.ask());
        p = m.resume(answer);
    }
    (asked, p)
}

#[test]
fn time_in_milliseconds() {
    let m = AsyncAlarm::get_milliseconds();
    assert!(matches!(m.ask(), Op::Command { command, .. } if command.command_num == 2));
    let m = pending(m.resume(Ok((10_007, 0, 0))));
    assert!(matches!(m.ask(), Op::Command { command, .. } if command.command_num == 1));
    assert_eq!(ended(m.resume(Ok((32_768, 0, 0)))), Ok(312));
    let m = pending(AsyncAlarm::get_milliseconds().resume(Ok((7, 0, 0))));
    assert_eq!(ended(m.resume(Err(ErrorCode::NoDevice))), Err(ErrorCode::NoDevice));
    assert_eq!(
        ended(AsyncAlarm::get_milliseconds().resume(Err(ErrorCode::Fail))),
        Err(ErrorCode::Fail)
    );
    assert_eq!(AsyncAlarm::frequency_reply(Ok((1000, 0, 0))), Ok(Hz(1000)));
}

#[test]
fn sleep_asks_for_the_frequency_first() {
    let (asked, p) = drive(
        AsyncAlarm::sleep(Milliseconds(5)),
        vec![
            SleepAnswer::Kernel(Ok((2000, 0, 0))),
            SleepAnswer::Ticks(10),
            SleepAnswer::Kernel(Ok((0, 0, 0))),
        ],
    );
    assert_eq!(asked[1], SleepAsk::ToTicks { time: Milliseconds(5), freq: Hz(2000) });
    assert_eq!(asked[2], SleepAsk::Kernel(AsyncAlarm::sleep_ticks(10)));
    assert!(matches!(asked[2], SleepAsk::Kernel(Op::Blocking(r)) if r.cmd == 5 && r.arg1 == 10));
    assert_eq!(ended(p), Ok(()));
    assert_eq!(
        ended(AsyncAlarm::sleep_for(1u8).resume(SleepAnswer::Kernel(Err(ErrorCode::Fail)))),
        Err(ErrorCode::Fail)
    );
}

#[test]
fn background_sleep_needs_no_frequency() {
    let m = fips::sleep_ms(100);
    let m = pending(m.resume(SleepAnswer::Kernel(Err(ErrorCode::Fail))));
    assert_eq!(m.ask(), SleepAsk::ToTicks { time: Milliseconds(100), freq: Hz(1000) });
}

#[test]
fn fips_state_is_set_and_read() {
    let mut state = FipsState::new();
    assert_eq!(fips::get_status(&state), (false, 0, fips::RESULT_NOT_RUN));
    fips::set_enabled(&mut state, true);
    assert!(fips::is_enabled(&state));
    assert!(state.state_changed);
    assert_eq!(fips::get_iterations(&state), 0);
    assert_eq!(fips::get_last_result(&state), 0);
    fips::set_enabled(&mut state, false);
    assert!(!fips::is_enabled(&state));
}

#[test]
fn self_test_polls_until_it_passes() {
    let failed = SelfTestAnswer::Executed { ok: false };
    let passed = SelfTestAnswer::Executed { ok: true };
    let (asked, p) = drive(
        fips::run_fips_self_test(),
        vec![passed, SelfTestAnswer::Slept, failed, SelfTestAnswer::Slept, passed],
    );
    assert_eq!(
        asked,
        vec![
            SelfTestAsk::Start,
            SelfTestAsk::Sleep { ms: 100 },
            SelfTestAsk::GetResults,
            SelfTestAsk::Sleep { ms: 100 },
            SelfTestAsk::GetResults
        ]
    );
    let end = ended(p);
    assert_eq!(end, SelfTestEnd::Passed);
    assert!(end.passed());
    let end = ended(fips::run_fips_self_test().resume(failed));
    assert_eq!(end, SelfTestEnd::NotStarted);
    assert!(!end.passed());
}

#[test]
fn self_test_times_out_after_a_hundred_polls() {
    let mut m = pending(fips::run_fips_self_test().resume(SelfTestAnswer::Executed { ok: true }));
    let mut polls = 0;
    let end = loop {
        m = pending(m.resume(SelfTestAnswer::Slept));
        assert_eq!(m.ask(), SelfTestAsk::GetResults);
        polls += 1;
        match m.resume(SelfTestAnswer::Executed { ok: false }) {
            Progress::Pending(next) => m = next,
            Progress::Done(end) => break end,
        }
    };
    assert_eq!((polls, end), (100, SelfTestEnd::TimedOut));
}

#[test]
fn background_task_waits_tests_and_pauses() {
    let mut state = FipsState::new();
    let task = fips::fips_periodic_task(&mut state);
    assert_eq!(task.ask(), PeriodicAsk::YieldWait);
    let task = task.resume(PeriodicAnswer::Yielded, &mut state);
    assert_eq!(task, FipsPeriodic::Waiting);
    fips::set_enabled(&mut state, true);
    let task = task.resume(PeriodicAnswer::Yielded, &mut state);
    assert!(!state.state_changed);
    assert_eq!(task.ask(), PeriodicAsk::Test(SelfTestAsk::Start));
    state.iterations = u32::MAX;
    let failed = PeriodicAnswer::Test(SelfTestAnswer::Executed { ok: false });
    let task = task.resume(failed, &mut state);
    assert_eq!(fips::get_status(&state), (true, 0, fips::RESULT_FAIL));
    assert_eq!(task.ask(), PeriodicAsk::Pause { ms: 60_000 });
    let task = task.resume(PeriodicAnswer::Paused, &mut state);
    let passed = PeriodicAnswer::Test(SelfTestAnswer::Executed { ok: true });
    let task = task.resume(passed, &mut state);
    let task = task.resume(PeriodicAnswer::Test(SelfTestAnswer::Slept), &mut state);
    fips::set_enabled(&mut state, false);
    let task = task.resume(passed, &mut state);
    assert_eq!(fips::get_status(&state), (false, 1, fips::RESULT_PASS));
    let task = task.resume(PeriodicAnswer::Paused, &mut state);
    assert_eq!(task, FipsPeriodic::Waiting);
    assert!(!state.state_changed);
}

#[test]
fn service_is_started_once() {
    let mut running = false;
    let mut service = PldmService::init("interface");
    assert_eq!(service.cmd_interface, "interface");
    assert!(service.start(&mut running).is_ok());
    assert!(running);
    assert_eq!(service.start(&mut running), Err(PldmServiceError::StartError));
    assert!(running);
    service.stop(&mut running);
    assert!(!running);
    assert!(service.start(&mut running).is_ok());
}

#[test]
fn services_share_the_running_flag() {
    let mut running = false;
    let mut first = PldmService::init(1);
    let mut second = PldmService::init(2);
    let _ = first.run_until(&mut running);
    assert_eq!(second.start(&mut running), Err(PldmServiceError::StartError));
    second.stop(&mut running);
    assert!(first.start(&mut running).is_ok());
    let mut third = PldmService::init(3);
    assert_eq!(third.start(&mut running), Err(PldmServiceError::StartError));
    first.stop(&mut running);
    assert!(third.start(&mut running).is_ok());
}

#[test]
fn service_loop_responds_and_fetches() {
    let mut running = false;
    let mut service = PldmService::init(());
    let (asked, p) = drive(
        service.start(&mut running).unwrap(),
        vec![
            LoopAnswer::Flag(true),
            LoopAnswer::Done,
            LoopAnswer::Flag(true),
            LoopAnswer::Done,
            LoopAnswer::Flag(true),
            LoopAnswer::Done,
            LoopAnswer::Flag(false),
            LoopAnswer::Flag(false),
        ],
    );
    assert_eq!(
        asked,
        vec![
            LoopAsk::IsRunning,
            LoopAsk::HandleResponderMsg,
            LoopAsk::ShouldStartInitiator,
            LoopAsk::RunInitiator,
            LoopAsk::IsRunning,
            LoopAsk::HandleResponderMsg,
            LoopAsk::ShouldStartInitiator,
            LoopAsk::IsRunning
        ]
    );
    ended(p);
}

#[test]
fn service_runs_until_a_condition_holds() {
    let mut running = false;
    let mut service = PldmService::init(());
    let run = service.run_until(&mut running);
    assert!(running);
    let (asked, p) = drive(run, vec![LoopAnswer::Flag(true), LoopAnswer::Flag(true)]);
    assert_eq!(asked, vec![LoopAsk::IsRunning, LoopAsk::IsDone]);
    ended(p);
    let (_, p) = drive(service.run_until(&mut running), vec![LoopAnswer::Flag(false)]);
    ended(p);
}

#[test]
fn responder_tells_the_initiator() {
    assert_eq!(pldm_responder_task(), pldm_responder());
    let (asked, _) = drive(
        pldm_responder_task(),
        vec![LoopAnswer::Flag(true), LoopAnswer::Done, LoopAnswer::Flag(true), LoopAnswer::Done],
    );
    assert_eq!(asked[3], LoopAsk::RaiseInitiatorFlag);
}

#[test]
fn initiator_opens_a_session_and_falls_back() {
    let (asked, p) = drive(
        pldm_initiator_inline(),
        vec![
            InitiatorAnswer::Flag(true),
            InitiatorAnswer::Flag(false),
            InitiatorAnswer::Handled { ok: true },
            InitiatorAnswer::Flag(true),
            InitiatorAnswer::Done,
            InitiatorAnswer::Done,
            InitiatorAnswer::Flag(true),
            InitiatorAnswer::Flag(false),
            InitiatorAnswer::Downloaded(DownloadEnd::Failed),
            InitiatorAnswer::Done,
            InitiatorAnswer::Handled { ok: false },
            InitiatorAnswer::Done,
            InitiatorAnswer::Flag(true),
            InitiatorAnswer::Flag(true),
        ],
    );
    assert_eq!(
        asked,
        vec![
            InitiatorAsk::IsRunning,
            InitiatorAsk::ShouldStop,
            InitiatorAsk::HandleInitiatorMsg,
            InitiatorAsk::ShouldStartInitiator,
            InitiatorAsk::CreateSession,
            InitiatorAsk::SleepTicks { ticks: 1 },
            InitiatorAsk::IsRunning,
            InitiatorAsk::ShouldStop,
            InitiatorAsk::Download,
            InitiatorAsk::SyncSession,
            InitiatorAsk::HandleInitiatorMsg,
            InitiatorAsk::SleepTicks { ticks: 1 },
            InitiatorAsk::IsRunning,
            InitiatorAsk::ShouldStop
        ]
    );
    ended(p);
}

#[test]
fn initiator_sleeps_after_thirty_two_steps() {
    let (_, p) = drive(
        pldm_initiator_inline(),
        vec![
            InitiatorAnswer::Flag(true),
            InitiatorAnswer::Flag(false),
            InitiatorAnswer::Handled { ok: true },
            InitiatorAnswer::Flag(true),
            InitiatorAnswer::Done,
            InitiatorAnswer::Done,
        ],
    );
    let mut m = pending(p);
    for step in 1..=64 {
        m = pending(m.resume(InitiatorAnswer::Flag(true)));
        m = pending(m.resume(InitiatorAnswer::Flag(false)));
        m = pending(m.resume(InitiatorAnswer::Downloaded(DownloadEnd::InProgress)));
        let sleeps = m.ask() == InitiatorAsk::SleepTicks { ticks: 1 };
        assert_eq!(sleeps, step % 32 == 0);
        if sleeps {
            m = pending(m.resume(InitiatorAnswer::Done));
        }
    }
    let (_, p) = drive(m, vec![InitiatorAnswer::Flag(false)]);
    ended(p);
}

const PARAMS: DownloadParams = DownloadParams {
    ua_eid: 8,
    request_fw_data: 0x15,
    success: 0,
    retry: 0x91,
    msg_hdr_len: 1,
    rsp_fixed_len: 4,
    buf_len: 64,
};

const CHUNK: Chunk = Chunk { offset: 128, length: 32 };

type Answer = DownloadAnswer<&'static str>;

/// The answers up to the response.
fn requested(response: Response) -> Vec<Answer> {
    vec![
        DownloadAnswer::Flag(false),
        DownloadAnswer::Time(70),
        DownloadAnswer::Flag(false),
        DownloadAnswer::Flag(true),
        DownloadAnswer::Flag(false),
        DownloadAnswer::Wanted(Ok((128, 100))),
        DownloadAnswer::Chunk(Some(CHUNK)),
        DownloadAnswer::Done,
        DownloadAnswer::InstanceId(3),
        DownloadAnswer::Built(Ok(11)),
        DownloadAnswer::Time(71),
        DownloadAnswer::Done,
        DownloadAnswer::Transport(Ok(())),
        DownloadAnswer::Transport(Ok(())),
        DownloadAnswer::Parsed(Ok(response)),
        DownloadAnswer::Time(72),
        DownloadAnswer::Done,
    ]
}

#[test]
fn download_step_requests_and_stores_a_chunk() {
    let mut answers = requested(Response { completion_code: 0, payload_len: 36 });
    answers.push(DownloadAnswer::Downloaded(Ok(TransferResult::TransferSuccess)));
    answers.push(DownloadAnswer::Flag(false));
    answers.push(DownloadAnswer::Done);
    let (asked, p) = drive(run_optimized_download(PARAMS, "short"), answers);
    assert_eq!(
        asked,
        vec![
            DownloadAsk::IsCancelled,
            DownloadAsk::Now,
            DownloadAsk::IsT1Timeout { now: 70 },
            DownloadAsk::ShouldSendRequest { now: 70 },
            DownloadAsk::IsComplete,
            DownloadAsk::QueryOffsetAndLength,
            DownloadAsk::GetDownloadChunk { wanted_offset: 128, wanted_length: 100 },
            DownloadAsk::SetChunk(CHUNK),
            DownloadAsk::AllocInstanceId,
            DownloadAsk::BuildRequest { instance_id: 3, chunk: CHUNK },
            DownloadAsk::Now,
            DownloadAsk::MarkSent { now: 71, cmd: 0x15 },
            DownloadAsk::SendRequest { dest_eid: 8, len: 12 },
            DownloadAsk::ReceiveResponse,
            DownloadAsk::ParseResponse,
            DownloadAsk::Now,
            DownloadAsk::UpdateT1 { now: 72 },
            DownloadAsk::DownloadFwData { offset: 128, data: Region { start: 4, len: 32 } },
            DownloadAsk::IsDownloadComplete,
            DownloadAsk::Mark(Mark::ReadyForNext)
        ]
    );
    assert_eq!(ended(p), Ok(false));
}

#[test]
fn download_ends_with_the_last_chunk() {
    let mut answers = requested(Response { completion_code: 0, payload_len: 36 });
    answers.push(DownloadAnswer::Downloaded(Ok(TransferResult::TransferSuccess)));
    answers.push(DownloadAnswer::Flag(true));
    let (_, p) = drive(run_optimized_download(PARAMS, "short"), answers);
    let m = pending(p);
    assert_eq!(m.ask(), DownloadAsk::Mark(Mark::Complete(TransferResult::TransferSuccess)));
    assert_eq!(ended(m.resume(DownloadAnswer::Done)), Ok(true));
}

#[test]
fn download_reacts_to_the_response() {
    let after = |response: Response| {
        drive(run_optimized_download(PARAMS, "short"), requested(response)).1
    };
    let p = after(Response { completion_code: 0, payload_len: 35 });
    assert_eq!(ended(p), Err(MsgHandlerError::Codec("short")));
    let m = pending(after(Response { completion_code: 0x91, payload_len: 4 }));
    assert_eq!(m.ask(), DownloadAsk::Mark(Mark::ReadyForNext));
    assert_eq!(ended(m.resume(DownloadAnswer::Done)), Ok(false));
    let m = pending(after(Response { completion_code: 5, payload_len: 4 }));
    assert_eq!(m.ask(), DownloadAsk::Mark(Mark::Complete(TransferResult::FdAbortedTransfer)));
    assert_eq!(ended(m.resume(DownloadAnswer::Done)), Ok(true));
    let m = pending(after(Response { completion_code: 0, payload_len: 36 }));
    let m = pending(m.resume(DownloadAnswer::Downloaded(Ok(TransferResult::Other(9)))));
    assert_eq!(m.ask(), DownloadAsk::Mark(Mark::Complete(TransferResult::Other(9))));
    let m = pending(after(Response { completion_code: 0, payload_len: 36 }));
    assert_eq!(
        ended(m.resume(DownloadAnswer::Downloaded(Err("device")))),
        Err(MsgHandlerError::FdOps("device"))
    );
}

#[test]
fn download_gives_up() {
    let start = || run_optimized_download(PARAMS, "short");
    let aborted = TransferResult::FdAbortedTransfer;
    let m = pending(start().resume(DownloadAnswer::Flag(true)));
    assert_eq!(m.ask(), DownloadAsk::Mark(Mark::Complete(aborted)));
    assert_eq!(ended(m.resume(DownloadAnswer::Done)), Ok(true));
    let full = requested(Response { completion_code: 0, payload_len: 36 });
    let with = |n: usize, last: Answer| {
        let mut answers: Vec<Answer> = Vec::new();
        for (i, a) in requested(Response { completion_code: 0, payload_len: 36 })
            .into_iter()
            .enumerate()
        {
            if i < n {
                answers.push(a);
            }
        }
        answers.push(last);
        drive(start(), answers).1
    };
    assert_eq!(full.len(), 17);
    let m = pending(with(2, DownloadAnswer::Flag(true)));
    assert_eq!(m.ask(), DownloadAsk::Mark(Mark::Failed(aborted)));
    assert_eq!(ended(m.resume(DownloadAnswer::Done)), Ok(true));
    assert_eq!(ended(with(3, DownloadAnswer::Flag(false))), Ok(false));
    assert_eq!(ended(with(4, DownloadAnswer::Flag(true))), Ok(true));
    assert_eq!(
        ended(with(5, DownloadAnswer::Wanted(Err("device")))),
        Err(MsgHandlerError::FdOps("device"))
    );
    let m = pending(with(6, DownloadAnswer::Chunk(None)));
    assert_eq!(m.ask(), DownloadAsk::Mark(Mark::Failed(aborted)));
    assert_eq!(
        ended(with(9, DownloadAnswer::Built(Err(MessageError::Util("frame"))))),
        Err(MsgHandlerError::Util("frame"))
    );
    assert_eq!(
        ended(with(9, DownloadAnswer::Built(Err(MessageError::Codec("code"))))),
        Err(MsgHandlerError::Codec("code"))
    );
    assert_eq!(
        ended(with(12, DownloadAnswer::Transport(Err(TransportError::SendError)))),
        Err(MsgHandlerError::Transport(TransportError::SendError))
    );
    assert_eq!(
        ended(with(13, DownloadAnswer::Transport(Err(TransportError::ReceiveError)))),
        Err(MsgHandlerError::Transport(TransportError::ReceiveError))
    );
    assert_eq!(
        ended(with(14, DownloadAnswer::Parsed(Err(MessageError::Codec("code"))))),
        Err(MsgHandlerError::Codec("code"))
    );
}

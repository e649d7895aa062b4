use mcu_userspace::api::error::CaliptraApiError;
use mcu_userspace::api::pldm_client::{
    finalize, get_pldm_state, goal_met, initialize_pldm, pldm_download_image, pldm_download_toc,
    ClientAnswer, ClientEvent, ClientWork, DownloadCtx, FlashLayout, Goal, ImageInfo, PldmContext,
    State, VerifyResult,
};
use mcu_userspace::error::ErrorCode;
use mcu_userspace::machine::{Machine, Progress};
use mcu_userspace::pldm::daemon::PldmServiceError;
use mcu_userspace::spdm::responder::{
    doe_config, mctp_config, secure_spdm_versions, spdm_cooperative_main, spdm_doe_responder,
    spdm_mctp_responder, spdm_task, spdm_versions, MeasurementFormat, ResponderAnswer,
    ResponderAsk, ResponderEnd, ResponderSizes, SpdmError, SpdmVersion, VdmHandlers,
};
use mcu_userspace::spdm::transport::TransportError;
use mcu_userspace::user::{
    async_main, mcu_mbox_task, start, start_mcu_mbox_service, AsyncTask, Features, MboxTaskAsk,
    StartStep,
};

const NEW: PldmContext = PldmContext {
    state: State::NotRunning,
    download: DownloadCtx {
        total_length: 0,
        initial_offset: 1,
        current_offset: 2,
        total_downloaded: 3,
        load_address: 4,
        download_complete: false,
        verify_result: VerifyResult(9),
    },
};

const LAYOUT: FlashLayout = FlashLayout { header_size: 20, image_header_size: 12 };

fn pending<M, O>(p: Progress<M, O>) -> M {
    match p {
        Progress::Pending(m) => m,
        Progress::Done(_) => panic!("ended too early"),
    }
}

fn ended<M, O>(p: Progress<M, O>) -> O {
    match p {
        Progress::Pending(_) => panic!("has not ended"),
        Progress::Done(o) => o,
    }
}

fn ran(pldm: PldmContext, state: State) -> ClientAnswer {
    ClientAnswer { pldm: PldmContext { state, ..pldm }, event: ClientEvent::Ran(Ok(())) }
}

#[test]
fn update_service_comes_up() {
    let m = pending(initialize_pldm(NEW, LAYOUT, 1));
    let asked = m.ask();
    assert_eq!(get_pldm_state(&asked.pldm), State::Initializing);
    assert_eq!(asked.work, ClientWork::RunUntil(Goal::Reached(State::Initialized)));
    let m = pending(m.resume(ran(asked.pldm, State::Initialized)));
    let asked = m.ask();
    assert_eq!(asked.pldm.state, State::DownloadingHeader);
    assert_eq!(asked.pldm.download.total_length, 20);
    assert_eq!(asked.pldm.download.initial_offset, 0);
    assert_eq!(asked.pldm.download.current_offset, 0);
    assert_eq!(asked.pldm.download.total_downloaded, 0);
    assert_eq!(asked.work, ClientWork::RunUntil(Goal::Reached(State::HeaderDownloadComplete)));
    let m = pending(m.resume(ran(asked.pldm, State::HeaderDownloadComplete)));
    let asked = m.ask();
    assert_eq!(asked.work, ClientWork::ReadImageCount);
    let count = |n: usize| ClientAnswer { pldm: asked.pldm, event: ClientEvent::ImageCount(n) };
    assert_eq!(ended(m.resume(count(127))).1, Ok(()));
    assert_eq!(ended(m.resume(count(128))).1, Err(ErrorCode::Fail));
}

#[test]
fn update_service_is_not_started_twice() {
    let running = PldmContext { state: State::Initialized, ..NEW };
    assert_eq!(
        ended(initialize_pldm(running, LAYOUT, 0)),
        (running, Err(ErrorCode::Already))
    );
    let m = pending(initialize_pldm(NEW, LAYOUT, 1));
    assert_eq!(ended(m.resume(ran(NEW, State::Initializing))).1, Err(ErrorCode::Fail));
    let refused = ClientAnswer {
        pldm: PldmContext { state: State::Initialized, ..NEW },
        event: ClientEvent::Ran(Err(PldmServiceError::StartError)),
    };
    assert_eq!(ended(m.resume(refused)).1, Err(ErrorCode::Fail));
}

/// Looks for an image in a table of contents. The service comes back early
/// once for each entry.
fn search(table: &[ImageInfo], id: u32) -> (PldmContext, Result<(u32, u32), ErrorCode>, Vec<usize>) {
    let mut offsets = Vec::new();
    let mut p = Progress::Pending(pldm_download_toc(NEW, LAYOUT, id));
    let mut early = true;
    loop {
        let m = match p {
            Progress::Pending(m) => m,
            Progress::Done((pldm, r)) => return (pldm, r, offsets),
        };
        let asked = m.ask();
        let mut pldm = asked.pldm;
        let event = match asked.work {
            ClientWork::ReadImageCount => ClientEvent::ImageCount(table.len()),
            ClientWork::RunUntil(goal) => {
                assert_eq!(goal, Goal::TocEntry);
                if early {
                    assert_eq!(pldm.state, State::DownloadingToc);
                    offsets.push(pldm.download.initial_offset);
                    assert_eq!(pldm.download.total_length, 12);
                } else {
                    pldm.state = State::TocDownloadComplete;
                    assert!(goal_met(goal, &pldm));
                }
                early = !early;
                ClientEvent::Ran(Ok(()))
            }
            ClientWork::ReadImageInfo => {
                ClientEvent::ImageInfo(table[(pldm.download.initial_offset - 20) / 12])
            }
        };
        p = m.resume(ClientAnswer { pldm, event });
    }
}

#[test]
fn image_is_found_in_the_table_of_contents() {
    let entry = |identifier, offset, size| ImageInfo { identifier, offset, size };
    let table = [entry(1, 100, 10), entry(2, 200, 20), entry(2, 300, 30), entry(4, 400, 40)];
    let (pldm, found, offsets) = search(&table, 2);
    assert_eq!(found, Ok((200, 20)));
    assert_eq!(pldm.state, State::ImageDownloadReady);
    assert_eq!(offsets, vec![20, 32]);
    let (pldm, found, offsets) = search(&table, 5);
    assert_eq!(found, Err(ErrorCode::Fail));
    assert_eq!(pldm.state, State::DownloadingToc);
    assert_eq!(offsets, vec![20, 32, 44, 56]);
    assert_eq!(search(&[], 1).1, Err(ErrorCode::Fail));
}

#[test]
fn image_is_downloaded() {
    let m = pldm_download_image(NEW, 0x1_2345_6789, 200, 20);
    let asked = m.ask();
    assert_eq!(asked.pldm.state, State::DownloadingImage);
    assert_eq!(asked.pldm.download.initial_offset, 200);
    assert_eq!(asked.pldm.download.current_offset, 200);
    assert_eq!(asked.pldm.download.total_length, 20);
    assert_eq!(asked.pldm.download.total_downloaded, 0);
    assert_eq!(asked.pldm.download.load_address, 0x1_2345_6789);
    assert_eq!(ended(m.resume(ran(asked.pldm, State::ImageDownloadComplete))).1, Ok(()));
    assert_eq!(ended(m.resume(ran(asked.pldm, State::Initialized))).1, Err(ErrorCode::Fail));
}

#[test]
fn download_is_finalized() {
    let mut pldm = NEW;
    assert_eq!(finalize(&mut pldm, VerifyResult(2)), Ok(()));
    assert!(pldm.download.download_complete);
    assert_eq!(pldm.download.verify_result, VerifyResult(2));
    assert_eq!(pldm.download.total_downloaded, 3);
}

#[test]
fn interface_errors() {
    let e: CaliptraApiError<u8> = CaliptraApiError::Eat(3);
    assert_eq!(e.debug_text(), "CaliptraApiError");
    assert!(e == CaliptraApiError::Eat(3));
    assert!(e != CaliptraApiError::MailboxBusy);
}

const SIZES: ResponderSizes =
    ResponderSizes { buf_size: 2048, header_size: 1, large_msg_buf_size: 8192 };

#[test]
fn responders_tell_of_themselves() {
    assert_eq!(spdm_versions(), [SpdmVersion::V12, SpdmVersion::V13]);
    assert_eq!(secure_spdm_versions(), [SpdmVersion::V12]);
    let mctp = mctp_config(SIZES, false);
    assert_eq!(mctp.capabilities.ct_exponent, 20);
    assert_eq!(mctp.capabilities.data_transfer_size, 2047);
    assert_eq!(mctp.capabilities.max_spdm_msg_size, 8192);
    assert!(!mctp.capabilities.flags.key_ex_cap);
    assert_eq!(mctp.measurements, MeasurementFormat::OcpEat);
    assert_eq!(mctp.vdm_handlers, VdmHandlers::Caliptra);
    let doe = doe_config(ResponderSizes { header_size: 12, ..SIZES }, true, true);
    assert_eq!(doe.capabilities.data_transfer_size, 2036);
    assert!(doe.capabilities.flags.key_ex_cap);
    assert!(doe.capabilities.flags.mac_cap);
    assert!(doe.capabilities.flags.encrypt_cap);
    assert!(doe.algorithms.dhe_group);
    assert_eq!(doe.measurements, MeasurementFormat::PcrQuote);
    assert_eq!(doe.vdm_handlers, VdmHandlers::PciSig { vendor_id: 1 });
    assert_eq!(doe_config(SIZES, true, false).vdm_handlers, VdmHandlers::Nobody);
}

fn no_device() -> ResponderAnswer {
    let error = TransportError::DriverError(ErrorCode::NoDevice);
    ResponderAnswer::Processed(Err(SpdmError::Transport(error)))
}

#[test]
fn doe_responder_ends_without_a_device() {
    let m = spdm_doe_responder(SIZES, false, false);
    assert!(matches!(m.ask(), ResponderAsk::CreateContext(_)));
    assert_eq!(
        ended(m.resume(ResponderAnswer::Tried { ok: false })),
        ResponderEnd::NoContext
    );
    let m = pending(m.resume(ResponderAnswer::Tried { ok: true }));
    let m = pending(m.resume(ResponderAnswer::Processed(Ok(()))));
    assert_eq!(m.ask(), ResponderAsk::ProcessMessage);
    let m = pending(m.resume(ResponderAnswer::Processed(Err(SpdmError::Other))));
    let fail = TransportError::DriverError(ErrorCode::Fail);
    let m = pending(m.resume(ResponderAnswer::Processed(Err(SpdmError::Transport(fail)))));
    assert_eq!(ended(m.resume(no_device())), ResponderEnd::NoDevice);
}

#[test]
fn mctp_responder_goes_on() {
    let m = spdm_mctp_responder(SIZES, false);
    let m = pending(m.resume(ResponderAnswer::Tried { ok: true }));
    let m = pending(m.resume(no_device()));
    assert_eq!(m.ask(), ResponderAsk::ProcessMessage);
}

#[test]
fn task_makes_what_it_shares_first() {
    let m = spdm_task(SIZES, true);
    assert_eq!(m.ask(), ResponderAsk::InitLargeMsgBuf);
    let m = pending(m.resume(ResponderAnswer::Done));
    assert_eq!(m.ask(), ResponderAsk::InitCertStore);
    assert_eq!(
        ended(m.resume(ResponderAnswer::Tried { ok: false })),
        ResponderEnd::NoCertStore
    );
    let m = pending(m.resume(ResponderAnswer::Tried { ok: true }));
    assert!(matches!(m.ask(), ResponderAsk::CreateContext(_)));
}

#[test]
fn cooperative_responder_lets_others_run() {
    let m = spdm_cooperative_main(SIZES, false);
    let m = pending(m.resume(ResponderAnswer::Done));
    let m = pending(m.resume(ResponderAnswer::Tried { ok: true }));
    assert_eq!(m.ask(), ResponderAsk::InitTargetEnvClaims);
    let m = pending(m.resume(ResponderAnswer::Done));
    assert_eq!(m.ask(), ResponderAsk::SetupNonBlocking);
    let m = pending(m.resume(ResponderAnswer::Tried { ok: true }));
    let m = pending(m.resume(ResponderAnswer::Tried { ok: true }));
    let top = m;
    assert_eq!(m.ask(), ResponderAsk::TryProcessMessage);
    let m = pending(m.resume(no_device()));
    assert_eq!(m.ask(), ResponderAsk::PollOthers);
    let m = pending(m.resume(ResponderAnswer::Done));
    assert_eq!(m.ask(), ResponderAsk::YieldWait);
    let m = pending(m.resume(ResponderAnswer::Done));
    assert_eq!(m, top);
}

#[test]
fn cooperative_responder_never_ends() {
    let ok = || ResponderAnswer::Tried { ok: true };
    let failed = || ResponderAnswer::Tried { ok: false };
    let start = || pending(spdm_cooperative_main(SIZES, true).resume(ResponderAnswer::Done));
    let no_cert_store = pending(start().resume(failed()));
    let not_listening = pending(pending(start().resume(ok())).resume(failed()));
    let no_context = pending(pending(pending(start().resume(ok())).resume(ok())).resume(failed()));
    for idle in [no_cert_store, not_listening, no_context] {
        let mut m = idle;
        for _ in 0..5 {
            assert_eq!(m.ask(), ResponderAsk::PollOthers);
            m = pending(m.resume(ResponderAnswer::Done));
            assert_eq!(m.ask(), ResponderAsk::YieldWait);
            m = pending(m.resume(ResponderAnswer::Done));
        }
        assert_eq!(m, idle);
    }
}

const NONE: Features = Features {
    test_firmware_update_streaming: false,
    test_firmware_update_flash: false,
    test_mcu_mbox_cmds: false,
    test_mcu_mbox_fips_self_test: false,
    test_mcu_mbox_fips_periodic: false,
    test_caliptra_util_host_validator: false,
    test_mctp_vdm_cmds: false,
    test_caliptra_util_host_mctp_vdm_validator: false,
};

#[test]
fn application_starts_by_its_features() {
    assert_eq!(
        start(&NONE),
        vec![StartStep::SetPrinter, StartStep::LoadImages, StartStep::StartAsync]
    );
    let periodic = Features { test_mcu_mbox_fips_periodic: true, ..NONE };
    assert_eq!(
        start(&periodic),
        vec![
            StartStep::SetPrinter,
            StartStep::LoadImages,
            StartStep::InitMboxPolling,
            StartStep::SpdmCooperative,
            StartStep::FipsPeriodic
        ]
    );
    let update =
        Features { test_mcu_mbox_cmds: true, test_firmware_update_flash: true, ..NONE };
    assert_eq!(
        start(&update),
        vec![StartStep::SetPrinter, StartStep::LoadImages, StartStep::InitMboxPolling]
    );
    assert_eq!(async_main(&NONE), vec![AsyncTask::Spdm]);
    let vdm = Features { test_mctp_vdm_cmds: true, ..NONE };
    assert_eq!(async_main(&vdm), vec![AsyncTask::Spdm, AsyncTask::Vdm]);
    assert_eq!(async_main(&update), vec![]);
}

#[test]
fn mailbox_task_never_ends() {
    assert_eq!(ended(start_mcu_mbox_service(&NONE)), Ok(()));
    let on = Features { test_caliptra_util_host_validator: true, ..NONE };
    let m = pending(start_mcu_mbox_service(&on));
    assert_eq!(m.ask(), MboxTaskAsk::StartService);
    let m = pending(m.resume(()));
    assert_eq!(m.ask(), MboxTaskAsk::YieldWait);
    let m = pending(m.resume(()));
    assert_eq!(m.ask(), MboxTaskAsk::YieldWait);
    assert_eq!(mcu_mbox_task(Ok(())), None);
    assert_eq!(mcu_mbox_task(Err(ErrorCode::Fail)), Some(1));
}

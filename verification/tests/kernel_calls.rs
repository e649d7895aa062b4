use mcu_userspace::blocking::{
    blocking_upcall, read_registers, subscribe_allow_ro_rw_and_wait, subscribe_allow_rw_and_wait,
    subscribe_and_wait, wait_for_result, BlockingCall, BlockingResult, CsMutex, SyncLazy,
    SyncMutex, UpcallNotification,
};
use mcu_userspace::bytes::{copy_prefix, fill_zero, put_le_word};
use mcu_userspace::error::ErrorCode;
use mcu_userspace::kernel::{
    size_reply, unit_reply, BlockingRequest, Command, Expect, KernelReply, Op, Region,
    ReturnVariant, Share, Syscall,
};
use mcu_userspace::machine::{Machine, Progress};
use mcu_userspace::syscall::dma::{DMASource, DMATransaction, DMA};
use mcu_userspace::syscall::flash::{FlashCapacity, SpiFlash};
use mcu_userspace::syscall::logging::LoggingSyscall;
use mcu_userspace::syscall::mailbox::{
    populate_checksum, Mailbox, MailboxError, StreamAnswer, StreamAsk,
};
use mcu_userspace::syscall::mcu_mbox::{
    MbxCmdStatus, McuMbox, ReceiveAnswer, ReceiveAsk, MCU_MBOX0_DRIVER_NUM,
};

const OK_REGISTERS: KernelReply =
    KernelReply::Registers { variant: ReturnVariant::Success2U32, error: None };

fn pending<M, O>(p: Progress<M, O>) -> M {
    match p {
        Progress::Pending(m) => m,
        Progress::Done(_) => panic!("ended too early"),
    }
}

fn ended<M, O>(p: Progress<M, O>) -> O {
    match p {
        Progress::Pending(_) => panic!("has not ended"),
        Progress::Done(o) => o,
    }
}

#[test]
fn registers_are_read() {
    assert_eq!(read_registers(ReturnVariant::Success2U32, None), Ok(()));
    assert_eq!(
        read_registers(ReturnVariant::Failure2U32, Some(ErrorCode::NoMem)),
        Err(ErrorCode::NoMem)
    );
    assert_eq!(read_registers(ReturnVariant::Failure2U32, None), Err(ErrorCode::Fail));
    assert_eq!(
        read_registers(ReturnVariant::Other, Some(ErrorCode::NoMem)),
        Err(ErrorCode::Fail)
    );
}

#[test]
fn upcall_is_recorded() {
    let mut result = BlockingResult { result: None };
    assert_eq!(wait_for_result(&result), None);
    blocking_upcall(&mut result, 1, 2, 3);
    assert_eq!(wait_for_result(&result), Some((1, 2, 3)));
}

#[test]
fn blocking_request_makes_its_calls_in_order() {
    let request = subscribe_allow_ro_rw_and_wait(
        7,
        1,
        2,
        Region { start: 0, len: 4 },
        3,
        Region { start: 0, len: 8 },
        9,
        10,
        11,
    );
    let call = BlockingCall::start(request);
    assert_eq!(
        call.ask(),
        Syscall::AllowRo {
            driver_num: 7,
            share: Share { buffer_num: 2, region: Region { start: 0, len: 4 } }
        }
    );
    let call = pending(call.resume(OK_REGISTERS));
    assert_eq!(
        call.ask(),
        Syscall::AllowRw {
            driver_num: 7,
            share: Share { buffer_num: 3, region: Region { start: 0, len: 8 } }
        }
    );
    let call = pending(call.resume(OK_REGISTERS));
    assert_eq!(call.ask(), Syscall::Subscribe { driver_num: 7, subscribe_num: 1 });
    let call = pending(call.resume(OK_REGISTERS));
    assert_eq!(
        call.ask(),
        Syscall::Command(Command { driver_num: 7, command_num: 9, arg0: 10, arg1: 11 })
    );
    let call = pending(call.resume(KernelReply::Command(Ok(()))));
    assert_eq!(call.ask(), Syscall::YieldWait);
    let call = pending(call.resume(KernelReply::Yielded(None)));
    assert_eq!(call.ask(), Syscall::YieldWait);
    assert_eq!(ended(call.resume(KernelReply::Yielded(Some((4, 5, 6))))), Ok((4, 5, 6)));
}

#[test]
fn blocking_request_ends_at_the_first_failure() {
    let call = BlockingCall::start(subscribe_and_wait(7, 1, 9, 0, 0));
    let call = pending(call.resume(OK_REGISTERS));
    assert_eq!(
        ended(call.resume(KernelReply::Command(Err(ErrorCode::NoDevice)))),
        Err(ErrorCode::NoDevice)
    );
    let call = BlockingCall::start(subscribe_allow_rw_and_wait(
        7,
        1,
        0,
        Region { start: 0, len: 1 },
        9,
        0,
        0,
    ));
    let refused =
        KernelReply::Registers { variant: ReturnVariant::Failure2U32, error: Some(ErrorCode::NoMem) };
    assert_eq!(ended(call.resume(refused)), Err(ErrorCode::NoMem));
}

#[test]
fn notification_waits_for_the_next_upcall() {
    let mut notify = UpcallNotification::new();
    assert!(!notify.is_ready());
    notify.notify((1, 2, 3));
    assert!(notify.is_ready());
    assert_eq!(notify.args(), (1, 2, 3));
    notify.clear();
    assert!(!notify.is_ready());
}

#[test]
fn values_are_shared() {
    let mut mutex = SyncMutex::new(5u32);
    *mutex.lock() = 6;
    assert_eq!(*mutex.lock(), 6);
    let mutex = CsMutex::new(7u32);
    assert_eq!(mutex.lock(|v: &u32| *v + 1), 8);
    let calls = std::cell::Cell::new(0u32);
    let mut lazy = SyncLazy::new(|| {
        calls.set(calls.get() + 1);
        9u32
    });
    assert_eq!(*lazy.get(), 9);
    assert_eq!(*lazy.get(), 9);
    assert_eq!(calls.get(), 1);
}

#[test]
fn words_and_fills() {
    let mut data = [9u8; 6];
    put_le_word(&mut data, 0x0403_0201);
    assert_eq!(data, [1, 2, 3, 4, 9, 9]);
    fill_zero(&mut data, 3);
    assert_eq!(data, [1, 2, 3, 0, 0, 0]);
    copy_prefix(&mut data, &[7, 8, 9], 2);
    assert_eq!(data, [7, 8, 3, 0, 0, 0]);
}

#[test]
fn replies_are_read() {
    assert_eq!(unit_reply(Ok((1, 2, 3))), Ok(()));
    assert_eq!(unit_reply(Err(ErrorCode::Fail)), Err(ErrorCode::Fail));
    assert_eq!(size_reply(Ok((256, 0, 0))), Ok(256));
    assert_eq!(size_reply(Err(ErrorCode::Other(9))), Err(ErrorCode::Other(9)));
    assert_eq!(SpiFlash::capacity_reply(Ok((4096, 0, 0))), Ok(FlashCapacity(4096)));
    assert_eq!(SpiFlash::capacity_reply(Err(ErrorCode::Fail)), Err(ErrorCode::Fail));
}

/// A flash device of 64 bytes with chunks of 4 bytes at most.
struct Flash {
    mem: [u8; 64],
    fail: Option<ErrorCode>,
}

impl Flash {
    fn serve(&mut self, op: Op, buf: &mut [u8]) -> Result<(u32, u32, u32), ErrorCode> {
        match op {
            Op::Command { command, expect } => {
                assert_eq!((command.command_num, expect), (5, Expect::Word));
                Ok((4, 0, 0))
            }
            Op::Blocking(request) => {
                if let Some(e) = self.fail {
                    return Err(e);
                }
                let at = request.arg1 as usize;
                let len = request.arg2 as usize;
                assert!(len <= 4);
                match (request.ro, request.rw) {
                    (Some(share), None) => {
                        assert_eq!((request.cmd, share.region.len), (3, len));
                        let start = share.region.start;
                        self.mem[at..at + len].copy_from_slice(&buf[start..start + len]);
                    }
                    (None, Some(share)) => {
                        assert_eq!((request.cmd, share.region.len), (2, len));
                        let start = share.region.start;
                        buf[start..start + len].copy_from_slice(&self.mem[at..at + len]);
                    }
                    _ => panic!("one buffer is shared"),
                }
                Ok((0, 0, 0))
            }
            _ => Ok((0, 0, 0)),
        }
    }

    fn run(
        &mut self,
        p: Progress<mcu_userspace::syscall::flash::FlashTransfer, Result<(), ErrorCode>>,
        buf: &mut [u8],
    ) -> Result<(), ErrorCode> {
        let mut p = p;
        loop {
            match p {
                Progress::Done(r) => return r,
                Progress::Pending(m) => {
                    let reply = self.serve(m.ask(), buf);
                    p = m.resume(reply);
                }
            }
        }
    }
}

#[test]
fn flash_reads_back_what_was_written() {
    let mut device = Flash { mem: [0; 64], fail: None };
    let flash = SpiFlash::new(0x70);
    let mut data: Vec<u8> = (1..=10).collect();
    assert_eq!(device.run(flash.write(3, 10, 10), &mut data), Ok(()));
    assert_eq!(device.mem[2], 0);
    assert_eq!(&device.mem[3..13], &data[..]);
    assert_eq!(device.mem[13], 0);
    let mut back = vec![0u8; 12];
    assert_eq!(device.run(flash.read(3, 10, 12), &mut back), Ok(()));
    assert_eq!(&back[..10], &data[..]);
    assert_eq!(&back[10..], &[0, 0]);
}

#[test]
fn flash_transfer_may_start_at_the_last_address() {
    // The chunk starts can be counted, though not the address of the last byte.
    let flash = SpiFlash::new(0x70);
    let m = pending(flash.read(usize::MAX, 2, 2));
    let m = pending(m.resume(Ok((4, 0, 0))));
    let m = pending(m.resume(Ok((4, 0, 0))));
    assert!(matches!(
        m.ask(),
        Op::Blocking(r) if r.arg1 == usize::MAX as u32 && r.arg2 == 2
    ));
    let m = pending(m.resume(Ok((0, 0, 0))));
    assert_eq!(ended(m.resume(Ok((0, 0, 0)))), Ok(()));
}

#[test]
fn flash_refuses_and_fails() {
    let mut device = Flash { mem: [0; 64], fail: Some(ErrorCode::Other(12)) };
    let flash = SpiFlash::new(0x70);
    assert_eq!(ended(flash.read(0, 5, 4)), Err(ErrorCode::NoMem));
    assert_eq!(ended(flash.write(0, 5, 4)), Err(ErrorCode::NoMem));
    let mut buf = vec![0u8; 8];
    assert_eq!(device.run(flash.read(0, 8, 8), &mut buf), Err(ErrorCode::Other(12)));
    assert_eq!(
        flash.erase(8, 16),
        Op::Blocking(BlockingRequest {
            driver_num: 0x70,
            subscribe_num: 2,
            ro: None,
            rw: None,
            cmd: 4,
            arg1: 8,
            arg2: 16
        })
    );
    assert_eq!(
        flash.driver_exists(),
        Op::Command {
            command: Command { driver_num: 0x70, command_num: 0, arg0: 0, arg1: 0 },
            expect: Expect::Unit
        }
    );
}

#[test]
fn dma_sets_up_before_it_starts() {
    let dma = DMA::new();
    let transaction = DMATransaction {
        byte_count: 16,
        source: DMASource::Address(0x1_0000_0002),
        dest_addr: 0x3_0000_0004,
    };
    let mut m = dma.xfer(&transaction);
    let words = |op: Op| match op {
        Op::Command { command, .. } => (command.command_num, command.arg0, command.arg1),
        Op::Blocking(request) => (request.cmd, request.arg1, request.arg2),
        _ => panic!("neither"),
    };
    let mut asked = Vec::new();
    loop {
        asked.push(words(m.ask()));
        match m.resume(Ok((0, 0, 0))) {
            Progress::Pending(next) => m = next,
            Progress::Done(r) => {
                assert_eq!(r, Ok(()));
                break;
            }
        }
    }
    assert_eq!(asked, vec![(0, 16, 0), (1, 2, 1), (2, 4, 3), (3, 0, 0)]);

    let data = [1u8, 2, 3];
    let transaction =
        DMATransaction { byte_count: 3, source: DMASource::Buffer(&data), dest_addr: 8 };
    let m = dma.xfer(&transaction);
    let m = pending(m.resume(Ok((0, 0, 0))));
    assert_eq!(words(m.ask()), (2, 8, 0));
    let m = pending(m.resume(Ok((0, 0, 0))));
    assert_eq!(words(m.ask()), (4, 0, 0));
    assert_eq!(ended(m.resume(Err(ErrorCode::Fail))), Err(ErrorCode::Fail));
}

#[test]
fn log_takes_its_buffer_back_after_success() {
    let log = LoggingSyscall::new();
    let call = log.append_entry(5);
    assert!(matches!(call.ask(), Op::Blocking(r) if r.cmd == 2 && r.driver_num == 0x9001_0000));
    let call = pending(call.resume(Ok((5, 0, 0))));
    assert_eq!(call.ask(), Op::UnallowRo { driver_num: 0x9001_0000, buffer_num: 0 });
    assert_eq!(ended(call.resume(Ok((0, 0, 0)))), Ok((5, 0, 0)));
    let call = log.read_entry(9);
    assert_eq!(ended(call.resume(Err(ErrorCode::NoMem))), Err(ErrorCode::NoMem));
    assert!(matches!(log.sync(), Op::Blocking(r) if r.cmd == 4 && r.subscribe_num == 3));
    assert!(matches!(log.clear(), Op::Blocking(r) if r.cmd == 5 && r.subscribe_num == 4));
    assert!(matches!(log.seek_beginning(), Op::Blocking(r) if r.cmd == 3 && r.subscribe_num == 1));
}

#[test]
fn checksum_is_put_in_front() {
    let calc = |cmd: u32, data: &[u8]| cmd + data.len() as u32;
    let mut data = [0xffu8; 6];
    assert_eq!(populate_checksum(0x100, &mut data, &calc), Ok(()));
    assert_eq!(data, [6, 1, 0, 0, 0xff, 0xff]);
    let mut short = [0xffu8; 3];
    assert_eq!(Mailbox::new().populate_checksum(1, &mut short, &calc), Err(ErrorCode::Invalid));
    assert_eq!(short, [0xff; 3]);
}

#[test]
fn mailbox_replies_are_read() {
    assert!(Mailbox::execute_reply(Ok((12, 0, 0))) == Ok(12));
    assert!(Mailbox::execute_reply(Ok((12, 7, 0))) == Err(MailboxError::MailboxError(7)));
    assert!(
        Mailbox::execute_reply(Err(ErrorCode::NoDevice))
            == Err(MailboxError::ErrorCode(ErrorCode::NoDevice))
    );
    assert_eq!(MailboxError::MailboxError(7).debug_text(), "MailboxError");
    assert!(
        matches!(Mailbox::new().execute(9, 4, 8), Op::Blocking(r) if r.cmd == 1 && r.arg1 == 9)
    );
}

#[test]
fn stream_sends_header_and_payload() {
    let payload: Vec<u8> = (0..300u32).map(|i| i as u8).collect();
    let header = [1u8, 2, 3];
    let mut m = Mailbox::new().execute_with_payload_stream(5, Some(&header), payload.len(), 16);
    let mut read = 0usize;
    let mut sent: Vec<u8> = Vec::new();
    let mut announced = None;
    loop {
        let answer = match m.ask() {
            StreamAsk::ReadPayload => {
                let n = std::cmp::min(256, payload.len() - read);
                let mut buffer = m.buffer;
                buffer[..n].copy_from_slice(&payload[read..read + n]);
                read += n;
                StreamAnswer::Payload(Ok(n), buffer)
            }
            StreamAsk::Kernel(Op::Command { command, .. }) => {
                announced = Some((command.command_num, command.arg0, command.arg1));
                StreamAnswer::Kernel(Ok((0, 0, 0)))
            }
            StreamAsk::Kernel(Op::Blocking(request)) => match request.ro {
                Some(share) => {
                    assert_eq!(request.cmd, 3);
                    sent.extend_from_slice(&m.buffer[..share.region.len]);
                    StreamAnswer::Kernel(Ok((0, 0, 0)))
                }
                None => {
                    assert_eq!((request.cmd, request.arg1), (4, 5));
                    StreamAnswer::Kernel(Ok((11, 0, 0)))
                }
            },
            _ => panic!("nothing else is asked"),
        };
        match m.resume(answer) {
            Progress::Pending(next) => m = next,
            Progress::Done(r) => {
                assert!(r == Ok(11));
                break;
            }
        }
    }
    assert_eq!(announced, Some((2, 5, 303)));
    assert_eq!(&sent[..3], &header);
    assert_eq!(&sent[3..], &payload[..]);
}

#[test]
fn stream_fails_with_the_payload() {
    let m = Mailbox::new().execute_with_payload_stream(5, None, 1, 16);
    let m = pending(m.resume(StreamAnswer::Kernel(Ok((0, 0, 0)))));
    assert!(matches!(m.ask(), StreamAsk::ReadPayload));
    let r = ended(m.resume(StreamAnswer::Payload(Err(ErrorCode::Other(3)), [0; 256])));
    assert!(r == Err(MailboxError::ErrorCode(ErrorCode::Other(3))));
}

#[test]
fn status_codes() {
    assert_eq!(u32::from(MbxCmdStatus::Busy), 0);
    assert_eq!(u32::from(MbxCmdStatus::DataReady), 1);
    assert_eq!(u32::from(MbxCmdStatus::Complete), 2);
    assert_eq!(u32::from(MbxCmdStatus::Failure), 3);
}

#[test]
fn mailbox_commands_are_received() {
    let mbox = McuMbox::new(MCU_MBOX0_DRIVER_NUM);
    assert_eq!(ended(mbox.receive_command(0, true)), Err(ErrorCode::Invalid));
    let m = pending(mbox.receive_command(8, true));
    assert_eq!(m.ask(), ReceiveAsk::OnListening);
    let m = pending(m.resume(ReceiveAnswer::Told));
    assert!(matches!(m.ask(), ReceiveAsk::Kernel(Op::Blocking(r)) if r.cmd == 1));
    assert_eq!(ended(m.resume(ReceiveAnswer::Kernel(Ok((0x55, 6, 0))))), Ok((0x55, 6)));
    let m = pending(mbox.receive_command(8, false));
    assert_eq!(
        ended(m.resume(ReceiveAnswer::Kernel(Err(ErrorCode::Fail)))),
        Err(ErrorCode::Fail)
    );
    assert_eq!(mbox.send_response(0), Err(ErrorCode::Invalid));
    assert!(matches!(mbox.send_response(3), Ok(Op::Blocking(r)) if r.cmd == 2));
    assert_eq!(
        mbox.finish_response(MbxCmdStatus::Complete),
        Op::Command {
            command: Command { driver_num: MCU_MBOX0_DRIVER_NUM, command_num: 3, arg0: 2, arg1: 0 },
            expect: Expect::Unit
        }
    );
    assert!(McuMbox::exists_reply(Ok((1, 0, 0))));
    assert!(!McuMbox::exists_reply(Err(ErrorCode::NoDevice)));
}

#[test]
fn mailbox_setup_does_not_wait() {
    let mbox = McuMbox::default();
    assert_eq!(mbox.setup_receive_command(0), Err(ErrorCode::Invalid));
    let m = mbox.setup_receive_command(16).unwrap();
    assert!(matches!(m.ask(), Syscall::AllowRw { .. }));
    let m = pending(m.resume(OK_REGISTERS));
    assert!(matches!(m.ask(), Syscall::Subscribe { .. }));
    let m = pending(m.resume(OK_REGISTERS));
    assert!(matches!(m.ask(), Syscall::Command(_)));
    assert_eq!(ended(m.resume(KernelReply::Command(Ok(())))), Ok(()));
}

use mcu_userspace::blocking::UpcallNotification;
use mcu_userspace::error::ErrorCode;
use mcu_userspace::kernel::{Command, Expect, Op};
use mcu_userspace::machine::{Machine, Progress};
use mcu_userspace::mbox::transport as mbox;
use mcu_userspace::mbox::transport::McuMboxTransport;
use mcu_userspace::mctp::{MctpCommonHeader, MctpOp, MessageInfo, ResponseContext};
use mcu_userspace::mctp_vdm::error::VdmLibError;
use mcu_userspace::mctp_vdm::transport as vdm;
use mcu_userspace::mctp_vdm::transport::MctpVdmTransport;
use mcu_userspace::pldm::transport as pldm;
use mcu_userspace::pldm::transport::MctpTransport;
use mcu_userspace::spdm::transport::{SpdmTransport, TransportError, TransportResult};
use mcu_userspace::syscall::mcu_mbox::{MbxCmdStatus, ReceiveAsk};

const INFO: MessageInfo = MessageInfo { eid: 9, tag: 3 };

#[test]
fn common_header_fields() {
    assert_eq!(MctpCommonHeader(0x85).ic(), 1);
    assert_eq!(MctpCommonHeader(0x85).msg_type(), 5);
    assert_eq!(MctpCommonHeader(0x7e).ic(), 0);
    assert_eq!(MctpCommonHeader(0x7e).msg_type(), 0x7e);
}

#[test]
fn pldm_request_awaits_its_response() {
    let mut t = MctpTransport::new(1, 1);
    let mut buf = [7u8; 4];
    assert_eq!(t.receive_response(&mut buf), Err(pldm::TransportError::ResponseNotExpected));
    assert_eq!(t.send_request(8, &[2, 0]), Err(pldm::TransportError::UnexpectedMessageType));
    assert_eq!(t.send_request(8, &[1, 0]), Ok(MctpOp::SendRequest { dest_eid: 8 }));
    assert_eq!(
        t.send_request_done(8, Err(ErrorCode::Fail)),
        Err(pldm::TransportError::SendError)
    );
    assert_eq!(t.send_request_done(8, Ok(3)), Ok(()));
    assert_eq!(t.receive_response(&mut buf), Ok(MctpOp::ReceiveResponse { tag: 3, eid: 8 }));
    assert_eq!(buf, [0; 4]);
    assert_eq!(
        t.receive_response_done(&[1, 0], Err(ErrorCode::Fail)),
        Err(pldm::TransportError::ReceiveError)
    );
    assert_eq!(t.receive_response_done(&[1, 0], Ok((2, INFO))), Ok(()));
    assert_eq!(t.receive_response(&mut buf), Err(pldm::TransportError::ResponseNotExpected));
}

#[test]
fn pldm_response_follows_its_request() {
    let mut t = MctpTransport::new(1, 1);
    assert_eq!(t.send_response(&[1]), Err(pldm::TransportError::NoRequestInFlight));
    let mut buf = [7u8; 3];
    assert_eq!(t.receive_request(&mut buf), MctpOp::ReceiveRequest);
    assert_eq!(buf, [0; 3]);
    assert_eq!(
        t.receive_request_done(&buf, Ok((0, INFO))),
        Err(pldm::TransportError::BufferTooSmall)
    );
    assert_eq!(
        t.receive_request_done(&[5], Ok((1, INFO))),
        Err(pldm::TransportError::UnexpectedMessageType)
    );
    assert_eq!(t.receive_request_done(&[1], Ok((1, INFO))), Ok(()));
    assert_eq!(
        t.send_response(&[1]),
        Ok(MctpOp::SendResponse(ResponseContext::Info(INFO)))
    );
    assert_eq!(
        t.send_response_done(Err(ErrorCode::Fail)),
        Err(pldm::TransportError::SendError)
    );
    assert_eq!(t.send_response_done(Ok(())), Ok(()));
    assert_eq!(t.send_response(&[1]), Err(pldm::TransportError::NoRequestInFlight));
    assert_eq!(
        MctpTransport::setup_non_blocking_done(Err(ErrorCode::Fail)),
        Err(pldm::TransportError::DriverError)
    );
}

#[test]
fn pldm_request_comes_through_the_shared_buffer() {
    let mut t = MctpTransport::new(1, 1);
    let mut notify = UpcallNotification::new();
    let nb = [1u8, 2, 3, 4];
    let mut msg = [9u8; 4];
    assert_eq!(t.try_receive_from_buffer(&notify, &nb, &mut msg), Ok(None));
    assert_eq!(msg, [9; 4]);
    notify.notify((3, 0, 0x77));
    assert_eq!(t.try_receive_from_buffer(&notify, &nb, &mut msg), Ok(Some(())));
    assert_eq!(msg, [1, 2, 3, 0]);
    assert_eq!(
        t.send_response(&[1]),
        Ok(MctpOp::SendResponse(ResponseContext::Encoded(0x77)))
    );
    assert_eq!(t.rearm(&mut notify), MctpOp::ArmReceiveRequest);
    assert!(!notify.is_ready());
}

#[test]
fn vdm_response_follows_its_request() {
    let mut t = MctpVdmTransport::new(1, 0x7e);
    assert_eq!(t.driver_exists(), MctpOp::Exists);
    assert_eq!(t.send_response(&[]), Err(vdm::TransportError::BufferTooSmall));
    assert_eq!(t.send_response(&[1]), Err(vdm::TransportError::UnexpectedMessageType));
    assert_eq!(t.send_response(&[0x7e]), Err(vdm::TransportError::NoRequestInFlight));
    let mut buf = [7u8; 3];
    assert_eq!(t.receive_request(&mut buf), MctpOp::ReceiveRequest);
    assert_eq!(buf, [0; 3]);
    assert_eq!(
        t.receive_request_done(&[0x7e, 1], Err(ErrorCode::Fail)),
        Err(vdm::TransportError::ReceiveError)
    );
    assert_eq!(t.receive_request_done(&[0x7e, 1], Ok((2, INFO))), Ok(2));
    assert_eq!(
        t.send_response(&[0x7e]),
        Ok(MctpOp::SendResponse(ResponseContext::Info(INFO)))
    );
    assert_eq!(t.send_response_done(Err(ErrorCode::Fail)), Err(vdm::TransportError::SendError));
    assert_eq!(t.send_response_done(Ok(())), Ok(()));
    assert_eq!(t.send_response(&[0x7e]), Err(vdm::TransportError::NoRequestInFlight));
    assert_eq!(MctpVdmTransport::max_message_size_done(Ok(64)), Ok(64));
    assert_eq!(
        MctpVdmTransport::max_message_size_done(Err(ErrorCode::Fail)),
        Err(vdm::TransportError::DriverError)
    );
    assert_eq!(
        MctpVdmTransport::setup_non_blocking_done(Err(ErrorCode::Fail)),
        Err(vdm::TransportError::DriverError)
    );
}

#[test]
fn vdm_request_comes_through_the_shared_buffer() {
    let mut t = MctpVdmTransport::new(1, 0x7e);
    let mut notify = UpcallNotification::new();
    let nb = [0x7eu8, 2, 3, 4];
    let mut msg = [9u8; 4];
    assert_eq!(t.try_receive_from_buffer(&notify, &nb, &mut msg), Ok(None));
    notify.notify((0, 0, 0x77));
    assert_eq!(
        t.try_receive_from_buffer(&notify, &nb, &mut msg),
        Err(vdm::TransportError::BufferTooSmall)
    );
    notify.notify((2, 0, 0x77));
    assert_eq!(t.try_receive_from_buffer(&notify, &nb, &mut msg), Ok(Some(2)));
    assert_eq!(msg, [0x7e, 2, 0, 0]);
    assert_eq!(
        t.send_response(&[0x7e]),
        Ok(MctpOp::SendResponse(ResponseContext::Encoded(0x77)))
    );
    assert_eq!(
        t.try_receive_from_buffer(&notify, &[1, 1], &mut msg),
        Err(vdm::TransportError::UnexpectedMessageType)
    );
    assert_eq!(t.rearm(&mut notify), MctpOp::ArmReceiveRequest);
    assert!(!notify.is_ready());
}

#[test]
fn vdm_errors() {
    assert!(VdmLibError::from(vdm::TransportError::SendError) == VdmLibError::TransportError);
    assert_eq!(VdmLibError::NotReady.debug_text(), "VdmLibError");
}

/// Bytes at an address that is aligned for words.
#[derive(Clone, Copy)]
struct Aligned {
    words: [u64; 2],
}

impl Aligned {
    fn with(bytes: [u8; 16]) -> Aligned {
        let mut words = [0u64; 2];
        for (i, b) in bytes.iter().enumerate() {
            let at = if cfg_little() { i % 8 } else { 7 - i % 8 };
            words[i / 8] |= (*b as u64) << (8 * at);
        }
        Aligned { words }
    }

    fn bytes(&self) -> &[u8] {
        zerocopy::IntoBytes::as_bytes(&self.words[..])
    }
}

fn cfg_little() -> bool {
    1u32.to_le() == 1
}

/// The sum of the payload and the command.
fn sums(checksum: u32, cmd: u32, payload: &[u8]) -> bool {
    checksum == cmd + payload.iter().map(|b| *b as u32).sum::<u32>()
}

#[test]
fn mailbox_request_is_checked() {
    let buf = Aligned::with([0x06, 0x02, 0, 0, 1, 2, 3, 9, 9, 9, 9, 9, 9, 9, 9, 9]);
    let buf = buf.bytes();
    let done = |r: Result<(u32, usize), ErrorCode>| {
        McuMboxTransport::receive_request_done(buf, r, &sums)
    };
    assert_eq!(done(Ok((0x200, 7))), Ok((0x200, &buf[..7])));
    assert_eq!(done(Ok((0x201, 7))), Err(mbox::TransportError::ChkSumMismatch));
    assert_eq!(done(Ok((0x200, 8))), Err(mbox::TransportError::ChkSumMismatch));
    assert_eq!(done(Ok((0x200, 3))), Err(mbox::TransportError::InvalidRequest));
    assert_eq!(done(Err(ErrorCode::Fail)), Err(mbox::TransportError::DriverRxError));
    // An address that is not aligned for words holds no header.
    assert_eq!(
        McuMboxTransport::receive_request_done(&buf[1..], Ok((0x200, 7)), &sums),
        Err(mbox::TransportError::InvalidRequest)
    );
}

#[test]
fn mailbox_message_is_checked_against_its_word() {
    let message = [0u8, 0, 0, 0, 4, 5];
    let unread = mbox::TransportError::InvalidResponse;
    assert_eq!(mbox::check_message(&message, 1, Some(10), unread, &sums), Ok(()));
    assert_eq!(
        mbox::check_message(&message, 1, Some(9), unread, &sums),
        Err(mbox::TransportError::ChkSumMismatch)
    );
    assert_eq!(
        mbox::check_message(&message, 1, None, unread, &sums),
        Err(mbox::TransportError::InvalidResponse)
    );
}

#[test]
fn mailbox_response_is_checked() {
    let t = McuMboxTransport::new(5, 8);
    let good = Aligned::with([10, 0, 0, 0, 1, 2, 3, 4, 0, 0, 0, 0, 0, 0, 0, 0]);
    let good = good.bytes();
    assert!(matches!(
        t.send_response(&good[..8], &sums),
        Ok(Op::Blocking(r)) if r.cmd == 2 && r.driver_num == 5
    ));
    assert_eq!(t.send_response(&good[..7], &sums), Err(mbox::TransportError::BufferTooSmall));
    assert_eq!(t.send_response(&good[1..15], &sums), Err(mbox::TransportError::InvalidResponse));
    let bad = Aligned::with([11, 0, 0, 0, 1, 2, 3, 4, 0, 0, 0, 0, 0, 0, 0, 0]);
    assert_eq!(
        t.send_response(&bad.bytes()[..8], &sums),
        Err(mbox::TransportError::ChkSumMismatch)
    );
    assert_eq!(McuMboxTransport::send_response_done(Ok((0, 0, 0))), Ok(()));
    assert_eq!(
        McuMboxTransport::send_response_done(Err(ErrorCode::Fail)),
        Err(mbox::TransportError::DriverTxError)
    );
    assert_eq!(
        t.finalize_response(MbxCmdStatus::Failure),
        Op::Command {
            command: Command { driver_num: 5, command_num: 3, arg0: 3, arg1: 0 },
            expect: Expect::Unit
        }
    );
    assert_eq!(
        McuMboxTransport::finalize_response_done(Err(ErrorCode::Fail)),
        Err(mbox::TransportError::DriverTxError)
    );
}

#[test]
fn mailbox_is_signaled_ready_until_that_succeeds() {
    let mut t = McuMboxTransport::new(5, 8);
    let mut small = [9u8; 3];
    assert_eq!(t.receive_request(&mut small), Err(mbox::TransportError::BufferTooSmall));
    assert_eq!(small, [9; 3]);
    let mut buf = [9u8; 8];
    let first = t.receive_request(&mut buf).unwrap();
    assert_eq!(first.ask(), ReceiveAsk::OnListening);
    assert_eq!(buf, [0; 8]);
    let second = t.receive_request(&mut buf).unwrap();
    assert!(matches!(second.ask(), ReceiveAsk::Kernel(_)));
    assert_eq!(t.setup_non_blocking_done(Ok(())), Ok(false));

    let mut t = McuMboxTransport::new(5, 8);
    assert_eq!(t.setup_non_blocking(0), Err(mbox::TransportError::DriverRxError));
    assert!(t.setup_non_blocking(8).is_ok());
    assert_eq!(
        t.setup_non_blocking_done(Err(ErrorCode::Fail)),
        Err(mbox::TransportError::DriverRxError)
    );
    assert!(!t.ready_signaled);
    // A signal that fails is tried again.
    assert_eq!(t.setup_non_blocking_done(Ok(())), Ok(true));
    assert_eq!(
        t.ready_signal_done(Err(ErrorCode::Fail)),
        Err(mbox::TransportError::DriverRxError)
    );
    assert_eq!(t.setup_non_blocking_done(Ok(())), Ok(true));
    assert_eq!(t.ready_signal_done(Ok(())), Ok(()));
    assert_eq!(t.setup_non_blocking_done(Ok(())), Ok(false));
    let third = t.receive_request(&mut buf).unwrap();
    assert!(matches!(third.ask(), ReceiveAsk::Kernel(_)));
    assert_eq!((t.mbox.driver_num, t.resp_header_size), (5, 8));
}

#[test]
fn mailbox_request_comes_through_the_shared_buffer() {
    let t = McuMboxTransport::new(5, 8);
    let buf = Aligned::with([6, 2, 0, 0, 1, 2, 3, 9, 9, 9, 9, 9, 9, 9, 9, 9]);
    let mut notify = UpcallNotification::new();
    assert_eq!(t.try_receive_request(buf.bytes(), &notify, &sums), Ok(None));
    notify.notify((0x200, 7, 0));
    assert_eq!(t.try_receive_request(buf.bytes(), &notify, &sums), Ok(Some((0x200, 7))));
    notify.notify((0x200, 2, 0));
    assert_eq!(
        t.try_receive_request(buf.bytes(), &notify, &sums),
        Err(mbox::TransportError::InvalidRequest)
    );
    notify.notify((0x300, 7, 0));
    assert_eq!(
        t.try_receive_request(buf.bytes(), &notify, &sums),
        Err(mbox::TransportError::ChkSumMismatch)
    );
    assert!(matches!(t.rearm(&mut notify), Op::Command { command, .. } if command.command_num == 1));
    assert!(!notify.is_ready());
}

struct Plain;

impl SpdmTransport for Plain {
    type Msg = Vec<u8>;
    type CodecError = u8;

    fn send_request(
        &mut self,
        _dest_eid: u8,
        _req: &mut Vec<u8>,
        _secure: Option<bool>,
    ) -> TransportResult<(), u8> {
        Err(TransportError::Codec(1))
    }

    fn receive_response(&mut self, _rsp: &mut Vec<u8>) -> TransportResult<bool, u8> {
        Err(TransportError::ResponseNotExpected)
    }

    fn receive_request(&mut self, _req: &mut Vec<u8>) -> TransportResult<bool, u8> {
        Err(TransportError::InvalidMessage)
    }

    fn send_response(&mut self, _resp: &mut Vec<u8>, _secure: bool) -> TransportResult<(), u8> {
        Err(TransportError::NoRequestInFlight)
    }

    fn max_message_size(&self) -> TransportResult<usize, u8> {
        Ok(64)
    }

    fn header_size(&self) -> usize {
        1
    }
}

#[test]
fn attestation_transport_defaults() {
    let mut t = Plain;
    assert_eq!(t.sequence_num_size_bytes(), 0);
    assert_eq!(t.random_data_size_bytes(), 0);
    let mut msg = vec![1u8];
    assert_eq!(
        t.receive_from_buffer(&mut msg, &[2], (1, 0, 0)),
        Err(TransportError::OperationNotSupported)
    );
    assert_eq!(msg, vec![1]);
    assert_eq!(t.rearm_receive(), Err(TransportError::OperationNotSupported));
}

#[test]
fn mailbox_receive_ends_with_the_reply() {
    let mut t = McuMboxTransport::new(5, 8);
    let mut buf = [0u8; 8];
    let m = t.receive_request(&mut buf).unwrap();
    let m = match m.resume(mcu_userspace::syscall::mcu_mbox::ReceiveAnswer::Told) {
        Progress::Pending(m) => m,
        Progress::Done(_) => panic!("ended too early"),
    };
    match m.resume(mcu_userspace::syscall::mcu_mbox::ReceiveAnswer::Kernel(Ok((7, 8, 0)))) {
        Progress::Done(r) => assert_eq!(r, Ok((7, 8))),
        Progress::Pending(_) => panic!("has not ended"),
    }
}

//! The transport of mailbox commands.

use vstd::prelude::*;

use crate::blocking::UpcallNotification;
use crate::bytes;
use crate::bytes::fill_zero;
use crate::error::ErrorCode;
use crate::kernel;
use crate::kernel::{unit_reply, Op, Reply};
use crate::machine::{Machine, Progress};
use crate::syscall::mcu_mbox;
use crate::syscall::mcu_mbox::{CmdCode, MbxCmdStatus, McuMbox, ReceiveCommand, SetupReceive};

verus! {

/// The size of the header of a request: its checksum.
pub const REQ_HEADER_SIZE: usize = 4;

/// Why a request or a response could not be passed on.
#[derive(Copy, Clone, Debug, PartialEq, Eq, Structural)]
pub enum TransportError {
    DriverRxError,
    DriverTxError,
    BufferTooSmall,
    InvalidRequest,
    InvalidResponse,
    ChkSumMismatch,
}

/// The transport over the mailbox driver.
#[derive(Copy, Clone, Debug, PartialEq, Eq)]
pub struct McuMboxTransport {
    pub mbox: McuMbox,
    /// The size of the header of a response. It starts with the checksum.
    pub resp_header_size: usize,
    /// Whether the others know that the mailbox is ready.
    pub ready_signaled: bool,
}

/// Reads the checksum word in front of a message with
/// `zerocopy::FromBytes::ref_from_bytes` at the type `u32`.
///
/// Four bytes at an aligned address are read as the word whose little-endian
/// bytes they are. Any other number of bytes, and an address that is not
/// aligned for a word, give nothing. Where the bytes lie in memory is not part
/// of their value, so that an aligned word is always read is not stated.
#[verifier::external_body]
fn read_checksum_word(bytes: &[u8]) -> (word: Option<u32>)
    ensures
        bytes@.len() != 4 ==> word is None,
        word matches Some(w) ==> w == bytes::le_word(bytes@),
{
    match <u32 as zerocopy::FromBytes>::ref_from_bytes(bytes) {
        Ok(word) => Some(u32::from_le(*word)),
        Err(_) => None,
    }
}

/// Whether `verify` may find that `checksum` fits the command and the payload,
/// or may find that it does not.
pub open spec fn verified<V: Fn(u32, u32, &[u8]) -> bool>(
    verify: V,
    checksum: u32,
    cmd: u32,
    payload: Seq<u8>,
    fits: bool,
) -> bool {
    exists|p: &[u8]| p@ == payload && #[trigger] call_ensures(verify, (checksum, cmd, p), fits)
}

/// Whether `r` is what a message calls for. `word` is the checksum word in
/// front of it, if that could be read; `unread` is the error if not.
pub open spec fn message_outcome<V: Fn(u32, u32, &[u8]) -> bool>(
    r: Result<(), TransportError>,
    message: Seq<u8>,
    cmd: u32,
    word: Option<u32>,
    unread: TransportError,
    verify: V,
) -> bool {
    match word {
        None => r == Err::<(), TransportError>(unread),
        Some(checksum) => match r {
            Ok(_) => verified(verify, checksum, cmd, message.skip(4), true),
            Err(e) => {
                &&& e == TransportError::ChkSumMismatch
                &&& verified(verify, checksum, cmd, message.skip(4), false)
            },
        },
    }
}

/// Checks a message of at least four bytes against its checksum word. Without
/// the word the message fails with `unread`.
pub fn check_message<V: Fn(u32, u32, &[u8]) -> bool>(
    message: &[u8],
    cmd: u32,
    word: Option<u32>,
    unread: TransportError,
    verify: &V,
) -> (r: Result<(), TransportError>)
    requires
        message@.len() >= 4,
        forall|checksum: u32, c: u32, p: &[u8]| call_requires(*verify, (checksum, c, p)),
    ensures
        message_outcome(r, message@, cmd, word, unread, *verify),
{
    match word {
        None => Err(unread),
        Some(checksum) => {
            let payload = vstd::slice::slice_subrange(message, 4, message.len());
            assert(payload@ =~= message@.skip(4));
            if verify(checksum, cmd, payload) {
                Ok(())
            } else {
                Err(TransportError::ChkSumMismatch)
            }
        },
    }
}

/// Whether `word` can be what reading four bytes as a checksum word has given:
/// the read was made of just these bytes.
pub closed spec fn read_gave(front: Seq<u8>, word: Option<u32>) -> bool {
    exists|b: &[u8]| b@ == front && #[trigger] call_ensures(read_checksum_word, (b,), word)
}

/// Whether `word` is what reading the checksum word in front of a message has
/// given. The word that stands there comes of it, or nothing.
pub open spec fn word_read(word: Option<u32>, message: Seq<u8>) -> bool {
    &&& read_gave(message.take(4), word)
    &&& word matches Some(w) ==> w == bytes::le_word(message)
}

/// Calls `read` on some bytes.
fn read_front<F: Fn(&[u8]) -> Option<u32>>(read: F, front: &[u8]) -> (word: Option<u32>)
    requires
        call_requires(read, (front,)),
    ensures
        call_ensures(read, (front,), word),
{
    read(front)
}

/// Reads the checksum word of a message of at least four bytes and checks the
/// message against it.
fn read_and_check<V: Fn(u32, u32, &[u8]) -> bool>(
    message: &[u8],
    cmd: u32,
    unread: TransportError,
    verify: &V,
) -> (r: Result<(), TransportError>)
    requires
        message@.len() >= 4,
        forall|checksum: u32, c: u32, p: &[u8]| call_requires(*verify, (checksum, c, p)),
    ensures
        exists|word: Option<u32>| #[trigger]
            word_read(word, message@) && message_outcome(
                r,
                message@,
                cmd,
                word,
                unread,
                *verify,
            ),
{
    let front = vstd::slice::slice_subrange(message, 0, 4);
    let word = read_front(read_checksum_word, front);
    assert(front@ =~= message@.take(4));
    assert(read_gave(message@.take(4), word));
    assert(word_read(word, message@));
    check_message(message, cmd, word, unread, verify)
}

impl McuMboxTransport {
    /// The header of a response holds at least the checksum.
    pub open spec fn wf(self) -> bool {
        self.resp_header_size >= 4
    }

    /// A transport over a mailbox driver.
    pub fn new(drv_num: u32, resp_header_size: usize) -> (t: McuMboxTransport)
        requires
            resp_header_size >= 4,
        ensures
            t.wf(),
            t.mbox.driver_num == drv_num,
            t.resp_header_size == resp_header_size,
            !t.ready_signaled,
    {
        McuMboxTransport { mbox: McuMbox::new(drv_num), resp_header_size, ready_signaled: false }
    }

    /// Waits for a request. The buffer is cleared; one that cannot hold a
    /// header is refused. The first time, the others are told that the mailbox
    /// is ready as it starts to listen. What is received goes to
    /// `receive_request_done`.
    pub fn receive_request(&mut self, buf: &mut [u8]) -> (r: Result<
        ReceiveCommand,
        TransportError,
    >)
        ensures
            r == if old(buf)@.len() < REQ_HEADER_SIZE {
                Err::<ReceiveCommand, TransportError>(TransportError::BufferTooSmall)
            } else {
                Ok(
                    ReceiveCommand {
                        driver_num: old(self).mbox.driver_num,
                        data_len: old(buf)@.len() as usize,
                        listening: old(self).ready_signaled,
                    },
                )
            },
            *final(self) == old(self).use_spec(Use::Receive { buf_len: old(buf)@.len() }),
            final(buf)@ == if r is Ok {
                bytes::zeros(old(buf)@.len())
            } else {
                old(buf)@
            },
    {
        if buf.len() < REQ_HEADER_SIZE {
            return Err(TransportError::BufferTooSmall);
        }
        fill_zero(buf, 0);
        let signal = !self.ready_signaled;
        self.ready_signaled = true;
        match self.mbox.receive_command(buf.len(), signal) {
            Progress::Pending(receive) => Ok(receive),
            Progress::Done(_) => Err(TransportError::DriverRxError),
        }
    }

    /// Checks the request that was received and returns its command and its
    /// bytes. The checksum covers what follows the header.
    pub fn receive_request_done<'a, V: Fn(u32, u32, &[u8]) -> bool>(
        buf: &'a [u8],
        received: Result<(CmdCode, usize), ErrorCode>,
        verify: &V,
    ) -> (r: Result<(CmdCode, &'a [u8]), TransportError>)
        requires
            received matches Ok((_, req_len)) ==> req_len <= buf@.len(),
            forall|checksum: u32, c: u32, p: &[u8]| call_requires(*verify, (checksum, c, p)),
        ensures
            match received {
                Err(_) => r == Err::<(CmdCode, &'a [u8]), TransportError>(
                    TransportError::DriverRxError,
                ),
                Ok((cmd, req_len)) => {
                    &&& req_len < REQ_HEADER_SIZE ==> r == Err::<
                        (CmdCode, &'a [u8]),
                        TransportError,
                    >(TransportError::InvalidRequest)
                    &&& req_len >= REQ_HEADER_SIZE ==> {
                        &&& exists|word: Option<u32>| #[trigger]
                            word_read(word, buf@.take(req_len as int)) && message_outcome(
                                match r {
                                    Ok(_) => Ok::<(), TransportError>(()),
                                    Err(e) => Err(e),
                                },
                                buf@.take(req_len as int),
                                cmd,
                                word,
                                TransportError::InvalidRequest,
                                *verify,
                            )
                        &&& r matches Ok((c, request)) ==> {
                            &&& c == cmd
                            &&& request@ == buf@.take(req_len as int)
                        }
                    }
                },
            },
    {
        match received {
            Err(_) => Err(TransportError::DriverRxError),
            Ok((cmd, req_len)) => {
                if req_len < REQ_HEADER_SIZE {
                    return Err(TransportError::InvalidRequest);
                }
                let request = vstd::slice::slice_subrange(buf, 0, req_len);
                assert(request@ =~= buf@.take(req_len as int));
                match read_and_check(request, cmd, TransportError::InvalidRequest, verify) {
                    Ok(_) => Ok((cmd, request)),
                    Err(e) => Err(e),
                }
            },
        }
    }

    /// Checks a response and sends it. Its checksum covers what follows the
    /// checksum word, for command 0. What the driver answers goes to
    /// `send_response_done`.
    pub fn send_response<V: Fn(u32, u32, &[u8]) -> bool>(&self, resp: &[u8], verify: &V) -> (r:
        Result<Op, TransportError>)
        requires
            self.wf(),
            forall|checksum: u32, c: u32, p: &[u8]| call_requires(*verify, (checksum, c, p)),
        ensures
            resp@.len() < self.resp_header_size ==> r == Err::<Op, TransportError>(
                TransportError::BufferTooSmall,
            ),
            resp@.len() >= self.resp_header_size ==> exists|word: Option<u32>| #[trigger]
                word_read(word, resp@) && message_outcome(
                    match r {
                        Ok(_) => Ok::<(), TransportError>(()),
                        Err(e) => Err(e),
                    },
                    resp@,
                    0,
                    word,
                    TransportError::InvalidResponse,
                    *verify,
                ),
            r matches Ok(op) ==> op == mcu_mbox::send_request(
                self.mbox.driver_num,
                resp@.len() as usize,
            ),
    {
        if resp.len() < self.resp_header_size {
            return Err(TransportError::BufferTooSmall);
        }
        match read_and_check(resp, 0, TransportError::InvalidResponse, verify) {
            Ok(_) => match self.mbox.send_response(resp.len()) {
                Ok(op) => Ok(op),
                Err(_) => Err(TransportError::DriverTxError),
            },
            Err(e) => Err(e),
        }
    }

    /// Whether the response was sent.
    pub fn send_response_done(reply: Reply) -> (r: Result<(), TransportError>)
        ensures
            r == if reply is Ok {
                Ok::<(), TransportError>(())
            } else {
                Err(TransportError::DriverTxError)
            },
    {
        match unit_reply(reply) {
            Ok(_) => Ok(()),
            Err(_) => Err(TransportError::DriverTxError),
        }
    }

    /// Sets the status of the command in hand. What the driver answers goes to
    /// `finalize_response_done`.
    pub fn finalize_response(&self, status: MbxCmdStatus) -> (op: Op)
        ensures
            op == kernel::unit_command(
                self.mbox.driver_num,
                mcu_mbox::CMD_FINISH_RESP,
                mcu_mbox::status_code(status),
                0,
            ),
    {
        self.mbox.finish_response(status)
    }

    /// Whether the status was set.
    pub fn finalize_response_done(reply: Reply) -> (r: Result<(), TransportError>)
        ensures
            r == if reply is Ok {
                Ok::<(), TransportError>(())
            } else {
                Err(TransportError::DriverTxError)
            },
    {
        match unit_reply(reply) {
            Ok(_) => Ok(()),
            Err(_) => Err(TransportError::DriverTxError),
        }
    }

    /// Starts to listen for requests in a buffer of `buf_len` bytes without
    /// waiting for one. An empty buffer is refused. How the calls of the setup
    /// end goes to `setup_non_blocking_done`.
    pub fn setup_non_blocking(&self, buf_len: usize) -> (r: Result<SetupReceive, TransportError>)
        ensures
            match r {
                Ok(setup) => {
                    &&& buf_len > 0
                    &&& setup.wf()
                    &&& setup == (SetupReceive {
                        call: crate::blocking::BlockingCall::at_start(
                            mcu_mbox::receive_request(self.mbox.driver_num, buf_len),
                        ),
                    })
                },
                Err(e) => buf_len == 0 && e == TransportError::DriverRxError,
            },
    {
        match self.mbox.setup_receive_command(buf_len) {
            Ok(setup) => Ok(setup),
            Err(_) => Err(TransportError::DriverRxError),
        }
    }

    /// Goes on once the setup has ended. The others must be told that the
    /// mailbox is ready if `Ok(true)` is returned, which is so until they have
    /// been; how that went goes to `ready_signal_done`.
    pub fn setup_non_blocking_done(&self, setup: Result<(), ErrorCode>) -> (r: Result<
        bool,
        TransportError,
    >)
        ensures
            r == match setup {
                Ok(_) => Ok::<bool, TransportError>(!self.ready_signaled),
                Err(_) => Err(TransportError::DriverRxError),
            },
    {
        match setup {
            Ok(_) => Ok(!self.ready_signaled),
            Err(_) => Err(TransportError::DriverRxError),
        }
    }

    /// The transport after an attempt to tell the others that the mailbox is
    /// ready.
    pub open spec fn told_spec(self, told: Result<(), ErrorCode>) -> McuMboxTransport {
        McuMboxTransport { ready_signaled: self.ready_signaled || told is Ok, ..self }
    }

    /// Notes whether the others could be told that the mailbox is ready.
    pub fn ready_signal_done(&mut self, told: Result<(), ErrorCode>) -> (r: Result<
        (),
        TransportError,
    >)
        ensures
            r == match told {
                Ok(_) => Ok::<(), TransportError>(()),
                Err(_) => Err(TransportError::DriverRxError),
            },
            *final(self) == old(self).told_spec(told),
    {
        match told {
            Ok(_) => {
                self.ready_signaled = true;
                Ok(())
            },
            Err(_) => Err(TransportError::DriverRxError),
        }
    }

    /// Checks a request that has arrived in the shared buffer and returns its
    /// command and its length. The first upcall argument is the command, the
    /// second the length. Without an upcall there is no request.
    pub fn try_receive_request<V: Fn(u32, u32, &[u8]) -> bool>(
        &self,
        nb_buf: &[u8],
        notify: &UpcallNotification,
        verify: &V,
    ) -> (r: Result<Option<(CmdCode, usize)>, TransportError>)
        requires
            notify.result matches Some(args) ==> args.1 <= nb_buf@.len(),
            forall|checksum: u32, c: u32, p: &[u8]| call_requires(*verify, (checksum, c, p)),
        ensures
            match notify.result {
                None => r == Ok::<Option<(CmdCode, usize)>, TransportError>(None),
                Some(args) => {
                    &&& args.1 < REQ_HEADER_SIZE ==> r == Err::<
                        Option<(CmdCode, usize)>,
                        TransportError,
                    >(TransportError::InvalidRequest)
                    &&& args.1 >= REQ_HEADER_SIZE ==> exists|word: Option<u32>| #[trigger]
                        word_read(word, nb_buf@.take(args.1 as int)) && message_outcome(
                            match r {
                                Ok(_) => Ok::<(), TransportError>(()),
                                Err(e) => Err(e),
                            },
                            nb_buf@.take(args.1 as int),
                            args.0,
                            word,
                            TransportError::InvalidRequest,
                            *verify,
                        )
                    &&& r matches Ok(found) ==> found == Some((args.0, args.1 as usize))
                },
            },
    {
        if !notify.is_ready() {
            return Ok(None);
        }
        let (cmd_opcode, recv_len_raw, _) = notify.args();
        let recv_len: usize = recv_len_raw as usize;
        match Self::receive_request_done(nb_buf, Ok((cmd_opcode, recv_len)), verify) {
            Ok(_) => Ok(Some((cmd_opcode, recv_len))),
            Err(e) => Err(e),
        }
    }

    /// Listens for the next request. Whether the driver could be asked to does
    /// not matter.
    pub fn rearm(&self, notify: &mut UpcallNotification) -> (op: Op)
        ensures
            final(notify).result is None,
            op == kernel::unit_command(
                self.mbox.driver_num,
                mcu_mbox::CMD_RECEIVE_REQUEST,
                0,
                0,
            ),
    {
        notify.clear();
        self.mbox.arm_receive_command()
    }
}

/// A use of the transport that may tell the others that the mailbox is ready.
pub enum Use {
    /// A request is waited for in a buffer of that many bytes. The others can
    /// be told, or the use does not come to an end.
    Receive { buf_len: nat },
    /// A setup has ended. `told` is how telling the others goes, if they are
    /// told.
    Setup { setup: Result<(), ErrorCode>, told: Result<(), ErrorCode> },
}

impl McuMboxTransport {
    /// Whether a use gets as far as the mailbox listening.
    pub open spec fn listens(u: Use) -> bool {
        match u {
            Use::Receive { buf_len } => buf_len >= REQ_HEADER_SIZE,
            Use::Setup { setup, .. } => setup is Ok,
        }
    }

    /// Whether the others know that the mailbox is ready after a use in which
    /// they were told.
    pub open spec fn telling_succeeds(u: Use) -> bool {
        match u {
            Use::Receive { .. } => true,
            Use::Setup { told, .. } => told is Ok,
        }
    }

    /// Whether the others are told in a use: it listens, and they have not
    /// been told yet.
    pub open spec fn signals(self, u: Use) -> bool {
        Self::listens(u) && !self.ready_signaled
    }

    /// The transport after a use.
    pub open spec fn use_spec(self, u: Use) -> McuMboxTransport {
        if self.signals(u) {
            match u {
                Use::Receive { .. } => McuMboxTransport { ready_signaled: true, ..self },
                Use::Setup { told, .. } => self.told_spec(told),
            }
        } else {
            self
        }
    }

    /// The transport after several uses.
    pub open spec fn after_uses(self, uses: Seq<Use>) -> McuMboxTransport
        decreases uses.len(),
    {
        if uses.len() == 0 {
            self
        } else {
            self.after_uses(uses.drop_last()).use_spec(uses.last())
        }
    }

    /// Whether one of several uses listens and can tell the others.
    pub open spec fn has_told(uses: Seq<Use>) -> bool {
        exists|i: int|
            0 <= i < uses.len() && Self::listens(#[trigger] uses[i]) && Self::telling_succeeds(
                uses[i],
            )
    }
}

/// However the transport has been used, the next use in which the mailbox gets
/// to listen tells the others that it is ready, until that has succeeded once;
/// after that no use ever does. Nothing else of the transport changes.
pub proof fn law_ready_signaled_until_told(t: McuMboxTransport, uses: Seq<Use>, next: Use)
    ensures
        t.after_uses(uses) == (McuMboxTransport {
            ready_signaled: t.ready_signaled || McuMboxTransport::has_told(uses),
            ..t
        }),
        t.after_uses(uses).signals(next) <==> McuMboxTransport::listens(next)
            && !t.ready_signaled && !McuMboxTransport::has_told(uses),
    decreases uses.len(),
{
    if uses.len() > 0 {
        let before = uses.drop_last();
        let last = uses.last();
        law_ready_signaled_until_told(t, before, last);
        assert(last == uses[uses.len() - 1]);
        if McuMboxTransport::has_told(before) {
            let i = choose|i: int|
                0 <= i < before.len() && McuMboxTransport::listens(#[trigger] before[i])
                    && McuMboxTransport::telling_succeeds(before[i]);
            assert(uses[i] == before[i]);
        }
        if McuMboxTransport::has_told(uses) {
            let i = choose|i: int|
                0 <= i < uses.len() && McuMboxTransport::listens(#[trigger] uses[i])
                    && McuMboxTransport::telling_succeeds(uses[i]);
            if i < before.len() {
                assert(before[i] == uses[i]);
            }
        }
    }
}

/// A message whose checksum word could not be read fails with the error for
/// that. Otherwise it passes or fails as the word is found to fit the command
/// and what follows the word, all of it and nothing else.
pub proof fn law_messages_are_checked<V: Fn(u32, u32, &[u8]) -> bool>(
    r: Result<(), TransportError>,
    message: Seq<u8>,
    cmd: u32,
    word: Option<u32>,
    unread: TransportError,
    verify: V,
)
    ensures
        word is None ==> (message_outcome(r, message, cmd, word, unread, verify) <==> r is Err
            && r->Err_0 == unread),
        word is Some && r is Ok ==> (message_outcome(r, message, cmd, word, unread, verify)
            <==> exists|p: &[u8]|
            p@ == message.subrange(4, message.len() as int) && #[trigger] call_ensures(
                verify,
                (word->0, cmd, p),
                true,
            )),
        word is Some && r is Err ==> (message_outcome(r, message, cmd, word, unread, verify)
            <==> r->Err_0 == TransportError::ChkSumMismatch && exists|p: &[u8]|
            p@ == message.subrange(4, message.len() as int) && #[trigger] call_ensures(
                verify,
                (word->0, cmd, p),
                false,
            )),
{
    assert(message.skip(4) == message.subrange(4, message.len() as int));
}

/// The checksum word is read from the first four bytes of a message, the first
/// of which weighs least.
pub proof fn law_checksum_word(word: Option<u32>, message: Seq<u8>)
    requires
        word_read(word, message),
    ensures
        read_gave(message.subrange(0, 4), word),
        word is Some ==> word->0 == message[0] + 256 * (message[1] + 256 * (message[2] + 256
            * message[3])),
{
    bytes::law_first_byte_weighs_least(message, 0);
    assert(message.take(4) == message.subrange(0, 4));
}

/// A word was given by a read that was made.
proof fn lemma_read_is_made(front: Seq<u8>, word: Option<u32>)
    requires
        read_gave(front, word),
    ensures
        exists|b: &[u8]| b@ == front && #[trigger] call_ensures(read_checksum_word, (b,), word),
        front.len() != 4 ==> word is None,
{
}

/// A use in which the mailbox gets to listen tells the others that it is ready,
/// unless they know; after it they know if they did or could be told. A buffer
/// of less than four bytes and a failed setup do not get that far, and change
/// nothing.
pub proof fn law_uses(
    t: McuMboxTransport,
    buf_len: nat,
    setup: Result<(), ErrorCode>,
    told: Result<(), ErrorCode>,
)
    ensures
        ({
            let u = Use::Receive { buf_len };
            let after = t.use_spec(u);
            &&& t.signals(u) <==> buf_len >= 4 && !t.ready_signaled
            &&& after.ready_signaled <==> t.ready_signaled || buf_len >= 4
            &&& after.mbox == t.mbox && after.resp_header_size == t.resp_header_size
        }),
        ({
            let u = Use::Setup { setup, told };
            let after = t.use_spec(u);
            &&& t.signals(u) <==> setup is Ok && !t.ready_signaled
            &&& after.ready_signaled <==> t.ready_signaled || setup is Ok && told is Ok
            &&& after.mbox == t.mbox && after.resp_header_size == t.resp_header_size
        }),
        ({
            let after = t.told_spec(told);
            &&& after.ready_signaled <==> t.ready_signaled || told is Ok
            &&& after.mbox == t.mbox && after.resp_header_size == t.resp_header_size
        }),
        t.wf() <==> t.resp_header_size >= 4,
        REQ_HEADER_SIZE == 4,
{
}

} // verus!

//! The mailbox of the root of trust.

use vstd::prelude::*;

use crate::bytes;
use crate::bytes::put_le_word;
use crate::blocking::{
    subscribe_allow_ro_and_wait, subscribe_allow_ro_rw_and_wait, subscribe_allow_rw_and_wait,
};
use crate::error::ErrorCode;
use crate::kernel;
use crate::kernel::{BlockingRequest, Command, Expect, Op, Region, Reply, Share};
use crate::machine;
use crate::machine::{Machine, Progress};

verus! {

/// Driver number of the mailbox.
pub const MAILBOX_DRIVER_NUM: u32 = 0x8000_0009;

/// Executes a command with input and response buffers.
pub const CMD_EXECUTE_COMMAND: u32 = 1;

/// Starts a request that is sent in chunks.
pub const CMD_START_CHUNKED_REQUEST: u32 = 2;

/// Sends the next chunk of a request.
pub const CMD_NEXT_PAYLOAD_CHUNK: u32 = 3;

/// Executes a request that was sent in chunks.
pub const CMD_EXECUTE_CHUNKED_REQUEST: u32 = 4;

/// Read-only buffer with the input.
pub const RO_BUFFER_INPUT: u32 = 0;

/// Read-write buffer that receives the response.
pub const RW_BUFFER_RESPONSE: u32 = 0;

/// Command done callback.
pub const SUBSCRIBE_COMMAND_DONE: u32 = 0;

/// The most bytes that one chunk of a request can hold.
pub const PAYLOAD_CHUNK_SIZE: usize = 256;

/// The size of the checksum that a request starts with.
pub const REQ_HEADER_SIZE: usize = 4;

/// Why a mailbox command failed.
#[derive(Copy, Clone, PartialEq, Eq, Structural)]
pub enum MailboxError {
    /// The kernel refused it.
    ErrorCode(ErrorCode),
    /// The mailbox executed it and reported an error.
    MailboxError(u32),
}

impl MailboxError {
    /// The text that stands for the error in messages.
    pub fn debug_text(&self) -> (text: &'static str)
        ensures
            text@ == "MailboxError"@,
    {
        "MailboxError"
    }
}

/// A payload that is read piece by piece.
pub trait PayloadStream {
    /// The size of the payload in bytes.
    fn size(&self) -> (size: usize);

    /// Reads the next bytes into `buffer` and returns how many; none at the
    /// end.
    fn read(&mut self, buffer: &mut [u8]) -> (r: Result<usize, ErrorCode>);
}

/// The mailbox driver.
#[derive(Copy, Clone, Debug, PartialEq, Eq, Structural)]
pub struct Mailbox {
    pub driver_num: u32,
}

/// Whether `r` and `after` are what comes of putting the checksum in front of
/// the request `before`: one that has no room for it is refused and stays as it
/// is; in any other the first four bytes become the checksum that `calc` gives
/// for the command and the request as it was.
pub open spec fn checksum_put<C: Fn(u32, &[u8]) -> u32>(
    r: Result<(), ErrorCode>,
    cmd: u32,
    before: Seq<u8>,
    after: Seq<u8>,
    calc: C,
) -> bool {
    if before.len() < REQ_HEADER_SIZE {
        &&& r == Err::<(), ErrorCode>(ErrorCode::Invalid)
        &&& after == before
    } else {
        &&& r is Ok
        &&& exists|d: &[u8], sum: u32|
            {
                &&& d@ == before
                &&& #[trigger] call_ensures(calc, (cmd, d), sum)
                &&& after == bytes::le_bytes(sum) + before.skip(REQ_HEADER_SIZE as int)
            }
    }
}

/// Writes the checksum of a request over its first four bytes. `calc` computes
/// it from the command and the request as it stands.
pub fn populate_checksum<C: Fn(u32, &[u8]) -> u32>(cmd: u32, data: &mut [u8], calc: &C) -> (r:
    Result<(), ErrorCode>)
    requires
        forall|d: &[u8]| call_requires(*calc, (cmd, d)),
    ensures
        checksum_put(r, cmd, old(data)@, final(data)@, *calc),
{
    let checksum: u32 = calc(cmd, &*data);
    if data.len() < REQ_HEADER_SIZE {
        return Err(ErrorCode::Invalid);
    }
    put_le_word(data, checksum);
    Ok(())
}

/// A reply to an executed command: the number of response bytes, unless the
/// second word is an error of the mailbox.
pub open spec fn executed(reply: Reply) -> Result<usize, MailboxError> {
    match reply {
        Err(e) => Err(MailboxError::ErrorCode(e)),
        Ok(args) => if args.1 != 0 {
            Err(MailboxError::MailboxError(args.1))
        } else {
            Ok(args.0 as usize)
        },
    }
}

impl Default for Mailbox {
    fn default() -> (mailbox: Mailbox)
        ensures
            mailbox.driver_num == MAILBOX_DRIVER_NUM,
    {
        Mailbox::new()
    }
}

impl Mailbox {
    /// The mailbox behind its driver number.
    pub fn new() -> (mailbox: Mailbox)
        ensures
            mailbox.driver_num == MAILBOX_DRIVER_NUM,
    {
        Mailbox { driver_num: MAILBOX_DRIVER_NUM }
    }

    /// Writes the checksum of a request over its first four bytes.
    pub fn populate_checksum<C: Fn(u32, &[u8]) -> u32>(
        &self,
        cmd: u32,
        data: &mut [u8],
        calc: &C,
    ) -> (r: Result<(), ErrorCode>)
        requires
            forall|d: &[u8]| call_requires(*calc, (cmd, d)),
        ensures
            checksum_put(r, cmd, old(data)@, final(data)@, *calc),
    {
        populate_checksum(cmd, data, calc)
    }

    /// Executes a command: shares the whole input and the whole response
    /// buffer. The reply is read by `execute_reply`.
    pub fn execute(&self, command: u32, input_len: usize, response_len: usize) -> (op: Op)
        ensures
            op == Op::Blocking(
                BlockingRequest {
                    driver_num: self.driver_num,
                    subscribe_num: SUBSCRIBE_COMMAND_DONE,
                    ro: Some(
                        Share {
                            buffer_num: RO_BUFFER_INPUT,
                            region: Region { start: 0, len: input_len },
                        },
                    ),
                    rw: Some(
                        Share {
                            buffer_num: RW_BUFFER_RESPONSE,
                            region: Region { start: 0, len: response_len },
                        },
                    ),
                    cmd: CMD_EXECUTE_COMMAND,
                    arg1: command,
                    arg2: 0,
                },
            ),
    {
        Op::Blocking(
            subscribe_allow_ro_rw_and_wait(
                self.driver_num,
                SUBSCRIBE_COMMAND_DONE,
                RO_BUFFER_INPUT,
                Region { start: 0, len: input_len },
                RW_BUFFER_RESPONSE,
                Region { start: 0, len: response_len },
                CMD_EXECUTE_COMMAND,
                command,
                0,
            ),
        )
    }

    /// The number of response bytes that an executed command wrote, or why it
    /// failed.
    pub fn execute_reply(reply: Reply) -> (r: Result<usize, MailboxError>)
        ensures
            r == executed(reply),
    {
        match reply {
            Err(e) => Err(MailboxError::ErrorCode(e)),
            Ok(args) => if args.1 != 0 {
                Err(MailboxError::MailboxError(args.1))
            } else {
                Ok(args.0 as usize)
            },
        }
    }

    /// Executes a command whose request is an optional header and a payload of
    /// `payload_size` bytes, sent in chunks.
    pub fn execute_with_payload_stream(
        &self,
        command: u32,
        header: Option<&[u8]>,
        payload_size: usize,
        response_len: usize,
    ) -> (call: StreamCall)
        requires
            header matches Some(h) ==> {
                &&& h@.len() <= PAYLOAD_CHUNK_SIZE
                &&& payload_size + h@.len() <= usize::MAX
            },
        ensures
            call.wf(),
            call.driver_num == self.driver_num,
            call.command == command,
            call.request_len == payload_size + header_bytes(header).len(),
            call.header_len == match header {
                Some(h) => Some(h@.len() as usize),
                None => None::<usize>,
            },
            call.response_len == response_len,
            call.phase == StreamPhase::Start,
            call.buffer@ == header_bytes(header) + bytes::zeros(
                (PAYLOAD_CHUNK_SIZE - header_bytes(header).len()) as nat,
            ),
    {
        let mut buffer: [u8; 256] = [0u8; 256];
        let mut request_len: usize = payload_size;
        let mut header_len: Option<usize> = None;
        if let Some(h) = header {
            let n: usize = h.len();
            request_len = payload_size + n;
            header_len = Some(n);
            let mut i: usize = 0;
            while i < n
                invariant
                    i <= n,
                    n == h@.len() <= PAYLOAD_CHUNK_SIZE,
                    forall|k: int| 0 <= k < i ==> buffer@[k] == h@[k],
                    forall|k: int| i <= k < PAYLOAD_CHUNK_SIZE ==> buffer@[k] == 0,
                decreases n - i,
            {
                buffer[i] = h[i];
                i = i + 1;
            }
        }
        assert(buffer@ =~= header_bytes(header) + bytes::zeros(
            (PAYLOAD_CHUNK_SIZE - header_bytes(header).len()) as nat,
        ));
        StreamCall {
            driver_num: self.driver_num,
            command,
            request_len,
            header_len,
            response_len,
            buffer,
            phase: StreamPhase::Start,
        }
    }

    /// Sends the first `len` bytes of the chunk buffer.
    fn send_chunk(&self, len: usize) -> (op: Op)
        ensures
            op == Op::Blocking(chunk_request(self.driver_num, len)),
    {
        Op::Blocking(
            subscribe_allow_ro_and_wait(
                self.driver_num,
                SUBSCRIBE_COMMAND_DONE,
                RO_BUFFER_INPUT,
                Region { start: 0, len },
                CMD_NEXT_PAYLOAD_CHUNK,
                0,
                0,
            ),
        )
    }
}

/// The bytes of the header, or none.
pub open spec fn header_bytes(header: Option<&[u8]>) -> Seq<u8> {
    match header {
        Some(h) => h@,
        None => Seq::empty(),
    }
}

/// The request that sends the first `len` bytes of the chunk buffer.
pub open spec fn chunk_request(driver_num: u32, len: usize) -> BlockingRequest {
    BlockingRequest {
        driver_num,
        subscribe_num: SUBSCRIBE_COMMAND_DONE,
        ro: Some(Share { buffer_num: RO_BUFFER_INPUT, region: Region { start: 0, len } }),
        rw: None,
        cmd: CMD_NEXT_PAYLOAD_CHUNK,
        arg1: 0,
        arg2: 0,
    }
}

/// The step that is due in a [`StreamCall`].
#[derive(Copy, Clone, Debug, PartialEq, Eq, Structural)]
pub enum StreamPhase {
    /// Announce the request.
    Start,
    /// Send the header.
    Header,
    /// Read the next piece of the payload.
    Read,
    /// Send the piece, of so many bytes.
    Chunk(usize),
    /// Execute the request.
    Execute,
}

/// What a [`StreamCall`] asks for.
#[derive(Copy, Clone, Debug, PartialEq, Eq)]
pub enum StreamAsk {
    /// A request to the kernel. A read-only region lies in the chunk buffer, a
    /// read-write region in the response buffer.
    Kernel(Op),
    /// Read the payload into the chunk buffer.
    ReadPayload,
}

/// What a [`StreamCall`] is answered.
pub enum StreamAnswer {
    /// The reply of the kernel.
    Kernel(Reply),
    /// What reading the payload returned, and the chunk buffer after it.
    Payload(Result<usize, ErrorCode>, [u8; 256]),
}

/// A request that is sent in chunks, under way.
pub struct StreamCall {
    pub driver_num: u32,
    pub command: u32,
    /// The length announced for the whole request.
    pub request_len: usize,
    pub header_len: Option<usize>,
    pub response_len: usize,
    /// The chunk buffer.
    pub buffer: [u8; 256],
    pub phase: StreamPhase,
}

impl StreamCall {
    /// The same call in another phase.
    pub open spec fn at(self, phase: StreamPhase) -> Progress<
        StreamCall,
        Result<usize, MailboxError>,
    > {
        Progress::Pending(StreamCall { phase, ..self })
    }
}

impl Machine for StreamCall {
    type Ask = StreamAsk;

    type Answer = StreamAnswer;

    type Out = Result<usize, MailboxError>;

    open spec fn wf(self) -> bool {
        &&& self.phase == StreamPhase::Header ==> self.header_len is Some
        &&& self.header_len matches Some(n) ==> n <= PAYLOAD_CHUNK_SIZE
        &&& self.phase matches StreamPhase::Chunk(n) ==> 0 < n <= PAYLOAD_CHUNK_SIZE
    }

    open spec fn question(self) -> StreamAsk {
        match self.phase {
            StreamPhase::Start => StreamAsk::Kernel(
                kernel::unit_command(
                    self.driver_num,
                    CMD_START_CHUNKED_REQUEST,
                    self.command,
                    self.request_len as u32,
                ),
            ),
            StreamPhase::Header => StreamAsk::Kernel(
                Op::Blocking(chunk_request(self.driver_num, self.header_len->0)),
            ),
            StreamPhase::Read => StreamAsk::ReadPayload,
            StreamPhase::Chunk(n) => StreamAsk::Kernel(
                Op::Blocking(chunk_request(self.driver_num, n)),
            ),
            StreamPhase::Execute => StreamAsk::Kernel(
                Op::Blocking(
                    BlockingRequest {
                        driver_num: self.driver_num,
                        subscribe_num: SUBSCRIBE_COMMAND_DONE,
                        ro: None,
                        rw: Some(
                            Share {
                                buffer_num: RW_BUFFER_RESPONSE,
                                region: Region { start: 0, len: self.response_len },
                            },
                        ),
                        cmd: CMD_EXECUTE_CHUNKED_REQUEST,
                        arg1: self.command,
                        arg2: 0,
                    },
                ),
            ),
        }
    }

    open spec fn accepts(self, answer: StreamAnswer) -> bool {
        match answer {
            StreamAnswer::Kernel(_) => self.phase != StreamPhase::Read,
            StreamAnswer::Payload(read, _) => {
                &&& self.phase == StreamPhase::Read
                &&& read matches Ok(n) ==> n <= PAYLOAD_CHUNK_SIZE
            },
        }
    }

    open spec fn after(self, answer: StreamAnswer) -> Progress<
        StreamCall,
        Result<usize, MailboxError>,
    > {
        match answer {
            StreamAnswer::Payload(Err(e), _) => Progress::Done(Err(MailboxError::ErrorCode(e))),
            StreamAnswer::Payload(Ok(n), buffer) => StreamCall { buffer, ..self }.at(
                if n == 0 {
                    StreamPhase::Execute
                } else {
                    StreamPhase::Chunk(n)
                },
            ),
            StreamAnswer::Kernel(reply) => if self.phase == StreamPhase::Execute {
                Progress::Done(executed(reply))
            } else {
                match reply {
                    Err(e) => Progress::Done(Err(MailboxError::ErrorCode(e))),
                    Ok(_) => self.at(
                        if self.phase == StreamPhase::Start && self.header_len is Some {
                            StreamPhase::Header
                        } else {
                            StreamPhase::Read
                        },
                    ),
                }
            },
        }
    }

    proof fn after_is_wf(self, answer: StreamAnswer) {
    }

    fn ask(&self) -> (asked: StreamAsk) {
        let mailbox = Mailbox { driver_num: self.driver_num };
        match self.phase {
            StreamPhase::Start => StreamAsk::Kernel(
                Op::Command {
                    command: Command {
                        driver_num: self.driver_num,
                        command_num: CMD_START_CHUNKED_REQUEST,
                        arg0: self.command,
                        arg1: self.request_len as u32,
                    },
                    expect: Expect::Unit,
                },
            ),
            StreamPhase::Header => StreamAsk::Kernel(mailbox.send_chunk(self.header_len.unwrap())),
            StreamPhase::Read => StreamAsk::ReadPayload,
            StreamPhase::Chunk(n) => StreamAsk::Kernel(mailbox.send_chunk(n)),
            StreamPhase::Execute => StreamAsk::Kernel(
                Op::Blocking(
                    subscribe_allow_rw_and_wait(
                        self.driver_num,
                        SUBSCRIBE_COMMAND_DONE,
                        RW_BUFFER_RESPONSE,
                        Region { start: 0, len: self.response_len },
                        CMD_EXECUTE_CHUNKED_REQUEST,
                        self.command,
                        0,
                    ),
                ),
            ),
        }
    }

    fn resume(self, answer: StreamAnswer) -> (next: Progress<
        StreamCall,
        Result<usize, MailboxError>,
    >) {
        let mut next = self;
        match answer {
            StreamAnswer::Payload(read, buffer) => {
                match read {
                    Err(e) => return Progress::Done(Err(MailboxError::ErrorCode(e))),
                    Ok(n) => {
                        next.phase = if n == 0 {
                            StreamPhase::Execute
                        } else {
                            StreamPhase::Chunk(n)
                        };
                    },
                }
                next.buffer = buffer;
            },
            StreamAnswer::Kernel(reply) => {
                match next.phase {
                    StreamPhase::Execute => return Progress::Done(Mailbox::execute_reply(reply)),
                    StreamPhase::Start if next.header_len.is_some() => {
                        next.phase = StreamPhase::Header;
                    },
                    _ => {
                        next.phase = StreamPhase::Read;
                    },
                }
                if let Err(e) = reply {
                    return Progress::Done(Err(MailboxError::ErrorCode(e)));
                }
            },
        }
        Progress::Pending(next)
    }
}

/// The bytes that a question sends to the mailbox, if it is answered well.
pub open spec fn sent_by(call: StreamCall, answer: StreamAnswer) -> Seq<u8> {
    match (call.question(), answer) {
        (StreamAsk::Kernel(Op::Blocking(request)), StreamAnswer::Kernel(Ok(_))) => if request.cmd
            == CMD_NEXT_PAYLOAD_CHUNK && request.ro is Some {
            let region = request.ro->0.region;
            call.buffer@.subrange(region.start as int, region.start + region.len)
        } else {
            Seq::empty()
        },
        _ => Seq::empty(),
    }
}

/// All the bytes that a run has sent to the mailbox.
pub open spec fn sent(call: StreamCall, answers: Seq<StreamAnswer>) -> Seq<u8>
    decreases answers.len(),
{
    if answers.len() == 0 {
        Seq::empty()
    } else {
        let before = sent(call, answers.drop_last());
        match machine::run(Progress::Pending(call), answers.drop_last()) {
            Progress::Pending(m) => before + sent_by(m, answers.last()),
            Progress::Done(_) => before,
        }
    }
}

/// All the bytes that the payload has given.
pub open spec fn payload_read(answers: Seq<StreamAnswer>) -> Seq<u8>
    decreases answers.len(),
{
    if answers.len() == 0 {
        Seq::empty()
    } else {
        let before = payload_read(answers.drop_last());
        match answers.last() {
            StreamAnswer::Payload(Ok(n), buffer) => before + buffer@.take(n as int),
            _ => before,
        }
    }
}

proof fn lemma_stream_run(call: StreamCall, header: Seq<u8>, answers: Seq<StreamAnswer>)
    requires
        call.wf(),
        call.phase == StreamPhase::Start,
        call.header_len is Some ==> call.buffer@.take(call.header_len->0 as int) == header,
        call.header_len is None ==> header.len() == 0,
        machine::answered(Progress::Pending(call), answers),
    ensures
        ({
            let request = header + payload_read(answers);
            let done = sent(call, answers);
            match machine::run(Progress::Pending(call), answers) {
                Progress::Pending(m) => {
                    &&& m.wf()
                    &&& m.driver_num == call.driver_num && m.command == call.command
                    &&& m.header_len == call.header_len
                    &&& match m.phase {
                        StreamPhase::Start | StreamPhase::Header => {
                            &&& done.len() == 0
                            &&& payload_read(answers).len() == 0
                            &&& m.buffer == call.buffer
                        },
                        StreamPhase::Read => done == request,
                        StreamPhase::Chunk(n) => done + m.buffer@.take(n as int) == request,
                        StreamPhase::Execute => {
                            &&& done == request
                            &&& answers.last() matches StreamAnswer::Payload(Ok(0), _)
                        },
                    }
                },
                Progress::Done(Ok(_)) => {
                    &&& done == request
                    &&& answers.len() >= 2
                    &&& answers[answers.len() - 2] matches StreamAnswer::Payload(Ok(0), _)
                },
                Progress::Done(Err(_)) => done.is_prefix_of(request),
            }
        }),
    decreases answers.len(),
{
    if answers.len() > 0 {
        let before = answers.drop_last();
        lemma_stream_run(call, header, before);
        if let Progress::Pending(m) = machine::run(Progress::Pending(call), before) {
            m.after_is_wf(answers.last());
            let request = header + payload_read(answers);
            match answers.last() {
                StreamAnswer::Payload(Ok(n), buffer) => {
                    assert(request =~= header + payload_read(before) + buffer@.take(n as int));
                    if n == 0 {
                        assert(buffer@.take(0) =~= Seq::<u8>::empty());
                        assert(request =~= header + payload_read(before));
                    }
                    assert(sent(call, answers) =~= sent(call, before));
                },
                StreamAnswer::Payload(Err(_), _) => {
                    assert(sent(call, answers) =~= sent(call, before));
                },
                StreamAnswer::Kernel(reply) => {
                    assert(payload_read(answers) == payload_read(before));
                    if reply is Ok && m.phase == StreamPhase::Header {
                        assert(sent_by(m, answers.last()) =~= header);
                        assert(sent(call, answers) =~= header);
                        assert(request =~= header);
                    } else if reply is Ok && m.phase is Chunk {
                        let n = m.phase->Chunk_0;
                        assert(sent_by(m, answers.last()) =~= m.buffer@.take(n as int));
                    } else {
                        assert(sent(call, answers) =~= sent(call, before));
                        if m.phase == StreamPhase::Start {
                            assert(request =~= header);
                        }
                    }
                },
            }
        }
    } else {
        assert(header + payload_read(answers) =~= header);
    }
}

/// A streamed command is executed only once the payload has said that it is at
/// its end, and what was sent before is the header followed by all bytes that
/// the payload gave. A command that fails has sent a first part of them.
pub proof fn law_stream_sends_request(
    call: StreamCall,
    header: Seq<u8>,
    answers: Seq<StreamAnswer>,
)
    requires
        call.wf(),
        call.phase == StreamPhase::Start,
        call.header_len is Some ==> call.buffer@.take(call.header_len->0 as int) == header,
        call.header_len is None ==> header.len() == 0,
        machine::answered(Progress::Pending(call), answers),
    ensures
        sent(call, answers).is_prefix_of(header + payload_read(answers)),
        match machine::run(Progress::Pending(call), answers) {
            Progress::Pending(m) => m.phase == StreamPhase::Execute ==> sent(call, answers)
                == header + payload_read(answers),
            Progress::Done(Ok(_)) => sent(call, answers) == header + payload_read(answers),
            _ => true,
        },
{
    lemma_stream_run(call, header, answers);
    let request = header + payload_read(answers);
    match machine::run(Progress::Pending(call), answers) {
        Progress::Pending(m) => {
            if let StreamPhase::Chunk(n) = m.phase {
                assert(request == sent(call, answers) + m.buffer@.take(n as int));
            }
        },
        _ => {},
    }
}

/// The length that a streamed command announces is the number of bytes that it
/// sends, if the payload gives as many bytes as its size says.
pub proof fn law_stream_announces_length(
    call: StreamCall,
    header: Seq<u8>,
    payload_size: usize,
    answers: Seq<StreamAnswer>,
)
    requires
        call.wf(),
        call.phase == StreamPhase::Start,
        call.header_len is Some ==> call.buffer@.take(call.header_len->0 as int) == header,
        call.header_len is None ==> header.len() == 0,
        call.request_len == payload_size + header.len(),
        call.request_len <= u32::MAX,
        machine::answered(Progress::Pending(call), answers),
        machine::run(Progress::Pending(call), answers) matches Progress::Done(Ok(_)),
        payload_read(answers).len() == payload_size,
    ensures
        call.question() == StreamAsk::Kernel(
            kernel::unit_command(
                call.driver_num,
                CMD_START_CHUNKED_REQUEST,
                call.command,
                sent(call, answers).len() as u32,
            ),
        ),
{
    law_stream_sends_request(call, header, answers);
}

/// A command fails exactly if the kernel refuses it or the mailbox reports an
/// error that is not zero, however long the response is; the error is passed
/// on as it is. Otherwise the result is the number of response bytes.
pub proof fn law_execute_reply(reply: Reply)
    ensures
        match reply {
            Err(e) => executed(reply) is Err && executed(reply)->Err_0 == MailboxError::ErrorCode(e),
            Ok((bytes, error, _)) => {
                &&& executed(reply) is Err <==> error != 0
                &&& executed(reply) is Err ==> executed(reply)->Err_0
                    == MailboxError::MailboxError(error)
                &&& executed(reply) is Ok ==> executed(reply)->Ok_0 == bytes
            },
        },
{
}

/// Where a streamed command stands after some answers.
proof fn lemma_stream_steps(call: StreamCall, answers: Seq<StreamAnswer>)
    requires
        call.wf(),
        call.phase == StreamPhase::Start,
        machine::answered(Progress::Pending(call), answers),
    ensures
        ({
            let n = answers.len() as int;
            let h: int = if call.header_len is Some { 1 } else { 0 };
            machine::run(Progress::Pending(call), answers) matches Progress::Pending(m) ==> {
                &&& m.wf()
                &&& m.driver_num == call.driver_num && m.command == call.command
                &&& m.request_len == call.request_len && m.response_len == call.response_len
                &&& m.header_len == call.header_len
                &&& n == 0 ==> m.phase == StreamPhase::Start
                &&& n == 1 && h == 1 ==> m.phase == StreamPhase::Header
                &&& n > h && (n - h) % 2 == 1 ==> m.phase == StreamPhase::Read
                &&& n > h && (n - h) % 2 == 0 ==> {
                    &&& answers[n - 1] matches StreamAnswer::Payload(Ok(k), _)
                    &&& m.phase == if k == 0 {
                        StreamPhase::Execute
                    } else {
                        StreamPhase::Chunk(k)
                    }
                }
            }
        }),
    decreases answers.len(),
{
    if answers.len() > 0 {
        lemma_stream_steps(call, answers.drop_last());
        if let Progress::Pending(m) = machine::run(Progress::Pending(call), answers.drop_last()) {
            m.after_is_wf(answers.last());
        }
    }
}

/// What a streamed command does in which order. It announces the command and
/// the length of the request; it sends the header, if there is one; and then it
/// reads the payload and sends the piece that was read, by turns, until a read
/// gives nothing. Then it executes the command, for a response that may fill
/// the whole response buffer.
pub proof fn law_stream_order(call: StreamCall, answers: Seq<StreamAnswer>, i: int)
    requires
        call.wf(),
        call.phase == StreamPhase::Start,
        machine::answered(Progress::Pending(call), answers),
        0 <= i < answers.len(),
    ensures
        ({
            let h: int = if call.header_len is Some { 1 } else { 0 };
            match machine::asked(Progress::Pending(call), answers)[i] {
                StreamAsk::Kernel(Op::Command { command, expect }) => {
                    &&& i == 0
                    &&& command.driver_num == call.driver_num && command.command_num == 2
                    &&& command.arg0 == call.command
                    &&& command.arg1 == call.request_len as u32
                    &&& expect is Unit
                },
                StreamAsk::ReadPayload => i > h && (i - h) % 2 == 1,
                StreamAsk::Kernel(Op::Blocking(request)) => {
                    &&& request.driver_num == call.driver_num && request.subscribe_num == 0
                    &&& request.arg2 == 0
                    &&& if i <= h {
                        // The header.
                        &&& i == 1
                        &&& request.cmd == 3 && request.arg1 == 0
                        &&& request.rw is None
                        &&& request.ro matches Some(share)
                        &&& share.buffer_num == 0
                        &&& share.region.start == 0 && share.region.len == call.header_len->0
                    } else {
                        &&& (i - h) % 2 == 0
                        &&& answers[i - 1] matches StreamAnswer::Payload(Ok(k), _)
                        &&& if k > 0 {
                            // A piece of the payload.
                            &&& request.cmd == 3 && request.arg1 == 0
                            &&& request.rw is None
                            &&& request.ro matches Some(share)
                            &&& share.buffer_num == 0
                            &&& share.region.start == 0 && share.region.len == k
                        } else {
                            // The execution.
                            &&& request.cmd == 4 && request.arg1 == call.command
                            &&& request.ro is None
                            &&& request.rw matches Some(share)
                            &&& share.buffer_num == 0
                            &&& share.region.start == 0 && share.region.len == call.response_len
                        }
                    }
                },
                _ => false,
            }
        }),
{
    let p = Progress::Pending(call);
    machine::law_runs_step_by_step(p, answers, i);
    lemma_stream_steps(call, answers.take(i));
    if i > 0 {
        assert(answers.take(i)[i - 1] == answers[i - 1]);
    }
}

/// When a streamed command ends: with the first error of the kernel or of the
/// payload, or with what the execution is answered. Then it succeeds exactly if
/// the second word is zero, with the first word as its result; otherwise that
/// second word is the error of the mailbox. Before that it goes on.
pub proof fn law_stream_ends(call: StreamCall, answers: Seq<StreamAnswer>)
    requires
        call.wf(),
        call.phase == StreamPhase::Start,
        machine::answered(Progress::Pending(call), answers),
        answers.len() > 0,
    ensures
        ({
            let n = answers.len() as int;
            let executes = n >= 2 && (answers[n - 2] matches StreamAnswer::Payload(Ok(k), _)
                && k == 0);
            match (machine::run(Progress::Pending(call), answers), answers.last()) {
                (Progress::Pending(_), StreamAnswer::Payload(read, _)) => read is Ok,
                (Progress::Pending(_), StreamAnswer::Kernel(reply)) => reply is Ok && !executes,
                (Progress::Done(r), StreamAnswer::Payload(read, _)) => read is Err && r is Err
                    && r->Err_0 == MailboxError::ErrorCode(read->Err_0),
                (Progress::Done(r), StreamAnswer::Kernel(Err(e))) => r is Err && r->Err_0
                    == MailboxError::ErrorCode(e),
                (Progress::Done(r), StreamAnswer::Kernel(Ok((bytes, error, _)))) => {
                    &&& executes
                    &&& error == 0 ==> r is Ok && r->Ok_0 == bytes
                    &&& error != 0 ==> r is Err && r->Err_0 == MailboxError::MailboxError(error)
                },
            }
        }),
{
    let before = answers.drop_last();
    lemma_stream_steps(call, before);
    if before.len() > 0 {
        assert(before.last() == answers[answers.len() - 2]);
        lemma_stream_run_phase(call, before);
    }
}

/// A command is executed next exactly if the last read gave nothing.
proof fn lemma_stream_run_phase(call: StreamCall, answers: Seq<StreamAnswer>)
    requires
        call.wf(),
        call.phase == StreamPhase::Start,
        machine::answered(Progress::Pending(call), answers),
        answers.len() > 0,
    ensures
        machine::run(Progress::Pending(call), answers) matches Progress::Pending(m) ==> (m.phase
            == StreamPhase::Execute <==> (answers.last() matches StreamAnswer::Payload(Ok(k), _)
            && k == 0)),
{
    lemma_stream_steps(call, answers.drop_last());
}

/// What putting a checksum in front of a request does: nothing but the first
/// four bytes changes, and these become the checksum of the request as it was,
/// least byte first. That fails exactly if there are no four bytes.
pub proof fn law_checksum_put<C: Fn(u32, &[u8]) -> u32>(
    r: Result<(), ErrorCode>,
    cmd: u32,
    before: Seq<u8>,
    after: Seq<u8>,
    calc: C,
)
    requires
        checksum_put(r, cmd, before, after, calc),
    ensures
        r is Err <==> before.len() < 4,
        r matches Err(e) ==> e == ErrorCode::Invalid && after == before,
        after.len() == before.len(),
        forall|i: int| 4 <= i < before.len() ==> #[trigger] after[i] == before[i],
        r is Ok ==> exists|d: &[u8], sum: u32|
            {
                &&& d@ == before
                &&& #[trigger] call_ensures(calc, (cmd, d), sum)
                &&& after[0] + 256 * (after[1] + 256 * (after[2] + 256 * after[3])) == sum
            },
{
    if before.len() >= 4 {
        let (d, sum) = choose|d: &[u8], sum: u32|
            {
                &&& d@ == before
                &&& #[trigger] call_ensures(calc, (cmd, d), sum)
                &&& after == bytes::le_bytes(sum) + before.skip(REQ_HEADER_SIZE as int)
            };
        bytes::law_first_byte_weighs_least(before, sum);
        assert(after[0] == bytes::le_bytes(sum)[0] && after[1] == bytes::le_bytes(sum)[1]
            && after[2] == bytes::le_bytes(sum)[2] && after[3] == bytes::le_bytes(sum)[3]);
    }
}

/// The numbers of the driver.
pub proof fn law_mailbox_numbers()
    ensures
        MAILBOX_DRIVER_NUM == 0x8000_0009,
        CMD_EXECUTE_COMMAND == 1 && CMD_START_CHUNKED_REQUEST == 2 && CMD_NEXT_PAYLOAD_CHUNK == 3
            && CMD_EXECUTE_CHUNKED_REQUEST == 4,
        RO_BUFFER_INPUT == 0 && RW_BUFFER_RESPONSE == 0 && SUBSCRIBE_COMMAND_DONE == 0,
        PAYLOAD_CHUNK_SIZE == 256 && REQ_HEADER_SIZE == 4,
{
}

/// A request without a header starts with its payload.
pub proof fn law_header_bytes(header: Option<&[u8]>)
    ensures
        header matches Some(h) ==> header_bytes(header) == h@,
        header is None ==> header_bytes(header).len() == 0,
{
}

} // verus!

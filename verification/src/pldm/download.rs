//! One step of a firmware download: a chunk is requested, received and stored.

use vstd::prelude::*;

use crate::kernel::Region;
use crate::machine;
use crate::machine::{Machine, Progress};
use crate::pldm::transport::TransportError;

verus! {

/// How a transfer of firmware has ended.
#[derive(Copy, Clone, Debug, PartialEq, Eq, Structural)]
pub enum TransferResult {
    TransferSuccess,
    /// The device has given the transfer up.
    FdAbortedTransfer,
    /// Another result, by its number.
    Other(u8),
}

/// Why a message could not be handled. `E` stands for the errors of the
/// device and of the message format.
#[derive(Debug, PartialEq, Eq)]
pub enum MsgHandlerError<E> {
    /// The device has failed.
    FdOps(E),
    /// The message could not be framed.
    Util(E),
    /// The message could not be encoded or decoded.
    Codec(E),
    Transport(TransportError),
}

/// Why a message could not be built or read.
#[derive(Debug, PartialEq, Eq)]
pub enum MessageError<E> {
    Util(E),
    Codec(E),
}

/// The numbers of the protocol.
#[derive(Copy, Clone, Debug, PartialEq, Eq)]
pub struct DownloadParams {
    /// The endpoint that has the firmware.
    pub ua_eid: u8,
    /// The command that requests firmware.
    pub request_fw_data: u8,
    /// The completion code of a response that holds firmware.
    pub success: u8,
    /// The completion code of a response that asks for the request to be
    /// repeated.
    pub retry: u8,
    /// The size of what stands in front of a message in the buffer.
    pub msg_hdr_len: usize,
    /// The size of what stands in front of the firmware in a response.
    pub rsp_fixed_len: usize,
    /// The size of the buffer.
    pub buf_len: usize,
}

/// A part of the firmware.
#[derive(Copy, Clone, Debug, PartialEq, Eq, Structural)]
pub struct Chunk {
    pub offset: u32,
    pub length: u32,
}

/// What is read of a response: its completion code and how long it is.
#[derive(Copy, Clone, Debug, PartialEq, Eq, Structural)]
pub struct Response {
    pub completion_code: u8,
    pub payload_len: usize,
}

/// What is noted in the session at the end of a step.
#[derive(Copy, Clone, Debug, PartialEq, Eq, Structural)]
pub enum Mark {
    Complete(TransferResult),
    Failed(TransferResult),
    ReadyForNext,
}

/// What a step asks for.
#[derive(Copy, Clone, Debug, PartialEq, Eq, Structural)]
pub enum DownloadAsk {
    /// Has the transfer been cancelled?
    IsCancelled,
    /// What time is it?
    Now,
    /// Has too much time gone by for the session?
    IsT1Timeout { now: u64 },
    /// Is it time for the session to send a request?
    ShouldSendRequest { now: u64 },
    /// Is the session complete?
    IsComplete,
    /// What does the device want next?
    QueryOffsetAndLength,
    /// Which chunk of that can be requested?
    GetDownloadChunk { wanted_offset: u32, wanted_length: u32 },
    /// Note the chunk in the session.
    SetChunk(Chunk),
    /// Take the next instance id of the session.
    AllocInstanceId,
    /// Build the request in the buffer.
    BuildRequest { instance_id: u8, chunk: Chunk },
    /// Note in the session that a command is sent.
    MarkSent { now: u64, cmd: u8 },
    /// Send the first `len` bytes of the buffer.
    SendRequest { dest_eid: u8, len: usize },
    /// Receive a response in the buffer.
    ReceiveResponse,
    /// Read the response in the buffer.
    ParseResponse,
    /// Note in the session when the response came.
    UpdateT1 { now: u64 },
    /// Hand a part of the response to the device, as the firmware at `offset`.
    DownloadFwData { offset: usize, data: Region },
    /// Does the device have all of the firmware?
    IsDownloadComplete,
    /// Note the end of the step in the session.
    Mark(Mark),
}

/// What a step is answered.
#[derive(Debug, PartialEq, Eq)]
pub enum DownloadAnswer<E> {
    Flag(bool),
    Time(u64),
    /// Offset and length that the device wants.
    Wanted(Result<(usize, usize), E>),
    Chunk(Option<Chunk>),
    InstanceId(u8),
    /// The length of the message that was built.
    Built(Result<usize, MessageError<E>>),
    Transport(Result<(), TransportError>),
    Parsed(Result<Response, MessageError<E>>),
    Downloaded(Result<TransferResult, E>),
    /// It is done.
    Done,
}

/// How far a step has come.
#[derive(Copy, Clone, Debug, PartialEq, Eq, Structural)]
pub enum Step {
    Cancelled,
    Clock,
    T1Timeout { now: u64 },
    ShouldSend { now: u64 },
    Complete,
    Query,
    Choose { offset: u32, length: u32 },
    Note { chunk: Chunk },
    Alloc { chunk: Chunk },
    Build { chunk: Chunk, instance_id: u8 },
    SentClock { chunk: Chunk, msg_len: usize },
    Sent { chunk: Chunk, msg_len: usize, now: u64 },
    Send { chunk: Chunk, msg_len: usize },
    Receive { chunk: Chunk },
    Parse { chunk: Chunk },
    ResponseClock { chunk: Chunk, response: Response },
    T1 { chunk: Chunk, response: Response, now: u64 },
    Store { chunk: Chunk },
    AllStored,
    /// The last question. `done` tells whether the download has ended.
    Finish { mark: Mark, done: bool },
}

/// A step under way.
#[derive(Debug, PartialEq, Eq)]
pub struct Download<E> {
    pub params: DownloadParams,
    /// The error of the message format for a response that is too short.
    pub too_short: E,
    pub step: Step,
}

/// Starts a step. It ends with whether the download has ended.
pub fn run_optimized_download<E>(params: DownloadParams, too_short: E) -> (d: Download<E>)
    ensures
        d == (Download { params, too_short, step: Step::Cancelled }),
        d.wf(),
{
    Download { params, too_short, step: Step::Cancelled }
}

/// The error for a message that could not be built or read.
pub open spec fn message_error<E>(e: MessageError<E>) -> MsgHandlerError<E> {
    match e {
        MessageError::Util(e) => MsgHandlerError::Util(e),
        MessageError::Codec(e) => MsgHandlerError::Codec(e),
    }
}

fn to_handler_error<E>(e: MessageError<E>) -> (r: MsgHandlerError<E>)
    ensures
        r == message_error(e),
{
    match e {
        MessageError::Util(e) => MsgHandlerError::Util(e),
        MessageError::Codec(e) => MsgHandlerError::Codec(e),
    }
}

impl<E> Download<E> {
    /// Where the step stands after its last answer is in, by what the
    /// response says.
    pub open spec fn with_response(self, chunk: Chunk, response: Response) -> Progress<
        Download<E>,
        Result<bool, MsgHandlerError<E>>,
    > {
        if response.completion_code == self.params.success {
            if response.payload_len - self.params.rsp_fixed_len >= chunk.length {
                Progress::Pending(Download { step: Step::Store { chunk }, ..self })
            } else {
                Progress::Done(Err(MsgHandlerError::Codec(self.too_short)))
            }
        } else if response.completion_code == self.params.retry {
            Progress::Pending(
                Download { step: Step::Finish { mark: Mark::ReadyForNext, done: false }, ..self },
            )
        } else {
            Progress::Pending(
                Download {
                    step: Step::Finish {
                        mark: Mark::Complete(TransferResult::FdAbortedTransfer),
                        done: true,
                    },
                    ..self
                },
            )
        }
    }
}

impl<E> Machine for Download<E> {
    type Ask = DownloadAsk;

    type Answer = DownloadAnswer<E>;

    type Out = Result<bool, MsgHandlerError<E>>;

    open spec fn wf(self) -> bool {
        match self.step {
            Step::SentClock { msg_len, .. } => msg_len + self.params.msg_hdr_len
                <= self.params.buf_len,
            Step::Sent { msg_len, .. } => msg_len + self.params.msg_hdr_len
                <= self.params.buf_len,
            Step::Send { msg_len, .. } => msg_len + self.params.msg_hdr_len
                <= self.params.buf_len,
            Step::ResponseClock { response, .. } => response.payload_len
                >= self.params.rsp_fixed_len,
            Step::T1 { response, .. } => response.payload_len >= self.params.rsp_fixed_len,
            _ => true,
        }
    }

    open spec fn question(self) -> DownloadAsk {
        match self.step {
            Step::Cancelled => DownloadAsk::IsCancelled,
            Step::Clock => DownloadAsk::Now,
            Step::T1Timeout { now } => DownloadAsk::IsT1Timeout { now },
            Step::ShouldSend { now } => DownloadAsk::ShouldSendRequest { now },
            Step::Complete => DownloadAsk::IsComplete,
            Step::Query => DownloadAsk::QueryOffsetAndLength,
            Step::Choose { offset, length } => DownloadAsk::GetDownloadChunk {
                wanted_offset: offset,
                wanted_length: length,
            },
            Step::Note { chunk } => DownloadAsk::SetChunk(chunk),
            Step::Alloc { .. } => DownloadAsk::AllocInstanceId,
            Step::Build { chunk, instance_id } => DownloadAsk::BuildRequest { instance_id, chunk },
            Step::SentClock { .. } => DownloadAsk::Now,
            Step::Sent { now, .. } => DownloadAsk::MarkSent {
                now,
                cmd: self.params.request_fw_data,
            },
            Step::Send { msg_len, .. } => DownloadAsk::SendRequest {
                dest_eid: self.params.ua_eid,
                len: (msg_len + self.params.msg_hdr_len) as usize,
            },
            Step::Receive { .. } => DownloadAsk::ReceiveResponse,
            Step::Parse { .. } => DownloadAsk::ParseResponse,
            Step::ResponseClock { .. } => DownloadAsk::Now,
            Step::T1 { now, .. } => DownloadAsk::UpdateT1 { now },
            Step::Store { chunk } => DownloadAsk::DownloadFwData {
                offset: chunk.offset as usize,
                data: Region { start: self.params.rsp_fixed_len, len: chunk.length as usize },
            },
            Step::AllStored => DownloadAsk::IsDownloadComplete,
            Step::Finish { mark, .. } => DownloadAsk::Mark(mark),
        }
    }

    open spec fn accepts(self, answer: DownloadAnswer<E>) -> bool {
        match self.step {
            Step::Cancelled => answer is Flag,
            Step::Clock => answer is Time,
            Step::T1Timeout { .. } => answer is Flag,
            Step::ShouldSend { .. } => answer is Flag,
            Step::Complete => answer is Flag,
            Step::Query => answer is Wanted,
            Step::Choose { .. } => answer is Chunk,
            Step::Note { .. } => answer is Done,
            Step::Alloc { .. } => answer is InstanceId,
            Step::Build { .. } => answer matches DownloadAnswer::Built(built) && (
            built matches Ok(msg_len) ==> msg_len + self.params.msg_hdr_len
                <= self.params.buf_len),
            Step::SentClock { .. } => answer is Time,
            Step::Sent { .. } => answer is Done,
            Step::Send { .. } => answer is Transport,
            Step::Receive { .. } => answer is Transport,
            Step::Parse { .. } => answer matches DownloadAnswer::Parsed(parsed) && (
            parsed matches Ok(response) ==> response.payload_len >= self.params.rsp_fixed_len),
            Step::ResponseClock { .. } => answer is Time,
            Step::T1 { .. } => answer is Done,
            Step::Store { .. } => answer is Downloaded,
            Step::AllStored => answer is Flag,
            Step::Finish { .. } => answer is Done,
        }
    }

    open spec fn after(self, answer: DownloadAnswer<E>) -> Progress<
        Download<E>,
        Result<bool, MsgHandlerError<E>>,
    > {
        let aborted = TransferResult::FdAbortedTransfer;
        match (self.step, answer) {
            (Step::Cancelled, DownloadAnswer::Flag(cancelled)) => if cancelled {
                Progress::Pending(
                    Download {
                        step: Step::Finish { mark: Mark::Complete(aborted), done: true },
                        ..self
                    },
                )
            } else {
                Progress::Pending(Download { step: Step::Clock, ..self })
            },
            (Step::Clock, DownloadAnswer::Time(now)) => Progress::Pending(
                Download { step: Step::T1Timeout { now }, ..self },
            ),
            (Step::T1Timeout { now }, DownloadAnswer::Flag(timeout)) => if timeout {
                Progress::Pending(
                    Download {
                        step: Step::Finish { mark: Mark::Failed(aborted), done: true },
                        ..self
                    },
                )
            } else {
                Progress::Pending(Download { step: Step::ShouldSend { now }, ..self })
            },
            (Step::ShouldSend { .. }, DownloadAnswer::Flag(send)) => if send {
                Progress::Pending(Download { step: Step::Complete, ..self })
            } else {
                Progress::Done(Ok(false))
            },
            (Step::Complete, DownloadAnswer::Flag(complete)) => if complete {
                Progress::Done(Ok(true))
            } else {
                Progress::Pending(Download { step: Step::Query, ..self })
            },
            (Step::Query, DownloadAnswer::Wanted(wanted)) => match wanted {
                Ok((offset, length)) => Progress::Pending(
                    Download {
                        step: Step::Choose { offset: offset as u32, length: length as u32 },
                        ..self
                    },
                ),
                Err(e) => Progress::Done(Err(MsgHandlerError::FdOps(e))),
            },
            (Step::Choose { .. }, DownloadAnswer::Chunk(chosen)) => match chosen {
                Some(chunk) => Progress::Pending(Download { step: Step::Note { chunk }, ..self }),
                None => Progress::Pending(
                    Download {
                        step: Step::Finish { mark: Mark::Failed(aborted), done: true },
                        ..self
                    },
                ),
            },
            (Step::Note { chunk }, _) => Progress::Pending(
                Download { step: Step::Alloc { chunk }, ..self },
            ),
            (Step::Alloc { chunk }, DownloadAnswer::InstanceId(instance_id)) => Progress::Pending(
                Download { step: Step::Build { chunk, instance_id }, ..self },
            ),
            (Step::Build { chunk, .. }, DownloadAnswer::Built(built)) => match built {
                Ok(msg_len) => Progress::Pending(
                    Download { step: Step::SentClock { chunk, msg_len }, ..self },
                ),
                Err(e) => Progress::Done(Err(message_error(e))),
            },
            (Step::SentClock { chunk, msg_len }, DownloadAnswer::Time(now)) => Progress::Pending(
                Download { step: Step::Sent { chunk, msg_len, now }, ..self },
            ),
            (Step::Sent { chunk, msg_len, .. }, _) => Progress::Pending(
                Download { step: Step::Send { chunk, msg_len }, ..self },
            ),
            (Step::Send { chunk, .. }, DownloadAnswer::Transport(sent)) => match sent {
                Ok(_) => Progress::Pending(Download { step: Step::Receive { chunk }, ..self }),
                Err(e) => Progress::Done(Err(MsgHandlerError::Transport(e))),
            },
            (Step::Receive { chunk }, DownloadAnswer::Transport(received)) => match received {
                Ok(_) => Progress::Pending(Download { step: Step::Parse { chunk }, ..self }),
                Err(e) => Progress::Done(Err(MsgHandlerError::Transport(e))),
            },
            (Step::Parse { chunk }, DownloadAnswer::Parsed(parsed)) => match parsed {
                Ok(response) => Progress::Pending(
                    Download { step: Step::ResponseClock { chunk, response }, ..self },
                ),
                Err(e) => Progress::Done(Err(message_error(e))),
            },
            (Step::ResponseClock { chunk, response }, DownloadAnswer::Time(now)) =>
                Progress::Pending(Download { step: Step::T1 { chunk, response, now }, ..self }),
            (Step::T1 { chunk, response, .. }, _) => self.with_response(chunk, response),
            (Step::Store { .. }, DownloadAnswer::Downloaded(stored)) => match stored {
                Ok(result) => if result == TransferResult::TransferSuccess {
                    Progress::Pending(Download { step: Step::AllStored, ..self })
                } else {
                    Progress::Pending(
                        Download {
                            step: Step::Finish { mark: Mark::Complete(result), done: true },
                            ..self
                        },
                    )
                },
                Err(e) => Progress::Done(Err(MsgHandlerError::FdOps(e))),
            },
            (Step::AllStored, DownloadAnswer::Flag(complete)) => if complete {
                Progress::Pending(
                    Download {
                        step: Step::Finish {
                            mark: Mark::Complete(TransferResult::TransferSuccess),
                            done: true,
                        },
                        ..self
                    },
                )
            } else {
                Progress::Pending(
                    Download {
                        step: Step::Finish { mark: Mark::ReadyForNext, done: false },
                        ..self
                    },
                )
            },
            (Step::Finish { done, .. }, _) => Progress::Done(Ok(done)),
            _ => Progress::Pending(self),
        }
    }

    proof fn after_is_wf(self, answer: DownloadAnswer<E>) {
    }

    fn ask(&self) -> (asked: DownloadAsk) {
        match self.step {
            Step::Cancelled => DownloadAsk::IsCancelled,
            Step::Clock => DownloadAsk::Now,
            Step::T1Timeout { now } => DownloadAsk::IsT1Timeout { now },
            Step::ShouldSend { now } => DownloadAsk::ShouldSendRequest { now },
            Step::Complete => DownloadAsk::IsComplete,
            Step::Query => DownloadAsk::QueryOffsetAndLength,
            Step::Choose { offset, length } => DownloadAsk::GetDownloadChunk {
                wanted_offset: offset,
                wanted_length: length,
            },
            Step::Note { chunk } => DownloadAsk::SetChunk(chunk),
            Step::Alloc { .. } => DownloadAsk::AllocInstanceId,
            Step::Build { chunk, instance_id } => DownloadAsk::BuildRequest { instance_id, chunk },
            Step::SentClock { .. } => DownloadAsk::Now,
            Step::Sent { now, .. } => DownloadAsk::MarkSent {
                now,
                cmd: self.params.request_fw_data,
            },
            Step::Send { msg_len, .. } => DownloadAsk::SendRequest {
                dest_eid: self.params.ua_eid,
                len: msg_len + self.params.msg_hdr_len,
            },
            Step::Receive { .. } => DownloadAsk::ReceiveResponse,
            Step::Parse { .. } => DownloadAsk::ParseResponse,
            Step::ResponseClock { .. } => DownloadAsk::Now,
            Step::T1 { now, .. } => DownloadAsk::UpdateT1 { now },
            Step::Store { chunk } => DownloadAsk::DownloadFwData {
                offset: chunk.offset as usize,
                data: Region { start: self.params.rsp_fixed_len, len: chunk.length as usize },
            },
            Step::AllStored => DownloadAsk::IsDownloadComplete,
            Step::Finish { mark, .. } => DownloadAsk::Mark(mark),
        }
    }

    fn resume(self, answer: DownloadAnswer<E>) -> (next: Progress<
        Download<E>,
        Result<bool, MsgHandlerError<E>>,
    >) {
        let Download { params, too_short, step } = self;
        let aborted = TransferResult::FdAbortedTransfer;
        let next = match (step, answer) {
            (Step::Cancelled, DownloadAnswer::Flag(cancelled)) => if cancelled {
                Step::Finish { mark: Mark::Complete(aborted), done: true }
            } else {
                Step::Clock
            },
            (Step::Clock, DownloadAnswer::Time(now)) => Step::T1Timeout { now },
            (Step::T1Timeout { now }, DownloadAnswer::Flag(timeout)) => if timeout {
                Step::Finish { mark: Mark::Failed(aborted), done: true }
            } else {
                Step::ShouldSend { now }
            },
            (Step::ShouldSend { .. }, DownloadAnswer::Flag(send)) => {
                if !send {
                    return Progress::Done(Ok(false));
                }
                Step::Complete
            },
            (Step::Complete, DownloadAnswer::Flag(complete)) => {
                if complete {
                    return Progress::Done(Ok(true));
                }
                Step::Query
            },
            (Step::Query, DownloadAnswer::Wanted(wanted)) => match wanted {
                Ok((offset, length)) => Step::Choose {
                    offset: offset as u32,
                    length: length as u32,
                },
                Err(e) => {
                    return Progress::Done(Err(MsgHandlerError::FdOps(e)));
                },
            },
            (Step::Choose { .. }, DownloadAnswer::Chunk(chosen)) => match chosen {
                Some(chunk) => Step::Note { chunk },
                None => Step::Finish { mark: Mark::Failed(aborted), done: true },
            },
            (Step::Note { chunk }, _) => Step::Alloc { chunk },
            (Step::Alloc { chunk }, DownloadAnswer::InstanceId(instance_id)) => Step::Build {
                chunk,
                instance_id,
            },
            (Step::Build { chunk, .. }, DownloadAnswer::Built(built)) => match built {
                Ok(msg_len) => Step::SentClock { chunk, msg_len },
                Err(e) => {
                    return Progress::Done(Err(to_handler_error(e)));
                },
            },
            (Step::SentClock { chunk, msg_len }, DownloadAnswer::Time(now)) => Step::Sent {
                chunk,
                msg_len,
                now,
            },
            (Step::Sent { chunk, msg_len, .. }, _) => Step::Send { chunk, msg_len },
            (Step::Send { chunk, .. }, DownloadAnswer::Transport(sent)) => match sent {
                Ok(_) => Step::Receive { chunk },
                Err(e) => {
                    return Progress::Done(Err(MsgHandlerError::Transport(e)));
                },
            },
            (Step::Receive { chunk }, DownloadAnswer::Transport(received)) => match received {
                Ok(_) => Step::Parse { chunk },
                Err(e) => {
                    return Progress::Done(Err(MsgHandlerError::Transport(e)));
                },
            },
            (Step::Parse { chunk }, DownloadAnswer::Parsed(parsed)) => match parsed {
                Ok(response) => Step::ResponseClock { chunk, response },
                Err(e) => {
                    return Progress::Done(Err(to_handler_error(e)));
                },
            },
            (Step::ResponseClock { chunk, response }, DownloadAnswer::Time(now)) => Step::T1 {
                chunk,
                response,
                now,
            },
            (Step::T1 { chunk, response, .. }, _) => if response.completion_code
                == params.success {
                let data_len: usize = response.payload_len - params.rsp_fixed_len;
                if data_len < chunk.length as usize {
                    return Progress::Done(Err(MsgHandlerError::Codec(too_short)));
                }
                Step::Store { chunk }
            } else if response.completion_code == params.retry {
                Step::Finish { mark: Mark::ReadyForNext, done: false }
            } else {
                Step::Finish { mark: Mark::Complete(aborted), done: true }
            },
            (Step::Store { .. }, DownloadAnswer::Downloaded(stored)) => match stored {
                Ok(result) => if result == TransferResult::TransferSuccess {
                    Step::AllStored
                } else {
                    Step::Finish { mark: Mark::Complete(result), done: true }
                },
                Err(e) => {
                    return Progress::Done(Err(MsgHandlerError::FdOps(e)));
                },
            },
            (Step::AllStored, DownloadAnswer::Flag(complete)) => if complete {
                Step::Finish {
                    mark: Mark::Complete(TransferResult::TransferSuccess),
                    done: true,
                }
            } else {
                Step::Finish { mark: Mark::ReadyForNext, done: false }
            },
            (Step::Finish { done, .. }, _) => {
                return Progress::Done(Ok(done));
            },
            (unanswered, _) => unanswered,
        };
        Progress::Pending(Download { params, too_short, step: next })
    }
}

/// The question that a step asks after `i` answers, if it has not come to its
/// last one by then.
pub open spec fn planned<E>(
    params: DownloadParams,
    answers: Seq<DownloadAnswer<E>>,
    i: int,
) -> DownloadAsk {
    let wanted = answers[5]->Wanted_0->Ok_0;
    let chunk = answers[6]->Chunk_0->0;
    if i == 0 {
        DownloadAsk::IsCancelled
    } else if i == 1 || i == 10 || i == 15 {
        DownloadAsk::Now
    } else if i == 2 {
        DownloadAsk::IsT1Timeout { now: answers[1]->Time_0 }
    } else if i == 3 {
        DownloadAsk::ShouldSendRequest { now: answers[1]->Time_0 }
    } else if i == 4 {
        DownloadAsk::IsComplete
    } else if i == 5 {
        DownloadAsk::QueryOffsetAndLength
    } else if i == 6 {
        DownloadAsk::GetDownloadChunk {
            wanted_offset: wanted.0 as u32,
            wanted_length: wanted.1 as u32,
        }
    } else if i == 7 {
        DownloadAsk::SetChunk(chunk)
    } else if i == 8 {
        DownloadAsk::AllocInstanceId
    } else if i == 9 {
        DownloadAsk::BuildRequest { instance_id: answers[8]->InstanceId_0, chunk }
    } else if i == 11 {
        DownloadAsk::MarkSent { now: answers[10]->Time_0, cmd: params.request_fw_data }
    } else if i == 12 {
        DownloadAsk::SendRequest {
            dest_eid: params.ua_eid,
            len: (answers[9]->Built_0->Ok_0 + params.msg_hdr_len) as usize,
        }
    } else if i == 13 {
        DownloadAsk::ReceiveResponse
    } else if i == 14 {
        DownloadAsk::ParseResponse
    } else if i == 16 {
        DownloadAsk::UpdateT1 { now: answers[15]->Time_0 }
    } else if i == 17 {
        DownloadAsk::DownloadFwData {
            offset: chunk.offset as usize,
            data: Region { start: params.rsp_fixed_len, len: chunk.length as usize },
        }
    } else {
        DownloadAsk::IsDownloadComplete
    }
}

/// The number of answers after which a step comes to where it is, unless that
/// is its last question.
pub open spec fn position(step: Step) -> int {
    match step {
        Step::Cancelled => 0,
        Step::Clock => 1,
        Step::T1Timeout { .. } => 2,
        Step::ShouldSend { .. } => 3,
        Step::Complete => 4,
        Step::Query => 5,
        Step::Choose { .. } => 6,
        Step::Note { .. } => 7,
        Step::Alloc { .. } => 8,
        Step::Build { .. } => 9,
        Step::SentClock { .. } => 10,
        Step::Sent { .. } => 11,
        Step::Send { .. } => 12,
        Step::Receive { .. } => 13,
        Step::Parse { .. } => 14,
        Step::ResponseClock { .. } => 15,
        Step::T1 { .. } => 16,
        Step::Store { .. } => 17,
        Step::AllStored => 18,
        Step::Finish { .. } => 19,
    }
}

/// Whether a step holds what was answered before.
pub open spec fn remembers<E>(step: Step, answers: Seq<DownloadAnswer<E>>) -> bool {
    let chosen = answers[6]->Chunk_0->0;
    let built = answers[9]->Built_0->Ok_0;
    match step {
        Step::T1Timeout { now } => now == answers[1]->Time_0,
        Step::ShouldSend { now } => now == answers[1]->Time_0,
        Step::Choose { offset, length } => {
            &&& offset == answers[5]->Wanted_0->Ok_0.0 as u32
            &&& length == answers[5]->Wanted_0->Ok_0.1 as u32
        },
        Step::Note { chunk } => chunk == chosen,
        Step::Alloc { chunk } => chunk == chosen,
        Step::Build { chunk, instance_id } => {
            &&& chunk == chosen
            &&& instance_id == answers[8]->InstanceId_0
        },
        Step::SentClock { chunk, msg_len } => chunk == chosen && msg_len == built,
        Step::Sent { chunk, msg_len, now } => {
            &&& chunk == chosen
            &&& msg_len == built
            &&& now == answers[10]->Time_0
        },
        Step::Send { chunk, msg_len } => chunk == chosen && msg_len == built,
        Step::Receive { chunk } => chunk == chosen,
        Step::Parse { chunk } => chunk == chosen,
        Step::ResponseClock { chunk, response } => {
            &&& chunk == chosen
            &&& response == answers[14]->Parsed_0->Ok_0
        },
        Step::T1 { chunk, response, now } => {
            &&& chunk == chosen
            &&& response == answers[14]->Parsed_0->Ok_0
            &&& now == answers[15]->Time_0
        },
        Step::Store { chunk } => chunk == chosen,
        _ => true,
    }
}

/// How the end of a step is noted that has been given some answers and has
/// come to its last question.
pub open spec fn planned_mark<E>(
    params: DownloadParams,
    answers: Seq<DownloadAnswer<E>>,
) -> Mark {
    let aborted = TransferResult::FdAbortedTransfer;
    let n = answers.len();
    if n == 1 {
        // The transfer has been cancelled.
        Mark::Complete(aborted)
    } else if n == 3 || n == 7 {
        // The session has timed out, or there is no chunk to be requested.
        Mark::Failed(aborted)
    } else if n == 17 {
        // The response holds no firmware.
        if answers[14]->Parsed_0->Ok_0.completion_code == params.retry {
            Mark::ReadyForNext
        } else {
            Mark::Complete(aborted)
        }
    } else if n == 18 {
        // The device has ended the transfer.
        Mark::Complete(answers[17]->Downloaded_0->Ok_0)
    } else if answers[18] == DownloadAnswer::<E>::Flag(true) {
        // The device has all of the firmware.
        Mark::Complete(TransferResult::TransferSuccess)
    } else {
        Mark::ReadyForNext
    }
}

/// How a step ends with the last of some answers, if its last question was not
/// to note the end in the session.
pub open spec fn planned_end<E>(
    too_short: E,
    answers: Seq<DownloadAnswer<E>>,
) -> Result<bool, MsgHandlerError<E>> {
    match answers.last() {
        DownloadAnswer::Flag(complete) => Ok(complete),
        DownloadAnswer::Wanted(wanted) => Err(MsgHandlerError::FdOps(wanted->Err_0)),
        DownloadAnswer::Built(built) => Err(message_error(built->Err_0)),
        DownloadAnswer::Transport(sent) => Err(MsgHandlerError::Transport(sent->Err_0)),
        DownloadAnswer::Parsed(parsed) => Err(message_error(parsed->Err_0)),
        DownloadAnswer::Downloaded(stored) => Err(MsgHandlerError::FdOps(stored->Err_0)),
        _ => Err(MsgHandlerError::Codec(too_short)),
    }
}

/// Whether a step ends with the last of some answers without noting the end in
/// the session.
pub open spec fn ends_unmarked<E>(
    params: DownloadParams,
    answers: Seq<DownloadAnswer<E>>,
) -> bool {
    let n = answers.len();
    let response = answers[14]->Parsed_0->Ok_0;
    ||| n == 4 && answers[3] == DownloadAnswer::<E>::Flag(false)
    ||| n == 5 && answers[4] == DownloadAnswer::<E>::Flag(true)
    ||| n == 6 && answers[5]->Wanted_0 is Err
    ||| n == 10 && answers[9]->Built_0 is Err
    ||| (n == 13 || n == 14) && answers.last()->Transport_0 is Err
    ||| n == 15 && answers[14]->Parsed_0 is Err
    ||| n == 17 && response.completion_code == params.success && response.payload_len
        - params.rsp_fixed_len < answers[6]->Chunk_0->0.length
    ||| n == 18 && answers[17]->Downloaded_0 is Err
}

proof fn lemma_download_run<E>(
    params: DownloadParams,
    too_short: E,
    answers: Seq<DownloadAnswer<E>>,
)
    requires
        machine::answered(
            Progress::Pending(Download { params, too_short, step: Step::Cancelled }),
            answers,
        ),
    ensures
        ({
            let p = Progress::Pending(Download { params, too_short, step: Step::Cancelled });
            let asked = machine::asked(p, answers);
            let n = answers.len() as int;
            &&& n <= 20
            &&& asked.len() == n
            &&& forall|i: int|
                #![trigger asked[i]]
                0 <= i < n ==> if asked[i] is Mark {
                    i == n - 1
                } else {
                    asked[i] == planned(params, answers, i)
                }
            &&& match machine::run(p, answers) {
                Progress::Pending(m) => {
                    &&& m.wf()
                    &&& m.params == params
                    &&& m.too_short == too_short
                    &&& n <= 19
                    &&& n > 0 ==> !(asked[n - 1] is Mark)
                    &&& !ends_unmarked(params, answers)
                    &&& match m.step {
                        Step::Finish { mark, done } => {
                            &&& n > 0
                            &&& mark == planned_mark(params, answers)
                            &&& done == (mark != Mark::ReadyForNext)
                        },
                        _ => position(m.step) == n && remembers(m.step, answers),
                    }
                },
                Progress::Done(end) => {
                    &&& n > 0
                    &&& match asked[n - 1] {
                        DownloadAsk::Mark(mark) => {
                            &&& mark == planned_mark(params, answers.drop_last())
                            &&& end == Ok::<bool, MsgHandlerError<E>>(mark != Mark::ReadyForNext)
                        },
                        _ => {
                            &&& ends_unmarked(params, answers)
                            &&& end == planned_end(too_short, answers)
                        },
                    }
                },
            }
        }),
    decreases answers.len(),
{
    let p = Progress::Pending(Download { params, too_short, step: Step::Cancelled });
    if answers.len() > 0 {
        let before = answers.drop_last();
        lemma_download_run(params, too_short, before);
        let asked_before = machine::asked(p, before);
        let asked = machine::asked(p, answers);
        let n = before.len() as int;
        let m = machine::run(p, before)->Pending_0;
        assert(asked == asked_before.push(m.question()));
        assert(forall|i: int| 0 <= i < n ==> before[i] == answers[i]);
        if !(m.step is Finish) {
            assert(remembers(m.step, answers));
        }
        assert(asked[n] == m.question());
        assert forall|i: int|
            #![trigger asked[i]]
            0 <= i < n + 1 implies if asked[i] is Mark {
            i == n
        } else {
            asked[i] == planned(params, answers, i)
        } by {
            if i < n {
                assert(asked[i] == asked_before[i]);
                assert(planned(params, before, i) == planned(params, answers, i));
            }
        }
    }
}

/// A step asks its questions in a fixed order, each with what was answered
/// before: the chunk that was chosen is the one that is noted, requested and
/// stored, at its offset and with its length. The order is left only for the
/// last question, which notes the end of the step in the session, and for the
/// end. At most twenty questions are asked.
pub proof fn law_download_order<E>(
    params: DownloadParams,
    too_short: E,
    answers: Seq<DownloadAnswer<E>>,
)
    requires
        machine::answered(
            Progress::Pending(Download { params, too_short, step: Step::Cancelled }),
            answers,
        ),
    ensures
        ({
            let p = Progress::Pending(Download { params, too_short, step: Step::Cancelled });
            let asked = machine::asked(p, answers);
            let n = answers.len() as int;
            &&& n <= 20
            &&& asked.len() == n
            &&& forall|i: int|
                #![trigger asked[i]]
                0 <= i < n ==> if asked[i] is Mark {
                    i == n - 1
                } else {
                    asked[i] == planned(params, answers, i)
                }
        }),
{
    lemma_download_run(params, too_short, answers);
}

/// What becomes of a step follows from the answers alone. It goes on until an
/// answer ends it: at once, with what that answer says, or by way of the last
/// question, which notes the end in the session. In the end it tells whether
/// the download has ended, which it has unless the session is ready for the
/// next request or nothing was to be sent yet.
pub proof fn law_download_outcome<E>(
    params: DownloadParams,
    too_short: E,
    answers: Seq<DownloadAnswer<E>>,
)
    requires
        machine::answered(
            Progress::Pending(Download { params, too_short, step: Step::Cancelled }),
            answers,
        ),
        answers.len() > 0,
    ensures
        ({
            let p = Progress::Pending(Download { params, too_short, step: Step::Cancelled });
            match machine::run(p, answers) {
                Progress::Done(end) => match machine::asked(p, answers).last() {
                    DownloadAsk::Mark(mark) => {
                        &&& mark == planned_mark(params, answers.drop_last())
                        &&& end == Ok::<bool, MsgHandlerError<E>>(mark != Mark::ReadyForNext)
                    },
                    _ => {
                        &&& ends_unmarked(params, answers)
                        &&& end == planned_end(too_short, answers)
                    },
                },
                Progress::Pending(m) => {
                    &&& !ends_unmarked(params, answers)
                    &&& m.question() matches DownloadAsk::Mark(mark) ==> mark == planned_mark(
                        params,
                        answers,
                    )
                },
            }
        }),
{
    lemma_download_run(params, too_short, answers);
}

/// Once a download is found cancelled, nothing is requested: the session is
/// marked complete as given up, and the download has ended. If the session has
/// timed out instead, it is marked failed.
pub proof fn law_download_gives_up<E>(params: DownloadParams, too_short: E, now: u64)
    ensures
        ({
            let p = Progress::Pending(Download { params, too_short, step: Step::Cancelled });
            let aborted = TransferResult::FdAbortedTransfer;
            let cancelled = seq![DownloadAnswer::<E>::Flag(true), DownloadAnswer::Done];
            let late = seq![
                DownloadAnswer::<E>::Flag(false),
                DownloadAnswer::Time(now),
                DownloadAnswer::Flag(true),
                DownloadAnswer::Done,
            ];
            &&& machine::answered(p, cancelled)
            &&& machine::answered(p, late)
            &&& machine::asked(p, cancelled) == seq![
                DownloadAsk::IsCancelled,
                DownloadAsk::Mark(Mark::Complete(aborted)),
            ]
            &&& machine::run(p, cancelled) == Progress::<
                Download<E>,
                Result<bool, MsgHandlerError<E>>,
            >::Done(Ok(true))
            &&& machine::asked(p, late) == seq![
                DownloadAsk::IsCancelled,
                DownloadAsk::Now,
                DownloadAsk::IsT1Timeout { now },
                DownloadAsk::Mark(Mark::Failed(aborted)),
            ]
            &&& machine::run(p, late) == Progress::<
                Download<E>,
                Result<bool, MsgHandlerError<E>>,
            >::Done(Ok(true))
        }),
{
    let cancelled = seq![DownloadAnswer::<E>::Flag(true), DownloadAnswer::Done];
    let late = seq![
        DownloadAnswer::<E>::Flag(false),
        DownloadAnswer::Time(now),
        DownloadAnswer::Flag(true),
        DownloadAnswer::Done,
    ];
    reveal_with_fuel(machine::run, 5);
    reveal_with_fuel(machine::answered, 5);
    reveal_with_fuel(machine::asked, 5);
    assert(cancelled.drop_last() =~= seq![DownloadAnswer::<E>::Flag(true)]);
    assert(cancelled.drop_last().drop_last() =~= Seq::empty());
    assert(late.drop_last() =~= late.take(3));
    assert(late.take(3).drop_last() =~= late.take(2));
    assert(late.take(2).drop_last() =~= late.take(1));
    assert(late.take(1).drop_last() =~= Seq::empty());
}

/// What was answered to a step that is still under way.
proof fn lemma_download_answers<E>(
    params: DownloadParams,
    too_short: E,
    answers: Seq<DownloadAnswer<E>>,
)
    requires
        machine::answered(
            Progress::Pending(Download { params, too_short, step: Step::Cancelled }),
            answers,
        ),
    ensures
        ({
            let p = Progress::Pending(Download { params, too_short, step: Step::Cancelled });
            let n = answers.len();
            machine::run(p, answers) matches Progress::Pending(m) ==> {
                &&& n > 0 ==> answers[0] is Flag
                &&& n > 1 ==> answers[1] is Time
                &&& n > 2 ==> answers[2] is Flag
                &&& n > 5 ==> answers[5] is Wanted && answers[5]->Wanted_0 is Ok
                &&& n > 6 ==> answers[6] is Chunk
                &&& n > 6 && !(m.step is Finish) ==> answers[6]->Chunk_0 is Some
                &&& n > 7 ==> answers[6]->Chunk_0 is Some
                &&& n > 8 ==> answers[8] is InstanceId
                &&& n > 9 ==> answers[9] is Built && answers[9]->Built_0 is Ok
                    && answers[9]->Built_0->Ok_0 + params.msg_hdr_len <= params.buf_len
                &&& n > 10 ==> answers[10] is Time
                &&& n > 14 ==> answers[14] is Parsed && answers[14]->Parsed_0 is Ok
                    && answers[14]->Parsed_0->Ok_0.payload_len >= params.rsp_fixed_len
                &&& n > 15 ==> answers[15] is Time
                &&& n > 17 ==> answers[17] is Downloaded && answers[17]->Downloaded_0 is Ok
                &&& n > 18 ==> answers[18] is Flag
            }
        }),
    decreases answers.len(),
{
    if answers.len() > 0 {
        let before = answers.drop_last();
        lemma_download_run(params, too_short, before);
        lemma_download_answers(params, too_short, before);
        lemma_download_run(params, too_short, answers);
        assert(forall|i: int| 0 <= i < before.len() ==> before[i] == answers[i]);
    }
}

/// Each question of a step has its place, and says what was answered before.
/// The request is for the chunk that was chosen from what the device wanted; it
/// goes to the endpoint that has the firmware, with its header in front; and the
/// data that is handed to the device has the offset and the length of that
/// chunk, and begins behind the fixed part of the response.
pub proof fn law_download_questions<E>(
    params: DownloadParams,
    too_short: E,
    answers: Seq<DownloadAnswer<E>>,
)
    requires
        machine::answered(
            Progress::Pending(Download { params, too_short, step: Step::Cancelled }),
            answers,
        ),
    ensures
        ({
            let p = Progress::Pending(Download { params, too_short, step: Step::Cancelled });
            let asked = machine::asked(p, answers);
            let n = answers.len() as int;
            &&& asked.len() == n
            &&& forall|i: int|
                0 <= i < n ==> match #[trigger] asked[i] {
                    DownloadAsk::IsCancelled => i == 0,
                    DownloadAsk::Now => i == 1 || i == 10 || i == 15,
                    DownloadAsk::IsT1Timeout { now } => i == 2 && answers[1]
                        == DownloadAnswer::<E>::Time(now),
                    DownloadAsk::ShouldSendRequest { now } => i == 3 && answers[1]
                        == DownloadAnswer::<E>::Time(now),
                    DownloadAsk::IsComplete => i == 4,
                    DownloadAsk::QueryOffsetAndLength => i == 5,
                    DownloadAsk::GetDownloadChunk { wanted_offset, wanted_length } => {
                        &&& i == 6
                        &&& answers[5] matches DownloadAnswer::Wanted(Ok((offset, length)))
                        &&& wanted_offset == offset as u32
                        &&& wanted_length == length as u32
                    },
                    DownloadAsk::SetChunk(chunk) => i == 7 && answers[6]
                        == DownloadAnswer::<E>::Chunk(Some(chunk)),
                    DownloadAsk::AllocInstanceId => i == 8,
                    DownloadAsk::BuildRequest { instance_id, chunk } => {
                        &&& i == 9
                        &&& answers[6] == DownloadAnswer::<E>::Chunk(Some(chunk))
                        &&& answers[8] == DownloadAnswer::<E>::InstanceId(instance_id)
                    },
                    DownloadAsk::MarkSent { now, cmd } => {
                        &&& i == 11
                        &&& answers[10] == DownloadAnswer::<E>::Time(now)
                        &&& cmd == params.request_fw_data
                    },
                    DownloadAsk::SendRequest { dest_eid, len } => {
                        &&& i == 12
                        &&& answers[9] matches DownloadAnswer::Built(Ok(msg_len))
                        &&& dest_eid == params.ua_eid
                        &&& len == msg_len + params.msg_hdr_len
                    },
                    DownloadAsk::ReceiveResponse => i == 13,
                    DownloadAsk::ParseResponse => i == 14,
                    DownloadAsk::UpdateT1 { now } => i == 16 && answers[15]
                        == DownloadAnswer::<E>::Time(now),
                    DownloadAsk::DownloadFwData { offset, data } => {
                        &&& i == 17
                        &&& answers[6] matches DownloadAnswer::Chunk(Some(chunk))
                        &&& offset == chunk.offset
                        &&& data.start == params.rsp_fixed_len
                        &&& data.len == chunk.length
                    },
                    DownloadAsk::IsDownloadComplete => i == 18,
                    DownloadAsk::Mark(_) => i == n - 1,
                }
        }),
{
    let p = Progress::Pending(Download { params, too_short, step: Step::Cancelled });
    let asked = machine::asked(p, answers);
    lemma_download_run(params, too_short, answers);
    assert forall|i: int| 0 <= i < answers.len() && !(#[trigger] asked[i] is Mark) implies {
        let before = answers.take(i);
        &&& asked[i] == planned(params, before, i)
        &&& i > 1 ==> answers[1] is Time
        &&& i > 5 ==> answers[5] is Wanted && answers[5]->Wanted_0 is Ok
        &&& i > 6 ==> answers[6] is Chunk && answers[6]->Chunk_0 is Some
        &&& i > 8 ==> answers[8] is InstanceId
        &&& i > 9 ==> answers[9] is Built && answers[9]->Built_0 is Ok
            && answers[9]->Built_0->Ok_0 + params.msg_hdr_len <= params.buf_len
        &&& i > 10 ==> answers[10] is Time
        &&& i > 15 ==> answers[15] is Time
        &&& i <= 18
    } by {
        let before = answers.take(i);
        machine::law_runs_step_by_step(p, answers, i);
        lemma_download_answers(params, too_short, before);
        lemma_download_run(params, too_short, before);
        assert(forall|k: int| 0 <= k < i ==> before[k] == answers[k]);
    }
}

/// The question that notes the end of a step is asked exactly when the transfer
/// was cancelled, the session has timed out, there was no chunk, the response
/// has a completion code other than success, or the device reported a result;
/// and what is noted is what that means. It is asked at no other time.
pub proof fn law_download_marks<E>(
    params: DownloadParams,
    too_short: E,
    answers: Seq<DownloadAnswer<E>>,
)
    requires
        machine::answered(
            Progress::Pending(Download { params, too_short, step: Step::Cancelled }),
            answers,
        ),
    ensures
        ({
            let p = Progress::Pending(Download { params, too_short, step: Step::Cancelled });
            let n = answers.len();
            let marked = machine::run(p, answers) matches Progress::Pending(m) && m.question()
                is Mark;
            let mark = machine::run(p, answers)->Pending_0.question()->Mark_0;
            let cancelled = n == 1 && answers[0] == DownloadAnswer::<E>::Flag(true);
            let late = n == 3 && answers[2] == DownloadAnswer::<E>::Flag(true);
            let no_chunk = n == 7 && answers[6] == DownloadAnswer::<E>::Chunk(None);
            let code = answers[14]->Parsed_0->Ok_0.completion_code;
            let no_data = n == 17 && code != params.success;
            let result = answers[17]->Downloaded_0->Ok_0;
            let given_up = n == 18 && answers[17] is Downloaded && answers[17]->Downloaded_0 is Ok
                && result != TransferResult::TransferSuccess;
            let stored = n == 19 && answers[18] is Flag;
            &&& marked <==> cancelled || late || no_chunk || no_data || given_up || stored
            &&& cancelled ==> mark == Mark::Complete(TransferResult::FdAbortedTransfer)
            &&& late || no_chunk ==> mark == Mark::Failed(TransferResult::FdAbortedTransfer)
            &&& n == 17 ==> answers[14] is Parsed && answers[14]->Parsed_0 is Ok
            &&& no_data && code == params.retry ==> mark == Mark::ReadyForNext
            &&& no_data && code != params.retry ==> mark == Mark::Complete(
                TransferResult::FdAbortedTransfer,
            )
            &&& given_up ==> mark == Mark::Complete(result)
            &&& stored && answers[18]->Flag_0 ==> mark == Mark::Complete(
                TransferResult::TransferSuccess,
            )
            &&& stored && !answers[18]->Flag_0 ==> mark == Mark::ReadyForNext
        }),
{
    if answers.len() > 0 {
        let before = answers.drop_last();
        lemma_download_run(params, too_short, before);
        lemma_download_answers(params, too_short, before);
        assert(forall|i: int| 0 <= i < before.len() ==> before[i] == answers[i]);
    }
}

/// A response with the completion code for success that holds at least as much
/// as was requested is handed to the device: as much of it as was requested, and
/// none of what may follow. One that holds less ends the step with the error for
/// a response that is too short.
pub proof fn law_download_stores<E>(
    params: DownloadParams,
    too_short: E,
    answers: Seq<DownloadAnswer<E>>,
)
    requires
        machine::answered(
            Progress::Pending(Download { params, too_short, step: Step::Cancelled }),
            answers,
        ),
        answers.len() == 17,
        answers[14]->Parsed_0->Ok_0.completion_code == params.success,
    ensures
        ({
            let p = Progress::Pending(Download { params, too_short, step: Step::Cancelled });
            let chunk = answers[6]->Chunk_0->0;
            let payload_len = answers[14]->Parsed_0->Ok_0.payload_len;
            &&& answers[6] is Chunk && answers[6]->Chunk_0 is Some
            &&& payload_len >= params.rsp_fixed_len
            &&& payload_len >= params.rsp_fixed_len + chunk.length ==> {
                &&& machine::run(p, answers) matches Progress::Pending(m)
                &&& m.question() == (DownloadAsk::DownloadFwData {
                    offset: chunk.offset as usize,
                    data: Region { start: params.rsp_fixed_len, len: chunk.length as usize },
                })
            }
            &&& payload_len < params.rsp_fixed_len + chunk.length ==> machine::run(p, answers)
                == Progress::<Download<E>, Result<bool, MsgHandlerError<E>>>::Done(
                Err(MsgHandlerError::Codec(too_short)),
            )
        }),
{
    let before = answers.drop_last();
    lemma_download_run(params, too_short, before);
    lemma_download_answers(params, too_short, before);
    assert(forall|i: int| 0 <= i < before.len() ==> before[i] == answers[i]);
}

/// A step ends exactly when the end was noted, when nothing is to be sent yet,
/// when the session was complete, or when something failed. It says that the
/// download has ended unless nothing was to be sent yet or the session is ready
/// for the next request; and it hands each failure on as what it is.
pub proof fn law_download_ends<E>(
    params: DownloadParams,
    too_short: E,
    answers: Seq<DownloadAnswer<E>>,
)
    requires
        machine::answered(
            Progress::Pending(Download { params, too_short, step: Step::Cancelled }),
            answers,
        ),
        answers.len() > 0,
    ensures
        ({
            let p = Progress::Pending(Download { params, too_short, step: Step::Cancelled });
            let n = answers.len();
            let last = machine::asked(p, answers).last();
            let chunk = answers[6]->Chunk_0->0;
            let response = answers[14]->Parsed_0->Ok_0;
            let end = match (last, answers.last()) {
                (DownloadAsk::Mark(mark), _) => Some(
                    Ok::<bool, MsgHandlerError<E>>(!(mark is ReadyForNext)),
                ),
                (DownloadAsk::ShouldSendRequest { .. }, DownloadAnswer::Flag(false)) => Some(
                    Ok(false),
                ),
                (DownloadAsk::IsComplete, DownloadAnswer::Flag(true)) => Some(Ok(true)),
                (DownloadAsk::UpdateT1 { .. }, DownloadAnswer::Done) => if response.completion_code
                    == params.success && response.payload_len - params.rsp_fixed_len
                    < chunk.length {
                    Some(Err(MsgHandlerError::Codec(too_short)))
                } else {
                    None
                },
                (_, DownloadAnswer::Wanted(Err(e))) => Some(Err(MsgHandlerError::FdOps(e))),
                (_, DownloadAnswer::Built(Err(MessageError::Util(e)))) => Some(
                    Err(MsgHandlerError::Util(e)),
                ),
                (_, DownloadAnswer::Built(Err(MessageError::Codec(e)))) => Some(
                    Err(MsgHandlerError::Codec(e)),
                ),
                (_, DownloadAnswer::Transport(Err(e))) => Some(
                    Err(MsgHandlerError::Transport(e)),
                ),
                (_, DownloadAnswer::Parsed(Err(MessageError::Util(e)))) => Some(
                    Err(MsgHandlerError::Util(e)),
                ),
                (_, DownloadAnswer::Parsed(Err(MessageError::Codec(e)))) => Some(
                    Err(MsgHandlerError::Codec(e)),
                ),
                (_, DownloadAnswer::Downloaded(Err(e))) => Some(Err(MsgHandlerError::FdOps(e))),
                _ => None,
            };
            match machine::run(p, answers) {
                Progress::Done(out) => end == Some(out),
                Progress::Pending(_) => end is None,
            }
        }),
{
    let p = Progress::Pending(Download { params, too_short, step: Step::Cancelled });
    let before = answers.drop_last();
    lemma_download_run(params, too_short, before);
    lemma_download_answers(params, too_short, before);
    machine::law_runs_step_by_step(p, answers, answers.len() - 1);
    assert(answers.take(answers.len() - 1) =~= before);
    assert(forall|i: int| 0 <= i < before.len() ==> before[i] == answers[i]);
}

} // verus!

//! The transport of vendor-defined messages.

use vstd::prelude::*;

use crate::blocking::UpcallNotification;
use crate::bytes;
use crate::bytes::{copy_prefix, fill_zero};
use crate::error::ErrorCode;
use crate::mctp;
use crate::mctp::{check_header, MctpOp, MessageInfo, ResponseContext};

verus! {

/// Why a message could not be passed on.
#[derive(Copy, Clone, Debug, PartialEq, Eq, Structural)]
pub enum TransportError {
    DriverError,
    BufferTooSmall,
    UnexpectedMessageType,
    ReceiveError,
    SendError,
    NoRequestInFlight,
}

/// The transport: the type of its messages, and the request in flight.
#[derive(Copy, Clone, Debug, PartialEq, Eq)]
pub struct MctpVdmTransport {
    pub driver_num: u32,
    /// The message type that every message must have.
    pub msg_type: u8,
    /// The request that is to be responded to.
    pub cur_resp_ctx: Option<ResponseContext>,
}

/// What is made of a message that the driver has delivered into `msg`: its
/// length and its exchange.
pub open spec fn delivered(
    msg: Seq<u8>,
    msg_type: u8,
    received: Result<(u32, MessageInfo), ErrorCode>,
) -> Result<(usize, MessageInfo), TransportError> {
    match received {
        Err(_) => Err(TransportError::ReceiveError),
        Ok((len, info)) => if len == 0 {
            Err(TransportError::BufferTooSmall)
        } else if !mctp::header_matches(msg, msg_type) {
            Err(TransportError::UnexpectedMessageType)
        } else {
            Ok((len as usize, info))
        },
    }
}

impl MctpVdmTransport {
    /// A transport with no request in flight.
    pub fn new(driver_num: u32, msg_type: u8) -> (t: MctpVdmTransport)
        ensures
            t == (MctpVdmTransport { driver_num, msg_type, cur_resp_ctx: None }),
    {
        MctpVdmTransport { driver_num, msg_type, cur_resp_ctx: None }
    }

    /// Asks whether the driver exists.
    pub fn driver_exists(&self) -> (op: MctpOp)
        ensures
            op == MctpOp::Exists,
    {
        MctpOp::Exists
    }

    /// Waits for a request. The buffer is cleared. What the driver answers
    /// goes to `receive_request_done`.
    pub fn receive_request(&self, req: &mut [u8]) -> (op: MctpOp)
        ensures
            final(req)@ == bytes::zeros(old(req)@.len()),
            op == MctpOp::ReceiveRequest,
    {
        fill_zero(req, 0);
        MctpOp::ReceiveRequest
    }

    /// The transport once a request is in flight.
    pub open spec fn answering(self, ctx: ResponseContext) -> MctpVdmTransport {
        MctpVdmTransport { cur_resp_ctx: Some(ctx), ..self }
    }

    /// The transport after a request has come, or has not.
    pub open spec fn receive_request_done_spec(
        self,
        req: Seq<u8>,
        received: Result<(u32, MessageInfo), ErrorCode>,
    ) -> MctpVdmTransport {
        match delivered(req, self.msg_type, received) {
            Ok((_, info)) => self.answering(ResponseContext::Info(info)),
            Err(_) => self,
        }
    }

    /// Checks the request in the buffer and returns its length. A good one
    /// opens an exchange that a response is owed to.
    pub fn receive_request_done(
        &mut self,
        req: &[u8],
        received: Result<(u32, MessageInfo), ErrorCode>,
    ) -> (r: Result<usize, TransportError>)
        requires
            received matches Ok((len, _)) ==> len > 0 ==> req@.len() > 0,
        ensures
            *final(self) == old(self).receive_request_done_spec(req@, received),
            r == match delivered(req@, old(self).msg_type, received) {
                Ok((len, _)) => Ok::<usize, TransportError>(len),
                Err(e) => Err(e),
            },
    {
        match received {
            Err(_) => Err(TransportError::ReceiveError),
            Ok((len, info)) => {
                if len == 0 {
                    return Err(TransportError::BufferTooSmall);
                }
                if !check_header(req, self.msg_type) {
                    return Err(TransportError::UnexpectedMessageType);
                }
                self.cur_resp_ctx = Some(ResponseContext::Info(info));
                Ok(len as usize)
            },
        }
    }

    /// What sending a response asks for.
    pub open spec fn send_response_spec(self, resp: Seq<u8>) -> Result<MctpOp, TransportError> {
        if resp.len() == 0 {
            Err(TransportError::BufferTooSmall)
        } else if !mctp::header_matches(resp, self.msg_type) {
            Err(TransportError::UnexpectedMessageType)
        } else {
            match self.cur_resp_ctx {
                Some(ctx) => Ok(MctpOp::SendResponse(ctx)),
                None => Err(TransportError::NoRequestInFlight),
            }
        }
    }

    /// Sends the response to the request in flight. An empty message is
    /// refused, one of another type, and one that no request asks for. What
    /// the driver answers goes to `send_response_done`.
    pub fn send_response(&self, resp: &[u8]) -> (r: Result<MctpOp, TransportError>)
        ensures
            r == self.send_response_spec(resp@),
    {
        if resp.len() == 0 {
            return Err(TransportError::BufferTooSmall);
        }
        if !check_header(resp, self.msg_type) {
            return Err(TransportError::UnexpectedMessageType);
        }
        match self.cur_resp_ctx {
            Some(ctx) => Ok(MctpOp::SendResponse(ctx)),
            None => Err(TransportError::NoRequestInFlight),
        }
    }

    /// The transport after a response has been sent, or could not be.
    pub open spec fn send_response_done_spec(
        self,
        sent: Result<(), ErrorCode>,
    ) -> MctpVdmTransport {
        if sent is Ok {
            MctpVdmTransport { cur_resp_ctx: None, ..self }
        } else {
            self
        }
    }

    /// Closes the exchange that a sent response belongs to. If it could not be
    /// sent, the request stays in flight.
    pub fn send_response_done(&mut self, sent: Result<(), ErrorCode>) -> (r: Result<
        (),
        TransportError,
    >)
        ensures
            *final(self) == old(self).send_response_done_spec(sent),
            r == match sent {
                Ok(_) => Ok::<(), TransportError>(()),
                Err(_) => Err(TransportError::SendError),
            },
    {
        match sent {
            Ok(_) => {
                self.cur_resp_ctx = None;
                Ok(())
            },
            Err(_) => Err(TransportError::SendError),
        }
    }

    /// Asks for the largest message that can be sent. What the driver answers
    /// goes to `max_message_size_done`.
    pub fn max_message_size(&self) -> (op: MctpOp)
        ensures
            op == MctpOp::MaxMessageSize,
    {
        MctpOp::MaxMessageSize
    }

    /// The largest message that can be sent.
    pub fn max_message_size_done(reply: Result<u32, ErrorCode>) -> (r: Result<u32, TransportError>)
        ensures
            r == match reply {
                Ok(size) => Ok::<u32, TransportError>(size),
                Err(_) => Err(TransportError::DriverError),
            },
    {
        match reply {
            Ok(size) => Ok(size),
            Err(_) => Err(TransportError::DriverError),
        }
    }

    /// Starts to listen for requests without waiting for one. What the driver
    /// answers goes to `setup_non_blocking_done`.
    pub fn setup_non_blocking(&self) -> (op: MctpOp)
        ensures
            op == MctpOp::SetupReceiveRequest,
    {
        MctpOp::SetupReceiveRequest
    }

    /// Whether listening has started.
    pub fn setup_non_blocking_done(reply: Result<(), ErrorCode>) -> (r: Result<
        (),
        TransportError,
    >)
        ensures
            r == match reply {
                Ok(_) => Ok::<(), TransportError>(()),
                Err(_) => Err(TransportError::DriverError),
            },
    {
        match reply {
            Ok(_) => Ok(()),
            Err(_) => Err(TransportError::DriverError),
        }
    }

    /// Takes over a request that has arrived in the shared buffer, and returns
    /// its length. The first upcall argument is the length, the third encodes
    /// the exchange. Without a request nothing changes.
    pub fn try_receive_from_buffer(
        &mut self,
        notify: &UpcallNotification,
        nb_buf: &[u8],
        msg_buf: &mut [u8],
    ) -> (r: Result<Option<usize>, TransportError>)
        requires
            notify.result matches Some(args) ==> {
                &&& args.0 <= nb_buf@.len()
                &&& args.0 <= old(msg_buf)@.len()
            },
        ensures
            match notify.result {
                None => {
                    &&& r == Ok::<Option<usize>, TransportError>(None)
                    &&& *final(self) == *old(self)
                    &&& final(msg_buf)@ == old(msg_buf)@
                },
                Some(args) => if args.0 == 0 {
                    &&& r == Err::<Option<usize>, TransportError>(TransportError::BufferTooSmall)
                    &&& *final(self) == *old(self)
                    &&& final(msg_buf)@ == old(msg_buf)@
                } else {
                    &&& final(msg_buf)@ == nb_buf@.take(args.0 as int) + bytes::zeros(
                        (old(msg_buf)@.len() - args.0) as nat,
                    )
                    &&& if mctp::header_matches(nb_buf@, old(self).msg_type) {
                        &&& r == Ok::<Option<usize>, TransportError>(Some(args.0 as usize))
                        &&& *final(self) == old(self).answering(ResponseContext::Encoded(args.2))
                    } else {
                        &&& r == Err::<Option<usize>, TransportError>(
                            TransportError::UnexpectedMessageType,
                        )
                        &&& *final(self) == *old(self)
                    }
                },
            },
    {
        if !notify.is_ready() {
            return Ok(None);
        }
        let (recv_len_raw, _, msg_info_raw) = notify.args();
        let recv_len: usize = recv_len_raw as usize;
        if recv_len == 0 {
            return Err(TransportError::BufferTooSmall);
        }
        copy_prefix(msg_buf, nb_buf, recv_len);
        fill_zero(msg_buf, recv_len);
        assert(msg_buf@ =~= nb_buf@.take(recv_len as int) + bytes::zeros(
            (old(msg_buf)@.len() - recv_len) as nat,
        ));
        if !check_header(&*msg_buf, self.msg_type) {
            return Err(TransportError::UnexpectedMessageType);
        }
        self.cur_resp_ctx = Some(ResponseContext::Encoded(msg_info_raw));
        Ok(Some(recv_len))
    }

    /// Listens for the next request. Whether the driver could be asked to does
    /// not matter.
    pub fn rearm(&self, notify: &mut UpcallNotification) -> (op: MctpOp)
        ensures
            final(notify).result is None,
            op == MctpOp::ArmReceiveRequest,
    {
        notify.clear();
        MctpOp::ArmReceiveRequest
    }
}

/// A response goes to the exchange of the request in flight, once: after it has
/// been sent, the next one is refused until another request is received. One
/// that could not be sent can be sent again. A request that the driver delivers
/// is in flight from then on, and so is one taken over from the shared buffer.
pub proof fn law_response_follows_request(
    t: MctpVdmTransport,
    ctx: ResponseContext,
    req: Seq<u8>,
    received: Result<(u32, MessageInfo), ErrorCode>,
    resp: Seq<u8>,
)
    requires
        resp.len() > 0,
        mctp::header_matches(resp, t.msg_type),
    ensures
        ({
            let open = t.answering(ctx);
            let closed = open.send_response_done_spec(Ok(()));
            &&& open.send_response_spec(resp) == Ok::<MctpOp, TransportError>(
                MctpOp::SendResponse(ctx),
            )
            &&& closed.send_response_spec(resp) == Err::<MctpOp, TransportError>(
                TransportError::NoRequestInFlight,
            )
            &&& forall|e: ErrorCode|
                #[trigger] open.send_response_done_spec(Err(e)).send_response_spec(resp)
                    == open.send_response_spec(resp)
        }),
        delivered(req, t.msg_type, received) matches Ok((_, info)) ==> t.receive_request_done_spec(
            req,
            received,
        ) == t.answering(ResponseContext::Info(info)),
{
}

/// What is sent must start with the message type of the transport, and a
/// response also needs a request in flight. Nothing else of a message matters.
pub proof fn law_sent_messages_are_checked(
    t: MctpVdmTransport,
    resp: Seq<u8>,
)
    ensures
        resp.len() == 0 ==> t.send_response_spec(resp) is Err && t.send_response_spec(resp)->Err_0
            == TransportError::BufferTooSmall,
        resp.len() > 0 && !(resp[0] == t.msg_type && t.msg_type < 128) ==> t.send_response_spec(resp) is Err
            && t.send_response_spec(resp)->Err_0 == TransportError::UnexpectedMessageType,
        resp.len() > 0 && resp[0] == t.msg_type && t.msg_type < 128 ==> match t.cur_resp_ctx {
            Some(ctx) => t.send_response_spec(resp) is Ok && t.send_response_spec(resp)->Ok_0
                == MctpOp::SendResponse(ctx),
            None => t.send_response_spec(resp) is Err && t.send_response_spec(resp)->Err_0
                == TransportError::NoRequestInFlight,
        },
{
}

/// A message that was delivered is good exactly if the driver delivered at
/// least one byte and the first one is the message type of the transport. Each
/// other outcome has an error of its own.
pub proof fn law_delivered_messages_are_checked(
    t: MctpVdmTransport,
    msg: Seq<u8>,
    received: Result<(u32, MessageInfo), ErrorCode>,
)
    ensures
        match received {
            Err(_) => delivered(msg, t.msg_type, received) is Err && delivered(
                msg,
                t.msg_type,
                received,
            )->Err_0 == TransportError::ReceiveError,
            Ok((len, info)) => if len == 0 {
                delivered(msg, t.msg_type, received) is Err && delivered(
                    msg,
                    t.msg_type,
                    received,
                )->Err_0 == TransportError::BufferTooSmall
            } else if msg[0] == t.msg_type && t.msg_type < 128 {
                delivered(msg, t.msg_type, received) is Ok && delivered(msg, t.msg_type, received)->Ok_0.1 == info && delivered(
                    msg,
                    t.msg_type,
                    received,
                )->Ok_0.0 == len
            } else {
                delivered(msg, t.msg_type, received) is Err && delivered(
                    msg,
                    t.msg_type,
                    received,
                )->Err_0 == TransportError::UnexpectedMessageType
            },
        },
{
}

/// What each outcome changes of the transport: a good message or a message that
/// was sent opens or closes its own exchange, and nothing else ever changes.
pub proof fn law_exchanges_open_and_close(
    t: MctpVdmTransport,
    msg: Seq<u8>,
    received: Result<(u32, MessageInfo), ErrorCode>,
    sent: Result<(), ErrorCode>,
)
    ensures
        t.receive_request_done_spec(msg, received).cur_resp_ctx == if received is Ok
            && received->Ok_0.0 > 0 && msg[0] == t.msg_type && t.msg_type < 128 {
            Some(ResponseContext::Info(received->Ok_0.1))
        } else {
            t.cur_resp_ctx
        },
        t.receive_request_done_spec(msg, received).driver_num == t.driver_num
            && t.receive_request_done_spec(msg, received).msg_type == t.msg_type,
        t.send_response_done_spec(sent).cur_resp_ctx == if sent is Ok {
            None
        } else {
            t.cur_resp_ctx
        },
        t.send_response_done_spec(sent).driver_num == t.driver_num
            && t.send_response_done_spec(sent).msg_type == t.msg_type,
{
}

/// A request that is in flight changes nothing else of the transport.
pub proof fn law_answering(t: MctpVdmTransport, ctx: ResponseContext)
    ensures
        t.answering(ctx).cur_resp_ctx == Some(ctx),
        t.answering(ctx).driver_num == t.driver_num && t.answering(ctx).msg_type == t.msg_type,
{
}

} // verus!

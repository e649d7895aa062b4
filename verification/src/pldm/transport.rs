//! The message transport of the firmware-update service.

use vstd::prelude::*;

use crate::blocking::UpcallNotification;
use crate::bytes;
use crate::bytes::{copy_prefix, fill_zero};
use crate::error::ErrorCode;
use crate::mctp;
use crate::mctp::{check_header, MctpOp, MessageInfo, ResponseContext};

verus! {

/// The transports that the service can run over.
#[derive(Copy, Clone, Debug, PartialEq, Eq, Structural)]
pub enum PldmTransportType {
    Mctp,
}

/// Why a message could not be passed on.
#[derive(Copy, Clone, Debug, PartialEq, Eq, Structural)]
pub enum TransportError {
    DriverError,
    BufferTooSmall,
    UnexpectedMessageType,
    ReceiveError,
    SendError,
    ResponseNotExpected,
    NoRequestInFlight,
}

/// The transport: the type of its messages, and the exchanges under way.
#[derive(Copy, Clone, Debug, PartialEq, Eq)]
pub struct MctpTransport {
    pub driver_num: u32,
    /// The message type that every message must have.
    pub msg_type: u8,
    /// The request that is to be responded to.
    pub cur_resp_ctx: Option<ResponseContext>,
    /// The request whose response is awaited.
    pub cur_req_ctx: Option<MessageInfo>,
}

/// What is made of a message that the driver has delivered into `msg`.
pub open spec fn delivered(
    msg: Seq<u8>,
    msg_type: u8,
    received: Result<(u32, MessageInfo), ErrorCode>,
) -> Result<MessageInfo, TransportError> {
    match received {
        Err(_) => Err(TransportError::ReceiveError),
        Ok((len, info)) => if len == 0 {
            Err(TransportError::BufferTooSmall)
        } else if !mctp::header_matches(msg, msg_type) {
            Err(TransportError::UnexpectedMessageType)
        } else {
            Ok(info)
        },
    }
}

fn check_delivered(
    msg: &[u8],
    msg_type: u8,
    received: Result<(u32, MessageInfo), ErrorCode>,
) -> (r: Result<MessageInfo, TransportError>)
    requires
        received matches Ok((len, _)) ==> len > 0 ==> msg@.len() > 0,
    ensures
        r == delivered(msg@, msg_type, received),
{
    match received {
        Err(_) => Err(TransportError::ReceiveError),
        Ok((len, info)) => {
            if len == 0 {
                return Err(TransportError::BufferTooSmall);
            }
            if !check_header(msg, msg_type) {
                return Err(TransportError::UnexpectedMessageType);
            }
            Ok(info)
        },
    }
}

impl MctpTransport {
    /// A transport with no exchange under way.
    pub fn new(driver_num: u32, msg_type: u8) -> (t: MctpTransport)
        ensures
            t == (MctpTransport { driver_num, msg_type, cur_resp_ctx: None, cur_req_ctx: None }),
    {
        MctpTransport { driver_num, msg_type, cur_resp_ctx: None, cur_req_ctx: None }
    }

    /// What sending a request asks for.
    pub open spec fn send_request_spec(self, dest_eid: u8, req: Seq<u8>) -> Result<
        MctpOp,
        TransportError,
    > {
        if mctp::header_matches(req, self.msg_type) {
            Ok(MctpOp::SendRequest { dest_eid })
        } else {
            Err(TransportError::UnexpectedMessageType)
        }
    }

    /// Sends a request. A message of another type is refused. What the driver
    /// answers goes to `send_request_done`.
    pub fn send_request(&self, dest_eid: u8, req: &[u8]) -> (r: Result<MctpOp, TransportError>)
        requires
            req@.len() > 0,
        ensures
            r == self.send_request_spec(dest_eid, req@),
    {
        if !check_header(req, self.msg_type) {
            return Err(TransportError::UnexpectedMessageType);
        }
        Ok(MctpOp::SendRequest { dest_eid })
    }

    /// The transport after a request has been sent, or could not be.
    pub open spec fn send_request_done_spec(
        self,
        dest_eid: u8,
        sent: Result<u8, ErrorCode>,
    ) -> MctpTransport {
        match sent {
            Ok(tag) => MctpTransport {
                cur_req_ctx: Some(MessageInfo { eid: dest_eid, tag }),
                ..self
            },
            Err(_) => self,
        }
    }

    /// Notes the exchange that a sent request has opened.
    pub fn send_request_done(&mut self, dest_eid: u8, sent: Result<u8, ErrorCode>) -> (r: Result<
        (),
        TransportError,
    >)
        ensures
            *final(self) == old(self).send_request_done_spec(dest_eid, sent),
            r == match sent {
                Ok(_) => Ok::<(), TransportError>(()),
                Err(_) => Err(TransportError::SendError),
            },
    {
        match sent {
            Ok(tag) => {
                self.cur_req_ctx = Some(MessageInfo { eid: dest_eid, tag });
                Ok(())
            },
            Err(_) => Err(TransportError::SendError),
        }
    }

    /// What waiting for a response asks for.
    pub open spec fn receive_response_spec(self) -> Result<MctpOp, TransportError> {
        match self.cur_req_ctx {
            Some(info) => Ok(MctpOp::ReceiveResponse { tag: info.tag, eid: info.eid }),
            None => Err(TransportError::ResponseNotExpected),
        }
    }

    /// Waits for the response to the request that was sent. The buffer is
    /// cleared. What the driver answers goes to `receive_response_done`.
    pub fn receive_response(&self, rsp: &mut [u8]) -> (r: Result<MctpOp, TransportError>)
        ensures
            final(rsp)@ == bytes::zeros(old(rsp)@.len()),
            r == self.receive_response_spec(),
    {
        fill_zero(rsp, 0);
        match self.cur_req_ctx {
            Some(info) => Ok(MctpOp::ReceiveResponse { tag: info.tag, eid: info.eid }),
            None => Err(TransportError::ResponseNotExpected),
        }
    }

    /// The transport after a response has come, or has not.
    pub open spec fn receive_response_done_spec(
        self,
        rsp: Seq<u8>,
        received: Result<(u32, MessageInfo), ErrorCode>,
    ) -> MctpTransport {
        if delivered(rsp, self.msg_type, received) is Ok {
            MctpTransport { cur_req_ctx: None, ..self }
        } else {
            self
        }
    }

    /// Checks the response in the buffer. A good one closes the exchange; with
    /// any other the response is still awaited.
    pub fn receive_response_done(
        &mut self,
        rsp: &[u8],
        received: Result<(u32, MessageInfo), ErrorCode>,
    ) -> (r: Result<(), TransportError>)
        requires
            received matches Ok((len, _)) ==> len > 0 ==> rsp@.len() > 0,
        ensures
            *final(self) == old(self).receive_response_done_spec(rsp@, received),
            r == match delivered(rsp@, old(self).msg_type, received) {
                Ok(_) => Ok::<(), TransportError>(()),
                Err(e) => Err(e),
            },
    {
        match check_delivered(rsp, self.msg_type, received) {
            Err(e) => Err(e),
            Ok(_) => {
                self.cur_req_ctx = None;
                Ok(())
            },
        }
    }

    /// Waits for a request. The buffer is cleared. What the driver answers
    /// goes to `receive_request_done`.
    pub fn receive_request(&self, req: &mut [u8]) -> (op: MctpOp)
        ensures
            final(req)@ == bytes::zeros(old(req)@.len()),
            op == MctpOp::ReceiveRequest,
    {
        fill_zero(req, 0);
        MctpOp::ReceiveRequest
    }

    /// The transport once a request is in flight.
    pub open spec fn answering(self, ctx: ResponseContext) -> MctpTransport {
        MctpTransport { cur_resp_ctx: Some(ctx), ..self }
    }

    /// The transport after a request has come, or has not.
    pub open spec fn receive_request_done_spec(
        self,
        req: Seq<u8>,
        received: Result<(u32, MessageInfo), ErrorCode>,
    ) -> MctpTransport {
        match delivered(req, self.msg_type, received) {
            Ok(info) => self.answering(ResponseContext::Info(info)),
            Err(_) => self,
        }
    }

    /// Checks the request in the buffer. A good one opens an exchange that a
    /// response is owed to.
    pub fn receive_request_done(
        &mut self,
        req: &[u8],
        received: Result<(u32, MessageInfo), ErrorCode>,
    ) -> (r: Result<(), TransportError>)
        requires
            received matches Ok((len, _)) ==> len > 0 ==> req@.len() > 0,
        ensures
            *final(self) == old(self).receive_request_done_spec(req@, received),
            r == match delivered(req@, old(self).msg_type, received) {
                Ok(_) => Ok::<(), TransportError>(()),
                Err(e) => Err(e),
            },
    {
        match check_delivered(req, self.msg_type, received) {
            Err(e) => Err(e),
            Ok(info) => {
                self.cur_resp_ctx = Some(ResponseContext::Info(info));
                Ok(())
            },
        }
    }

    /// What sending a response asks for.
    pub open spec fn send_response_spec(self, resp: Seq<u8>) -> Result<MctpOp, TransportError> {
        if !mctp::header_matches(resp, self.msg_type) {
            Err(TransportError::UnexpectedMessageType)
        } else {
            match self.cur_resp_ctx {
                Some(ctx) => Ok(MctpOp::SendResponse(ctx)),
                None => Err(TransportError::NoRequestInFlight),
            }
        }
    }

    /// Sends the response to the request in flight. A message of another type
    /// is refused, and so is one that no request asks for. What the driver
    /// answers goes to `send_response_done`.
    pub fn send_response(&self, resp: &[u8]) -> (r: Result<MctpOp, TransportError>)
        requires
            resp@.len() > 0,
        ensures
            r == self.send_response_spec(resp@),
    {
        if !check_header(resp, self.msg_type) {
            return Err(TransportError::UnexpectedMessageType);
        }
        match self.cur_resp_ctx {
            Some(ctx) => Ok(MctpOp::SendResponse(ctx)),
            None => Err(TransportError::NoRequestInFlight),
        }
    }

    /// The transport after a response has been sent, or could not be.
    pub open spec fn send_response_done_spec(self, sent: Result<(), ErrorCode>) -> MctpTransport {
        if sent is Ok {
            MctpTransport { cur_resp_ctx: None, ..self }
        } else {
            self
        }
    }

    /// Closes the exchange that a sent response belongs to. If it could not be
    /// sent, the request stays in flight.
    pub fn send_response_done(&mut self, sent: Result<(), ErrorCode>) -> (r: Result<
        (),
        TransportError,
    >)
        ensures
            *final(self) == old(self).send_response_done_spec(sent),
            r == match sent {
                Ok(_) => Ok::<(), TransportError>(()),
                Err(_) => Err(TransportError::SendError),
            },
    {
        match sent {
            Ok(_) => {
                self.cur_resp_ctx = None;
                Ok(())
            },
            Err(_) => Err(TransportError::SendError),
        }
    }

    /// Starts to listen for requests without waiting for one. What the driver
    /// answers goes to `setup_non_blocking_done`.
    pub fn setup_non_blocking(&self) -> (op: MctpOp)
        ensures
            op == MctpOp::SetupReceiveRequest,
    {
        MctpOp::SetupReceiveRequest
    }

    /// Whether listening has started.
    pub fn setup_non_blocking_done(reply: Result<(), ErrorCode>) -> (r: Result<
        (),
        TransportError,
    >)
        ensures
            r == match reply {
                Ok(_) => Ok::<(), TransportError>(()),
                Err(_) => Err(TransportError::DriverError),
            },
    {
        match reply {
            Ok(_) => Ok(()),
            Err(_) => Err(TransportError::DriverError),
        }
    }

    /// Takes over a request that has arrived in the shared buffer. The first
    /// upcall argument is its length, the third encodes its exchange. Without
    /// a request nothing changes.
    pub fn try_receive_from_buffer(
        &mut self,
        notify: &UpcallNotification,
        nb_buf: &[u8],
        msg_buf: &mut [u8],
    ) -> (r: Result<Option<()>, TransportError>)
        requires
            notify.result matches Some(args) ==> {
                &&& args.0 <= nb_buf@.len()
                &&& args.0 <= old(msg_buf)@.len()
            },
        ensures
            match notify.result {
                None => {
                    &&& r == Ok::<Option<()>, TransportError>(None)
                    &&& *final(self) == *old(self)
                    &&& final(msg_buf)@ == old(msg_buf)@
                },
                Some(args) => if args.0 == 0 {
                    &&& r == Err::<Option<()>, TransportError>(TransportError::BufferTooSmall)
                    &&& *final(self) == *old(self)
                    &&& final(msg_buf)@ == old(msg_buf)@
                } else {
                    &&& final(msg_buf)@ == nb_buf@.take(args.0 as int) + bytes::zeros(
                        (old(msg_buf)@.len() - args.0) as nat,
                    )
                    &&& if mctp::header_matches(nb_buf@, old(self).msg_type) {
                        &&& r == Ok::<Option<()>, TransportError>(Some(()))
                        &&& *final(self) == old(self).answering(ResponseContext::Encoded(args.2))
                    } else {
                        &&& r == Err::<Option<()>, TransportError>(
                            TransportError::UnexpectedMessageType,
                        )
                        &&& *final(self) == *old(self)
                    }
                },
            },
    {
        if !notify.is_ready() {
            return Ok(None);
        }
        let (recv_len_raw, _, msg_info_raw) = notify.args();
        let recv_len: usize = recv_len_raw as usize;
        if recv_len == 0 {
            return Err(TransportError::BufferTooSmall);
        }
        copy_prefix(msg_buf, nb_buf, recv_len);
        fill_zero(msg_buf, recv_len);
        assert(msg_buf@ =~= nb_buf@.take(recv_len as int) + bytes::zeros(
            (old(msg_buf)@.len() - recv_len) as nat,
        ));
        if !check_header(&*msg_buf, self.msg_type) {
            return Err(TransportError::UnexpectedMessageType);
        }
        self.cur_resp_ctx = Some(ResponseContext::Encoded(msg_info_raw));
        Ok(Some(()))
    }

    /// Listens for the next request. Whether the driver could be asked to does
    /// not matter.
    pub fn rearm(&self, notify: &mut UpcallNotification) -> (op: MctpOp)
        ensures
            final(notify).result is None,
            op == MctpOp::ArmReceiveRequest,
    {
        notify.clear();
        MctpOp::ArmReceiveRequest
    }
}

/// A response goes to the exchange of the request in flight, once: after it has
/// been sent, the next one is refused until another request is received. One
/// that could not be sent can be sent again. A request that the driver delivers
/// is in flight from then on, and so is one taken over from the shared buffer.
pub proof fn law_response_follows_request(
    t: MctpTransport,
    ctx: ResponseContext,
    req: Seq<u8>,
    received: Result<(u32, MessageInfo), ErrorCode>,
    resp: Seq<u8>,
)
    requires
        mctp::header_matches(resp, t.msg_type),
    ensures
        ({
            let open = t.answering(ctx);
            let closed = open.send_response_done_spec(Ok(()));
            &&& open.send_response_spec(resp) == Ok::<MctpOp, TransportError>(
                MctpOp::SendResponse(ctx),
            )
            &&& closed.send_response_spec(resp) == Err::<MctpOp, TransportError>(
                TransportError::NoRequestInFlight,
            )
            &&& forall|e: ErrorCode|
                #[trigger] open.send_response_done_spec(Err(e)).send_response_spec(resp)
                    == open.send_response_spec(resp)
        }),
        delivered(req, t.msg_type, received) matches Ok(info) ==> t.receive_request_done_spec(
            req,
            received,
        ) == t.answering(ResponseContext::Info(info)),
{
}

/// A response is awaited from the peer and under the tag of the request that
/// was sent, until a good one has come.
pub proof fn law_request_awaits_response(
    t: MctpTransport,
    dest_eid: u8,
    tag: u8,
    rsp: Seq<u8>,
    received: Result<(u32, MessageInfo), ErrorCode>,
)
    ensures
        ({
            let sent = t.send_request_done_spec(dest_eid, Ok(tag));
            let after = sent.receive_response_done_spec(rsp, received);
            &&& sent.receive_response_spec() == Ok::<MctpOp, TransportError>(
                MctpOp::ReceiveResponse { tag, eid: dest_eid },
            )
            &&& after.receive_response_spec() == if delivered(rsp, t.msg_type, received) is Ok {
                Err::<MctpOp, TransportError>(TransportError::ResponseNotExpected)
            } else {
                sent.receive_response_spec()
            }
        }),
{
}

/// Requests and responses of the two directions do not disturb each other.
pub proof fn law_directions_are_independent(
    t: MctpTransport,
    dest_eid: u8,
    sent: Result<u8, ErrorCode>,
    msg: Seq<u8>,
    received: Result<(u32, MessageInfo), ErrorCode>,
    responded: Result<(), ErrorCode>,
)
    ensures
        t.send_request_done_spec(dest_eid, sent).cur_resp_ctx == t.cur_resp_ctx,
        t.receive_response_done_spec(msg, received).cur_resp_ctx == t.cur_resp_ctx,
        t.receive_request_done_spec(msg, received).cur_req_ctx == t.cur_req_ctx,
        t.send_response_done_spec(responded).cur_req_ctx == t.cur_req_ctx,
{
}

/// What is sent must start with the message type of the transport, and a
/// response also needs a request in flight. Nothing else of a message matters.
pub proof fn law_sent_messages_are_checked(
    t: MctpTransport,
    dest_eid: u8,
    resp: Seq<u8>,
)
    ensures
        ({
            let r = t.send_request_spec(dest_eid, resp);
            if resp[0] == t.msg_type && t.msg_type < 128 {
                r is Ok && r->Ok_0 == (MctpOp::SendRequest { dest_eid })
            } else {
                r is Err && r->Err_0 == TransportError::UnexpectedMessageType
            }
        }),
        !(resp[0] == t.msg_type && t.msg_type < 128) ==> t.send_response_spec(resp) is Err
            && t.send_response_spec(resp)->Err_0 == TransportError::UnexpectedMessageType,
        resp[0] == t.msg_type && t.msg_type < 128 ==> match t.cur_resp_ctx {
            Some(ctx) => t.send_response_spec(resp) is Ok && t.send_response_spec(resp)->Ok_0
                == MctpOp::SendResponse(ctx),
            None => t.send_response_spec(resp) is Err && t.send_response_spec(resp)->Err_0
                == TransportError::NoRequestInFlight,
        },
{
}

/// A message that was delivered is good exactly if the driver delivered at
/// least one byte and the first one is the message type of the transport. Each
/// other outcome has an error of its own.
pub proof fn law_delivered_messages_are_checked(
    t: MctpTransport,
    msg: Seq<u8>,
    received: Result<(u32, MessageInfo), ErrorCode>,
)
    ensures
        match received {
            Err(_) => delivered(msg, t.msg_type, received) is Err && delivered(
                msg,
                t.msg_type,
                received,
            )->Err_0 == TransportError::ReceiveError,
            Ok((len, info)) => if len == 0 {
                delivered(msg, t.msg_type, received) is Err && delivered(
                    msg,
                    t.msg_type,
                    received,
                )->Err_0 == TransportError::BufferTooSmall
            } else if msg[0] == t.msg_type && t.msg_type < 128 {
                delivered(msg, t.msg_type, received) is Ok && delivered(msg, t.msg_type, received)->Ok_0 == info
            } else {
                delivered(msg, t.msg_type, received) is Err && delivered(
                    msg,
                    t.msg_type,
                    received,
                )->Err_0 == TransportError::UnexpectedMessageType
            },
        },
{
}

/// What each outcome changes of the transport: a good message or a message that
/// was sent opens or closes its own exchange, and nothing else ever changes.
pub proof fn law_exchanges_open_and_close(
    t: MctpTransport,
    dest_eid: u8,
    sent_request: Result<u8, ErrorCode>,
    msg: Seq<u8>,
    received: Result<(u32, MessageInfo), ErrorCode>,
    sent: Result<(), ErrorCode>,
)
    ensures
        t.send_request_done_spec(dest_eid, sent_request).cur_req_ctx == match sent_request {
            Ok(tag) => Some(MessageInfo { eid: dest_eid, tag }),
            Err(_) => t.cur_req_ctx,
        },
        t.send_request_done_spec(dest_eid, sent_request).driver_num == t.driver_num
            && t.send_request_done_spec(dest_eid, sent_request).msg_type == t.msg_type,
        t.receive_response_done_spec(msg, received).cur_req_ctx == if received is Ok && received->Ok_0.0 > 0 && msg[0]
            == t.msg_type && t.msg_type < 128 {
            None
        } else {
            t.cur_req_ctx
        },
        t.receive_response_done_spec(msg, received).driver_num == t.driver_num
            && t.receive_response_done_spec(msg, received).msg_type == t.msg_type,
        t.receive_request_done_spec(msg, received).cur_resp_ctx == if received is Ok
            && received->Ok_0.0 > 0 && msg[0] == t.msg_type && t.msg_type < 128 {
            Some(ResponseContext::Info(received->Ok_0.1))
        } else {
            t.cur_resp_ctx
        },
        t.receive_request_done_spec(msg, received).driver_num == t.driver_num
            && t.receive_request_done_spec(msg, received).msg_type == t.msg_type,
        t.send_response_done_spec(sent).cur_resp_ctx == if sent is Ok {
            None
        } else {
            t.cur_resp_ctx
        },
        t.send_response_done_spec(sent).driver_num == t.driver_num
            && t.send_response_done_spec(sent).msg_type == t.msg_type,
{
}

/// A request that is in flight changes nothing else of the transport.
pub proof fn law_answering(t: MctpTransport, ctx: ResponseContext)
    ensures
        t.answering(ctx).cur_resp_ctx == Some(ctx),
        t.answering(ctx).driver_num == t.driver_num && t.answering(ctx).msg_type == t.msg_type,
        t.answering(ctx).cur_req_ctx == t.cur_req_ctx,
{
}

/// A response is awaited exactly while a request is, from its peer and under
/// its tag.
pub proof fn law_response_awaited(t: MctpTransport)
    ensures
        match t.cur_req_ctx {
            Some(info) => {
                &&& t.receive_response_spec() matches Ok(MctpOp::ReceiveResponse { tag, eid })
                &&& tag == info.tag && eid == info.eid
            },
            None => t.receive_response_spec() is Err && t.receive_response_spec()->Err_0
                == TransportError::ResponseNotExpected,
        },
{
}

} // verus!

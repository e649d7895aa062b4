//! What the message transports share: the common header of a message, and the
//! requests to the message driver.

use vstd::prelude::*;

verus! {

/// Where the common header stands in a message.
pub const MCTP_COMMON_HEADER_OFFSET: usize = 0;

/// The first byte of a message: the top bit says whether an integrity check
/// follows the message, the other seven give the message type.
#[derive(Copy, Clone, Debug, PartialEq, Eq, Structural)]
pub struct MctpCommonHeader(pub u8);

/// The integrity-check bit of a header byte.
pub open spec fn header_ic(byte: u8) -> u8 {
    byte / 128
}

/// The message type of a header byte.
pub open spec fn header_msg_type(byte: u8) -> u8 {
    byte % 128
}

/// Whether a message starts with a header of the type, without integrity
/// check.
pub open spec fn header_matches(msg: Seq<u8>, msg_type: u8) -> bool {
    let byte = msg[MCTP_COMMON_HEADER_OFFSET as int];
    header_ic(byte) == 0 && header_msg_type(byte) == msg_type
}

impl MctpCommonHeader {
    /// The integrity-check bit.
    pub fn ic(&self) -> (ic: u8)
        ensures
            ic == header_ic(self.0),
    {
        self.0 / 128
    }

    /// The message type.
    pub fn msg_type(&self) -> (msg_type: u8)
        ensures
            msg_type == header_msg_type(self.0),
    {
        self.0 % 128
    }
}

/// Checks the common header of a message.
pub fn check_header(msg: &[u8], msg_type: u8) -> (ok: bool)
    requires
        msg@.len() > MCTP_COMMON_HEADER_OFFSET,
    ensures
        ok == header_matches(msg@, msg_type),
{
    let header = MctpCommonHeader(msg[MCTP_COMMON_HEADER_OFFSET]);
    header.ic() == 0 && header.msg_type() == msg_type
}

/// The peer and the tag of an exchange.
#[derive(Copy, Clone, Debug, PartialEq, Eq, Structural)]
pub struct MessageInfo {
    pub eid: u8,
    pub tag: u8,
}

/// The exchange that a response belongs to.
#[derive(Copy, Clone, Debug, PartialEq, Eq, Structural)]
pub enum ResponseContext {
    /// As the driver reported it.
    Info(MessageInfo),
    /// As an upcall argument encodes it.
    Encoded(u32),
}

/// A request to the message driver.
#[derive(Copy, Clone, Debug, PartialEq, Eq, Structural)]
pub enum MctpOp {
    /// Whether the driver exists.
    Exists,
    /// The largest message that can be sent.
    MaxMessageSize,
    /// Send a request; the tag of the exchange comes back.
    SendRequest { dest_eid: u8 },
    /// Wait for the response of an exchange.
    ReceiveResponse { tag: u8, eid: u8 },
    /// Wait for a request.
    ReceiveRequest,
    /// Send the response of an exchange.
    SendResponse(ResponseContext),
    /// Listen for a request without waiting.
    SetupReceiveRequest,
    /// Listen for the next request.
    ArmReceiveRequest,
}

/// The two fields make up the header byte.
pub proof fn law_header_fields(byte: u8)
    ensures
        header_ic(byte) * 128 + header_msg_type(byte) == byte,
        header_ic(byte) <= 1,
        header_msg_type(byte) < 128,
{
}

/// A message is of a type exactly if its first byte is that type itself. What
/// follows the first byte does not matter, and no type has its top bit set.
pub proof fn law_header_matches(msg: Seq<u8>, msg_type: u8)
    ensures
        header_matches(msg, msg_type) <==> msg[0] == msg_type && msg_type < 128,
{
}

} // verus!

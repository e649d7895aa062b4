//! What attestation messages are carried by.

use vstd::prelude::*;

use crate::error::ErrorCode;
use crate::kernel::UpcallArgs;

verus! {

/// What a transport returns. `C` stands for the errors of the message format.
pub type TransportResult<T, C> = Result<T, TransportError<C>>;

/// Why a message could not be passed on.
#[derive(Debug, PartialEq, Eq)]
pub enum TransportError<C> {
    DriverError(ErrorCode),
    Codec(C),
    UnexpectedMessageType,
    UnsupportedMessageType,
    ResponseNotExpected,
    NoRequestInFlight,
    InvalidMessage,
    OperationNotSupported,
}

/// A transport of messages that are held in buffers of the type `Msg`.
pub trait SpdmTransport: Sized {
    /// A buffer with a message.
    type Msg;

    /// The errors of the message format.
    type CodecError;

    /// Sends a request.
    fn send_request(&mut self, dest_eid: u8, req: &mut Self::Msg, secure: Option<bool>) -> (r:
        TransportResult<(), Self::CodecError>);

    /// Waits for a response. Returns whether it is secured.
    fn receive_response(&mut self, rsp: &mut Self::Msg) -> (r: TransportResult<
        bool,
        Self::CodecError,
    >);

    /// Waits for a request. Returns whether it is secured.
    fn receive_request(&mut self, req: &mut Self::Msg) -> (r: TransportResult<
        bool,
        Self::CodecError,
    >);

    /// Sends the response to the request in flight.
    fn send_response(&mut self, resp: &mut Self::Msg, secure: bool) -> (r: TransportResult<
        (),
        Self::CodecError,
    >);

    /// The largest message that can be sent.
    fn max_message_size(&self) -> (r: TransportResult<usize, Self::CodecError>);

    /// The size of what the transport puts in front of a message.
    fn header_size(&self) -> (size: usize);

    /// The size of the sequence number of a secured message. By default there
    /// is none.
    fn sequence_num_size_bytes(&self) -> (size: usize)
        default_ensures
            size == 0,
    {
        0
    }

    /// The size of the random data of a secured message. By default there are
    /// none.
    fn random_data_size_bytes(&self) -> (size: usize)
        default_ensures
            size == 0,
    {
        0
    }

    /// Takes a request over from the buffer that is shared with the kernel.
    /// `_upcall_args` are the arguments of the upcall that told of it. Returns
    /// whether the request is secured. By default this is not supported.
    fn receive_from_buffer(
        &mut self,
        _req: &mut Self::Msg,
        _nb_buf: &[u8],
        _upcall_args: UpcallArgs,
    ) -> (r: TransportResult<bool, Self::CodecError>)
        default_ensures
            r == Err::<bool, TransportError<Self::CodecError>>(
                TransportError::OperationNotSupported,
            ),
            *final(self) == *old(self),
            *final(_req) == *old(_req),
    {
        Err(TransportError::OperationNotSupported)
    }

    /// Listens for the next request. By default this is not supported.
    fn rearm_receive(&self) -> (r: TransportResult<(), Self::CodecError>)
        default_ensures
            r == Err::<(), TransportError<Self::CodecError>>(
                TransportError::OperationNotSupported,
            ),
    {
        Err(TransportError::OperationNotSupported)
    }
}

} // verus!

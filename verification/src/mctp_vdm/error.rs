//! Errors of the vendor-defined message library.

use vstd::prelude::*;

use crate::mctp_vdm::transport::TransportError;

verus! {

/// Errors that can occur in the library.
#[derive(Clone, Copy, PartialEq, Eq, Structural)]
pub enum VdmLibError {
    /// Transport error occurred.
    TransportError,
    /// Invalid request received.
    InvalidRequest,
    /// Invalid command code.
    InvalidCommand,
    /// Buffer too small.
    BufferTooSmall,
    /// Command handler error.
    CommandHandlerError,
    /// Encoding error.
    EncodingError,
    /// Decoding error.
    DecodingError,
    /// Service not ready.
    NotReady,
    /// Internal error.
    InternalError,
}

impl VdmLibError {
    /// The text that stands for the error in messages.
    pub fn debug_text(&self) -> (text: &'static str)
        ensures
            text@ == "VdmLibError"@,
    {
        "VdmLibError"
    }
}

impl From<TransportError> for VdmLibError {
    fn from(_error: TransportError) -> (e: VdmLibError) {
        VdmLibError::TransportError
    }
}

impl vstd::std_specs::convert::FromSpecImpl<TransportError> for VdmLibError {
    open spec fn obeys_from_spec() -> bool {
        true
    }

    open spec fn from_spec(_error: TransportError) -> VdmLibError {
        VdmLibError::TransportError
    }
}

/// Every error of the transport becomes the one error for the transport.
pub proof fn law_transport_errors(error: TransportError)
    ensures
        <VdmLibError as vstd::std_specs::convert::FromSpec<TransportError>>::from_spec(error)
            == VdmLibError::TransportError,
{
}

} // verus!

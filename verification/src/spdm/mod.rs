//! Attestation.

pub mod responder;
pub mod transport;

//! Vendor-defined messages.

pub mod error;
pub mod transport;

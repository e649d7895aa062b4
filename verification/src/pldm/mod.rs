//! The firmware update service.

pub mod daemon;
pub mod download;
pub mod timer;
pub mod transport;

//! The service behind the mailbox.

pub mod fips_periodic;
pub mod transport;

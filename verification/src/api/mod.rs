//! What the applications use.

pub mod error;
pub mod pldm_client;

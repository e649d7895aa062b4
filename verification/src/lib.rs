//! Userspace services of a small management controller: blocking system-call
//! sequences, device drivers built on them, message transports, and the
//! service loops of a firmware-update and attestation responder.
//!
//! Nothing here performs input or output. A function that would have to talk
//! to the kernel or to a peer is a [`machine::Machine`]: it says what it asks
//! for next and is resumed with the answer.

pub mod api;
pub mod blocking;
pub mod bytes;
pub mod error;
pub mod kernel;
pub mod machine;
pub mod mbox;
pub mod mctp;
pub mod mctp_vdm;
pub mod pldm;
pub mod spdm;
pub mod syscall;
pub mod user;

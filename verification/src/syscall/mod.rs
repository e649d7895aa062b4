//! Drivers of the kernel's devices.

pub mod dma;
pub mod flash;
pub mod logging;
pub mod mailbox;
pub mod mcu_mbox;

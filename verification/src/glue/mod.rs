//! What the register capture and restore routines of each architecture
//! compute: the register file of the frame that called the capture routine,
//! and the register block that the restore routine loads.

pub mod aarch64;
pub mod x86_64;

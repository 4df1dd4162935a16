//! A DWARF call-frame unwinder with machine-checked contracts.
//!
//! The crate walks caller frames by interpreting the call frame information
//! of the loaded objects. Memory is handed in as a snapshot (`Memory`), the
//! `.eh_frame` and `.eh_frame_hdr` sections are decoded by `gimli`, and every
//! decision taken on top of the decoded tables is verified.

pub mod cfi;
pub mod error;
pub mod find_cfi;
pub mod frames;
pub mod glue;
pub mod libunwind_shim;
pub mod memory;
pub mod range;
pub mod registers;
pub mod unwinder;

pub use error::UnwindError;
pub use find_cfi::EhRef;
pub use frames::{StackFrame, StackFrames};
pub use memory::Memory;
pub use range::AddrRange;
pub use registers::{Arch, DwarfRegisterAArch64, DwarfRegisterAMD64, Registers};
pub use unwinder::DwarfUnwinder;

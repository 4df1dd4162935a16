//! Why a frame cannot be unwound.

use vstd::prelude::*;

verus! {

#[derive(Debug, Clone, Copy, PartialEq, Eq, Structural)]
pub enum UnwindError {
    /// No object covers the address, or no entry or table row of the object
    /// that covers it does.
    NoUnwindInfoForAddress,
    /// A search header or a frame description could not be decoded.
    Parse,
    /// A rule is given as a DWARF expression; expressions are not evaluated.
    Unimplemented,
    /// The rule for the canonical frame address rests on a register whose
    /// value is not known.
    MissingRegister,
    /// A rule names a register that the register file has no slot for, or is
    /// of a kind that is not allowed in a call frame table.
    InvalidRule,
    /// A rule or an indirect pointer refers to memory that the snapshot does
    /// not hold, or the snapshot lacks the unwind data of the object.
    UnmappedAddress,
}

} // verus!

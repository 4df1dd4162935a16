//! Where the call frame information of the loaded objects lies.

use crate::range::AddrRange;
use vstd::prelude::*;

pub mod baremetal;
pub mod ld;
pub mod macos;

verus! {

/// The unwind data of one loaded object.
#[derive(Debug, Clone, Copy, PartialEq, Eq, Structural)]
pub enum EhRef {
    /// An object with a search header. The header holds an encoded pointer to
    /// the start of `.eh_frame`; `eh_frame_end` is an upper bound of its end.
    WithHeader { text: AddrRange, eh_frame_hdr: AddrRange, eh_frame_end: u64 },
    /// An object whose `.eh_frame` is given directly and has no search header.
    WithoutHeader { text: AddrRange, eh_frame: AddrRange },
}

impl EhRef {
    /// The range of the object's code.
    pub open spec fn spec_text(self) -> AddrRange {
        match self {
            EhRef::WithHeader { text, .. } => text,
            EhRef::WithoutHeader { text, .. } => text,
        }
    }

    pub fn text(&self) -> (r: AddrRange)
        ensures
            r == self.spec_text(),
    {
        match self {
            EhRef::WithHeader { text, .. } => *text,
            EhRef::WithoutHeader { text, .. } => *text,
        }
    }
}

} // verus!

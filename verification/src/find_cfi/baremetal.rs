//! A single statically linked image, described by the addresses of the
//! symbols that its linker script defines.

use crate::find_cfi::EhRef;
use crate::range::AddrRange;
use vstd::prelude::*;

verus! {

/// The addresses of the linker-provided symbols.
#[derive(Debug, Clone, Copy, PartialEq, Eq, Structural)]
pub struct LinkerSymbols {
    pub text_start: u64,
    pub text_end: u64,
    pub eh_frame_hdr_start: u64,
    pub eh_frame_hdr_end: u64,
    pub eh_frame_end: u64,
}

/// The one record of the image.
pub open spec fn image_eh_ref(symbols: LinkerSymbols) -> EhRef {
    EhRef::WithHeader {
        text: AddrRange { start: symbols.text_start, end: symbols.text_end },
        eh_frame_hdr: AddrRange {
            start: symbols.eh_frame_hdr_start,
            end: symbols.eh_frame_hdr_end,
        },
        eh_frame_end: symbols.eh_frame_end,
    }
}

/// The records of the image: exactly one, with a search header.
pub fn find_cfi_sections(symbols: &LinkerSymbols) -> (cfi: Vec<EhRef>)
    ensures
        cfi@ == seq![image_eh_ref(*symbols)],
{
    let mut cfi: Vec<EhRef> = Vec::new();
    let text = AddrRange { start: symbols.text_start, end: symbols.text_end };
    let eh_frame_hdr = AddrRange {
        start: symbols.eh_frame_hdr_start,
        end: symbols.eh_frame_hdr_end,
    };
    cfi.push(EhRef::WithHeader { text, eh_frame_hdr, eh_frame_end: symbols.eh_frame_end });
    assert(cfi@ =~= seq![image_eh_ref(*symbols)]);
    cfi
}

} // verus!

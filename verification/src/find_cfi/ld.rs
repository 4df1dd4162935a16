//! Objects loaded by a dynamic linker, described by their program headers.

use crate::find_cfi::EhRef;
use crate::range::AddrRange;
use vstd::prelude::*;

verus! {

/// The type of a loadable segment.
pub const PT_LOAD: u32 = 1;

/// The type of the segment that holds `.eh_frame_hdr`.
pub const PT_GNU_EH_FRAME: u32 = 0x6474e550;

/// What the locator reads of one program header.
#[derive(Debug, Clone, Copy, PartialEq, Eq, Structural)]
pub struct ProgramHeader {
    pub type_: u32,
    pub vaddr: u64,
    pub memsz: u64,
}

/// One loaded object: its load address and its program headers, in the order
/// in which the object lists them.
pub struct LoadedObject {
    pub addr: u64,
    pub phdr: Vec<ProgramHeader>,
}

/// The first header of type `type_`, if there is one.
pub open spec fn first_of_type(phdr: Seq<ProgramHeader>, type_: u32) -> Option<ProgramHeader>
    decreases phdr.len(),
{
    if phdr.len() == 0 {
        None
    } else {
        match first_of_type(phdr.drop_last(), type_) {
            Some(found) => Some(found),
            None => if phdr.last().type_ == type_ {
                Some(phdr.last())
            } else {
                None
            },
        }
    }
}

/// The largest `vaddr + memsz` over the loadable segments; zero without one.
pub open spec fn max_load_end(phdr: Seq<ProgramHeader>) -> int
    decreases phdr.len(),
{
    if phdr.len() == 0 {
        0
    } else {
        let before = max_load_end(phdr.drop_last());
        let end = phdr.last().vaddr + phdr.last().memsz;
        if phdr.last().type_ == PT_LOAD && end > before {
            end
        } else {
            before
        }
    }
}

/// The record of an object loaded at `addr`. The text is the first loadable
/// segment, the header is the first `PT_GNU_EH_FRAME` segment, and `.eh_frame`
/// ends no later than the last loadable segment does. An object that lacks
/// either segment has no record, nor has one with an address beyond 64 bits.
pub open spec fn object_eh_ref(addr: u64, phdr: Seq<ProgramHeader>) -> Option<EhRef> {
    match (first_of_type(phdr, PT_LOAD), first_of_type(phdr, PT_GNU_EH_FRAME)) {
        (Some(text), Some(hdr)) => if addr + text.vaddr + text.memsz <= u64::MAX && addr
            + hdr.vaddr + hdr.memsz <= u64::MAX && addr + max_load_end(phdr) <= u64::MAX {
            Some(
                EhRef::WithHeader {
                    text: AddrRange {
                        start: (addr + text.vaddr) as u64,
                        end: (addr + text.vaddr + text.memsz) as u64,
                    },
                    eh_frame_hdr: AddrRange {
                        start: (addr + hdr.vaddr) as u64,
                        end: (addr + hdr.vaddr + hdr.memsz) as u64,
                    },
                    eh_frame_end: (addr + max_load_end(phdr)) as u64,
                },
            )
        } else {
            None
        },
        _ => None,
    }
}

/// The ranges of a record do not end before they start.
pub proof fn lemma_object_eh_ref_is_well_formed(addr: u64, phdr: Seq<ProgramHeader>)
    ensures
        object_eh_ref(addr, phdr) matches Some(EhRef::WithHeader { text, eh_frame_hdr, .. })
            ==> text.wf() && eh_frame_hdr.wf(),
{
}

/// The records of `objects`, in their order, without the objects that have none.
pub open spec fn object_eh_refs(objects: Seq<LoadedObject>) -> Seq<EhRef>
    decreases objects.len(),
{
    if objects.len() == 0 {
        Seq::empty()
    } else {
        let before = object_eh_refs(objects.drop_last());
        match object_eh_ref(objects.last().addr, objects.last().phdr@) {
            Some(er) => before.push(er),
            None => before,
        }
    }
}

fn find_first(phdr: &Vec<ProgramHeader>, type_: u32) -> (r: Option<ProgramHeader>)
    ensures
        r == first_of_type(phdr@, type_),
{
    let mut i: usize = 0;
    while i < phdr.len()
        invariant
            i <= phdr.len(),
            first_of_type(phdr@.take(i as int), type_) is None,
        decreases phdr.len() - i,
    {
        proof {
            assert(phdr@.take(i + 1).drop_last() =~= phdr@.take(i as int));
            lemma_first_found_stays(phdr@, i + 1, type_);
        }
        if phdr[i].type_ == type_ {
            return Some(phdr[i]);
        }
        i += 1;
    }
    assert(phdr@.take(i as int) =~= phdr@);
    None
}

/// Once a prefix holds a header of the type, the whole list yields the same one.
proof fn lemma_first_found_stays(phdr: Seq<ProgramHeader>, n: int, type_: u32)
    requires
        0 <= n <= phdr.len(),
    ensures
        first_of_type(phdr.take(n), type_) is Some ==> first_of_type(phdr, type_)
            == first_of_type(phdr.take(n), type_),
    decreases phdr.len() - n,
{
    if n == phdr.len() {
        assert(phdr.take(n) =~= phdr);
    } else {
        assert(phdr.take(n + 1).drop_last() =~= phdr.take(n));
        lemma_first_found_stays(phdr, n + 1, type_);
    }
}

/// The largest end of a loadable segment, or `None` when it exceeds 64 bits.
fn find_max_load_end(phdr: &Vec<ProgramHeader>) -> (r: Option<u64>)
    ensures
        0 <= max_load_end(phdr@),
        r == (if max_load_end(phdr@) <= u64::MAX {
            Some(max_load_end(phdr@) as u64)
        } else {
            None
        }),
{
    let mut max: u64 = 0;
    let mut fits = true;
    let mut i: usize = 0;
    while i < phdr.len()
        invariant
            i <= phdr.len(),
            fits ==> max == max_load_end(phdr@.take(i as int)),
            !fits ==> max_load_end(phdr@.take(i as int)) > u64::MAX,
        decreases phdr.len() - i,
    {
        proof {
            assert(phdr@.take(i + 1).drop_last() =~= phdr@.take(i as int));
        }
        if phdr[i].type_ == PT_LOAD {
            match phdr[i].vaddr.checked_add(phdr[i].memsz) {
                Some(end) => if fits && end > max {
                    max = end;
                },
                None => {
                    fits = false;
                },
            }
        }
        i += 1;
    }
    assert(phdr@.take(i as int) =~= phdr@);
    if fits {
        Some(max)
    } else {
        None
    }
}

/// The record of one object, if it has one.
pub fn eh_ref_for_object(addr: u64, phdr: &Vec<ProgramHeader>) -> (r: Option<EhRef>)
    ensures
        r == object_eh_ref(addr, phdr@),
{
    let text = match find_first(phdr, PT_LOAD) {
        Some(text) => text,
        None => { return None; },
    };
    let hdr = match find_first(phdr, PT_GNU_EH_FRAME) {
        Some(hdr) => hdr,
        None => { return None; },
    };
    let text_range = match segment_range(addr, &text) {
        Some(range) => range,
        None => { return None; },
    };
    let hdr_range = match segment_range(addr, &hdr) {
        Some(range) => range,
        None => { return None; },
    };
    let eh_frame_end = match find_max_load_end(phdr) {
        Some(end) => match addr.checked_add(end) {
            Some(eh_frame_end) => eh_frame_end,
            None => { return None; },
        },
        None => { return None; },
    };
    Some(EhRef::WithHeader { text: text_range, eh_frame_hdr: hdr_range, eh_frame_end })
}

/// Where a segment lies in memory, or `None` when it would end beyond 64 bits.
fn segment_range(addr: u64, segment: &ProgramHeader) -> (r: Option<AddrRange>)
    ensures
        r == (if addr + segment.vaddr + segment.memsz <= u64::MAX {
            Some(
                AddrRange {
                    start: (addr + segment.vaddr) as u64,
                    end: (addr + segment.vaddr + segment.memsz) as u64,
                },
            )
        } else {
            None
        }),
{
    match addr.checked_add(segment.vaddr) {
        Some(start) => match start.checked_add(segment.memsz) {
            Some(end) => Some(AddrRange { start, end }),
            None => None,
        },
        None => None,
    }
}

/// The records of all loaded objects, in the order of `objects`.
pub fn find_cfi_sections(objects: &Vec<LoadedObject>) -> (cfi: Vec<EhRef>)
    ensures
        cfi@ == object_eh_refs(objects@),
{
    let mut cfi: Vec<EhRef> = Vec::new();
    let mut i: usize = 0;
    while i < objects.len()
        invariant
            i <= objects.len(),
            cfi@ == object_eh_refs(objects@.take(i as int)),
        decreases objects.len() - i,
    {
        proof {
            assert(objects@.take(i + 1).drop_last() =~= objects@.take(i as int));
        }
        match eh_ref_for_object(objects[i].addr, &objects[i].phdr) {
            Some(er) => {
                cfi.push(er);
            },
            None => {},
        }
        i += 1;
    }
    assert(objects@.take(i as int) =~= objects@);
    cfi
}

} // verus!

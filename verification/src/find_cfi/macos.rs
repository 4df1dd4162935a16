//! Mach-O images, described by what the shared-library listing and the image
//! file give.

use crate::find_cfi::EhRef;
use crate::range::AddrRange;
use vstd::prelude::*;

verus! {

/// Where a segment of an image is mapped, and how long it is.
#[derive(Debug, Clone, Copy, PartialEq, Eq, Structural)]
pub struct Segment {
    pub start: u64,
    pub len: u64,
}

/// What the locator reads of one image.
pub struct Image {
    /// The `__TEXT` segment, where the image has one.
    pub text: Option<Segment>,
    /// The first bytes of the image file, at least four of them where the
    /// file is that long.
    pub file_magic: Vec<u8>,
    /// Where the decoded `.eh_frame` bytes lie, when the file could be parsed
    /// and has such a section.
    pub eh_frame: Option<AddrRange>,
}

/// Whether a file starts with the magic number of a fat (multi-architecture)
/// binary.
pub open spec fn spec_is_fat(magic: Seq<u8>) -> bool {
    magic.len() >= 4 && magic[0] == 0xca && magic[1] == 0xfe && magic[2] == 0xba && magic[3]
        == 0xbe
}

/// Tests the first bytes of a file for the magic number of a fat binary.
pub fn is_fat(magic: &Vec<u8>) -> (r: bool)
    ensures
        r == spec_is_fat(magic@),
{
    magic.len() >= 4 && magic[0] == 0xca && magic[1] == 0xfe && magic[2] == 0xba && magic[3]
        == 0xbe
}

/// The record of an image. An image without `__TEXT` segment has none, nor
/// has a fat binary, nor an image without a decoded `.eh_frame`, nor one
/// whose text would end beyond 64 bits.
pub open spec fn image_eh_ref(
    text: Option<Segment>,
    magic: Seq<u8>,
    eh_frame: Option<AddrRange>,
) -> Option<EhRef> {
    match (text, eh_frame) {
        (Some(text), Some(eh_frame)) => if !spec_is_fat(magic) && text.start + text.len
            <= u64::MAX {
            Some(
                EhRef::WithoutHeader {
                    text: AddrRange { start: text.start, end: (text.start + text.len) as u64 },
                    eh_frame,
                },
            )
        } else {
            None
        },
        _ => None,
    }
}

/// The text range of a record does not end before it starts.
pub proof fn lemma_image_eh_ref_is_well_formed(
    text: Option<Segment>,
    magic: Seq<u8>,
    eh_frame: Option<AddrRange>,
)
    ensures
        image_eh_ref(text, magic, eh_frame) matches Some(er) ==> er.spec_text().wf(),
{
}

/// The records of `images`, in their order, without the images that have none.
pub open spec fn image_eh_refs(images: Seq<Image>) -> Seq<EhRef>
    decreases images.len(),
{
    if images.len() == 0 {
        Seq::empty()
    } else {
        let before = image_eh_refs(images.drop_last());
        let image = images.last();
        match image_eh_ref(image.text, image.file_magic@, image.eh_frame) {
            Some(er) => before.push(er),
            None => before,
        }
    }
}

/// The record of one image, if it has one.
pub fn eh_ref_for_image(image: &Image) -> (r: Option<EhRef>)
    ensures
        r == image_eh_ref(image.text, image.file_magic@, image.eh_frame),
{
    let text = match image.text {
        Some(text) => text,
        None => { return None; },
    };
    let eh_frame = match image.eh_frame {
        Some(eh_frame) => eh_frame,
        None => { return None; },
    };
    if is_fat(&image.file_magic) {
        return None;
    }
    match text.start.checked_add(text.len) {
        Some(end) => Some(
            EhRef::WithoutHeader { text: AddrRange { start: text.start, end }, eh_frame },
        ),
        None => None,
    }
}

/// The records of all images, in the order of `images`.
pub fn find_cfi_sections(images: &Vec<Image>) -> (cfi: Vec<EhRef>)
    ensures
        cfi@ == image_eh_refs(images@),
{
    let mut cfi: Vec<EhRef> = Vec::new();
    let mut i: usize = 0;
    while i < images.len()
        invariant
            i <= images.len(),
            cfi@ == image_eh_refs(images@.take(i as int)),
        decreases images.len() - i,
    {
        proof {
            assert(images@.take(i + 1).drop_last() =~= images@.take(i as int));
        }
        match eh_ref_for_image(&images[i]) {
            Some(er) => {
                cfi.push(er);
            },
            None => {},
        }
        i += 1;
    }
    assert(images@.take(i as int) =~= images@);
    cfi
}

} // verus!

use dwarf_unwind::find_cfi::baremetal::{self, LinkerSymbols};
use dwarf_unwind::find_cfi::ld::{
    self, eh_ref_for_object, LoadedObject, ProgramHeader, PT_GNU_EH_FRAME, PT_LOAD,
};
use dwarf_unwind::find_cfi::macos::{self, eh_ref_for_image, is_fat, Image, Segment};
use dwarf_unwind::{AddrRange, EhRef};

const PT_DYNAMIC: u32 = 2;

fn phdr(type_: u32, vaddr: u64, memsz: u64) -> ProgramHeader {
    ProgramHeader { type_, vaddr, memsz }
}

fn usual_object() -> Vec<ProgramHeader> {
    vec![
        phdr(PT_DYNAMIC, 0x3000, 0x100),
        phdr(PT_LOAD, 0x0, 0x1800),
        phdr(PT_LOAD, 0x2000, 0x1500),
        phdr(PT_GNU_EH_FRAME, 0x1400, 0x3c),
        phdr(PT_LOAD, 0x1000, 0x100),
        phdr(PT_GNU_EH_FRAME, 0x9000, 0x10),
    ]
}

#[test]
fn segment_type_numbers() {
    assert_eq!(PT_LOAD, 1);
    assert_eq!(PT_GNU_EH_FRAME, 0x6474e550);
}

#[test]
fn record_of_a_loaded_object() {
    assert_eq!(
        eh_ref_for_object(0x5555_0000, &usual_object()),
        Some(EhRef::WithHeader {
            text: AddrRange { start: 0x5555_0000, end: 0x5555_1800 },
            eh_frame_hdr: AddrRange { start: 0x5555_1400, end: 0x5555_143c },
            eh_frame_end: 0x5555_3500,
        })
    );
}

#[test]
fn object_without_text_or_header_has_no_record() {
    assert_eq!(eh_ref_for_object(0x1000, &vec![]), None);
    assert_eq!(eh_ref_for_object(0x1000, &vec![phdr(PT_LOAD, 0, 0x100)]), None);
    assert_eq!(eh_ref_for_object(0x1000, &vec![phdr(PT_GNU_EH_FRAME, 0, 0x100)]), None);
    assert_eq!(
        eh_ref_for_object(0x1000, &vec![phdr(PT_GNU_EH_FRAME, 0x80, 0x20), phdr(PT_LOAD, 0, 0x100)]),
        Some(EhRef::WithHeader {
            text: AddrRange { start: 0x1000, end: 0x1100 },
            eh_frame_hdr: AddrRange { start: 0x1080, end: 0x10a0 },
            eh_frame_end: 0x1100,
        })
    );
}

#[test]
fn object_beyond_the_address_space_has_no_record() {
    let top = vec![phdr(PT_LOAD, 0, 0x100), phdr(PT_GNU_EH_FRAME, 0x80, 0x20)];
    assert!(eh_ref_for_object(u64::MAX - 0x100, &top).is_some());
    assert_eq!(eh_ref_for_object(u64::MAX - 0xff, &top), None);
    let wide = vec![
        phdr(PT_LOAD, 0, 0x100),
        phdr(PT_GNU_EH_FRAME, 0x80, 0x20),
        phdr(PT_LOAD, u64::MAX, 1),
    ];
    assert_eq!(eh_ref_for_object(0, &wide), None);
    let far_header = vec![phdr(PT_LOAD, 0, 0x100), phdr(PT_GNU_EH_FRAME, u64::MAX, 0x20)];
    assert_eq!(eh_ref_for_object(0, &far_header), None);
}

#[test]
fn records_keep_the_order_of_the_objects() {
    let objects = vec![
        LoadedObject { addr: 0x10_0000, phdr: usual_object() },
        LoadedObject { addr: 0x20_0000, phdr: vec![phdr(PT_LOAD, 0, 0x10)] },
        LoadedObject { addr: 0x30_0000, phdr: usual_object() },
    ];
    let cfi = ld::find_cfi_sections(&objects);
    assert_eq!(
        cfi,
        vec![
            eh_ref_for_object(0x10_0000, &usual_object()).unwrap(),
            eh_ref_for_object(0x30_0000, &usual_object()).unwrap(),
        ]
    );
    assert_eq!(cfi[1].text(), AddrRange { start: 0x30_0000, end: 0x30_1800 });
    assert_eq!(ld::find_cfi_sections(&vec![]), vec![]);
}

#[test]
fn fat_binaries_are_told_by_their_magic_number() {
    assert!(is_fat(&vec![0xca, 0xfe, 0xba, 0xbe]));
    assert!(is_fat(&vec![0xca, 0xfe, 0xba, 0xbe, 0, 0, 0, 2]));
    assert!(!is_fat(&vec![0xcf, 0xfa, 0xed, 0xfe]));
    assert!(!is_fat(&vec![0xca, 0xfe, 0xba]));
    assert!(!is_fat(&vec![]));
    assert!(!is_fat(&vec![0xbe, 0xba, 0xfe, 0xca]));
}

fn image(text_start: u64, magic: Vec<u8>, eh_frame: Option<AddrRange>) -> Image {
    Image { text: Some(Segment { start: text_start, len: 0x4000 }), file_magic: magic, eh_frame }
}

#[test]
fn image_without_text_segment_has_no_record() {
    let eh_frame = AddrRange { start: 0x7000_0000, end: 0x7000_0100 };
    let thin = vec![0xcf, 0xfa, 0xed, 0xfe];
    let bare = Image { text: None, file_magic: thin.clone(), eh_frame: Some(eh_frame) };
    assert_eq!(eh_ref_for_image(&bare), None);
    let images = vec![
        Image { text: None, file_magic: thin.clone(), eh_frame: Some(eh_frame) },
        image(0x1000, thin.clone(), Some(eh_frame)),
        Image { text: None, file_magic: thin, eh_frame: None },
    ];
    let cfi = macos::find_cfi_sections(&images);
    assert_eq!(
        cfi,
        vec![EhRef::WithoutHeader { text: AddrRange { start: 0x1000, end: 0x5000 }, eh_frame }]
    );
}

#[test]
fn record_of_an_image() {
    let eh_frame = AddrRange { start: 0x7000_0000, end: 0x7000_0100 };
    let thin = vec![0xcf, 0xfa, 0xed, 0xfe];
    assert_eq!(
        eh_ref_for_image(&image(0x1_0000_0000, thin.clone(), Some(eh_frame))),
        Some(EhRef::WithoutHeader {
            text: AddrRange { start: 0x1_0000_0000, end: 0x1_0000_4000 },
            eh_frame,
        })
    );
    assert_eq!(eh_ref_for_image(&image(0x1_0000_0000, thin.clone(), None)), None);
    assert_eq!(
        eh_ref_for_image(&image(0x1_0000_0000, vec![0xca, 0xfe, 0xba, 0xbe], Some(eh_frame))),
        None
    );
    assert_eq!(eh_ref_for_image(&image(u64::MAX - 0x3fff, thin.clone(), Some(eh_frame))), None);
    assert!(eh_ref_for_image(&image(u64::MAX - 0x4000, thin, Some(eh_frame))).is_some());
}

#[test]
fn fat_images_are_left_out() {
    let eh_frame = AddrRange { start: 0x7000_0000, end: 0x7000_0100 };
    let thin = vec![0xcf, 0xfa, 0xed, 0xfe];
    let images = vec![
        image(0x1000, thin.clone(), Some(eh_frame)),
        image(0x2000, vec![0xca, 0xfe, 0xba, 0xbe], Some(eh_frame)),
        image(0x3000, thin.clone(), None),
        image(0x4000, thin, Some(eh_frame)),
    ];
    let cfi = macos::find_cfi_sections(&images);
    assert_eq!(cfi.len(), 2);
    assert_eq!(cfi[0].text(), AddrRange { start: 0x1000, end: 0x5000 });
    assert_eq!(cfi[1].text(), AddrRange { start: 0x4000, end: 0x8000 });
}

#[test]
fn single_image_has_one_record() {
    let symbols = LinkerSymbols {
        text_start: 0x8000_0000,
        text_end: 0x8001_0000,
        eh_frame_hdr_start: 0x8002_0000,
        eh_frame_hdr_end: 0x8002_0040,
        eh_frame_end: 0x8003_0000,
    };
    assert_eq!(
        baremetal::find_cfi_sections(&symbols),
        vec![EhRef::WithHeader {
            text: AddrRange { start: 0x8000_0000, end: 0x8001_0000 },
            eh_frame_hdr: AddrRange { start: 0x8002_0000, end: 0x8002_0040 },
            eh_frame_end: 0x8003_0000,
        }]
    );
}

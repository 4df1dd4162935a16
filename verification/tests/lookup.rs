//! What the unwinder makes of decoding results, on results given by hand.

use dwarf_unwind::cfi::{CfaRule, Fde, Pointer, RegisterRule, UnwindRow};
use dwarf_unwind::frames::unwound_frame;
use dwarf_unwind::unwinder::{checked_fde, entry_offset, UnwindInfo};
use dwarf_unwind::{Memory, Registers, StackFrame, UnwindError};

fn fde(initial_address: u64, len: u64) -> Fde {
    Fde { offset: 0x18, initial_address, len, personality: None, lsda: None }
}

#[test]
fn found_entry_must_describe_the_address() {
    let entry = fde(0x1000, 0x40);
    assert_eq!(checked_fde(Ok(entry), 0x1000), Ok(entry));
    assert_eq!(checked_fde(Ok(entry), 0x103f), Ok(entry));
    assert_eq!(checked_fde(Ok(entry), 0x1040), Err(UnwindError::NoUnwindInfoForAddress));
    assert_eq!(checked_fde(Ok(entry), 0xfff), Err(UnwindError::NoUnwindInfoForAddress));
    assert_eq!(checked_fde(Ok(fde(0x1000, 0)), 0x1000), Err(UnwindError::NoUnwindInfoForAddress));
    assert_eq!(
        checked_fde(Err(UnwindError::NoUnwindInfoForAddress), 0x1000),
        Err(UnwindError::NoUnwindInfoForAddress)
    );
    assert_eq!(checked_fde(Err(UnwindError::Parse), 0x1000), Err(UnwindError::Parse));
}

#[test]
fn entry_at_the_top_of_the_address_space() {
    // The entry describes the last sixteen addresses; their end is not an
    // address, and address zero is not among them.
    let entry = fde(u64::MAX - 15, 16);
    assert_eq!(checked_fde(Ok(entry), u64::MAX), Ok(entry));
    assert_eq!(checked_fde(Ok(entry), u64::MAX - 15), Ok(entry));
    assert_eq!(checked_fde(Ok(entry), u64::MAX - 16), Err(UnwindError::NoUnwindInfoForAddress));
    assert_eq!(checked_fde(Ok(entry), 0), Err(UnwindError::NoUnwindInfoForAddress));
    let long = fde(u64::MAX - 15, 32);
    assert_eq!(checked_fde(Ok(long), 0), Err(UnwindError::NoUnwindInfoForAddress));
    assert!(entry.contains(u64::MAX));
    assert!(!long.contains(15));
}

#[test]
fn table_entries_are_places_in_the_frame_section() {
    assert_eq!(entry_offset(Pointer::Direct(0x4018), 0x4000), Ok(0x18));
    assert_eq!(entry_offset(Pointer::Direct(0x4000), 0x4000), Ok(0));
    assert_eq!(entry_offset(Pointer::Direct(0x3fff), 0x4000), Err(UnwindError::Parse));
    assert_eq!(entry_offset(Pointer::Direct(0), 1), Err(UnwindError::Parse));
    assert_eq!(entry_offset(Pointer::Direct(u64::MAX), 0), Ok(u64::MAX as usize));
    assert_eq!(entry_offset(Pointer::Indirect(0x4018), 0x4000), Err(UnwindError::Parse));
}

fn info(cfa: CfaRule, personality: Option<Pointer>, lsda: Option<Pointer>) -> UnwindInfo {
    UnwindInfo {
        row: UnwindRow {
            start: 0x1004,
            end: 0x10c0,
            cfa,
            rules: vec![(16, RegisterRule::Offset(-8))],
        },
        personality,
        lsda,
        initial_address: 0x1000,
    }
}

fn registers() -> Registers {
    let mut registers = Registers::new();
    registers.set(6, Some(0x7000));
    registers.set(16, Some(0x1020));
    registers
}

fn memory() -> Memory {
    let mut memory = Memory::new();
    memory.add_region(0x9000, 0x1f00u64.to_le_bytes().to_vec());
    memory
}

const BY_FRAME_POINTER: CfaRule = CfaRule::RegisterAndOffset { register: 6, offset: 16 };

#[test]
fn frame_carries_the_attributes_of_its_entry() {
    let found = unwound_frame(
        info(BY_FRAME_POINTER, Some(Pointer::Indirect(0x9000)), Some(Pointer::Direct(0x5000))),
        0x400,
        &registers(),
        &memory(),
    );
    let (frame, row, cfa) = found.unwrap();
    assert_eq!(frame, StackFrame::new(Some(0x1f00), Some(0x5000), 0x1000, 0x400));
    assert_eq!(cfa, 0x7010);
    assert_eq!((row.start, row.end, row.cfa), (0x1004, 0x10c0, BY_FRAME_POINTER));
    assert_eq!(row.rules, vec![(16, RegisterRule::Offset(-8))]);

    let plain = unwound_frame(info(BY_FRAME_POINTER, None, None), 0, &registers(), &memory());
    assert_eq!(plain.unwrap().0, StackFrame::new(None, None, 0x1000, 0));
}

#[test]
fn frame_that_cannot_be_made() {
    let unreadable = Some(Pointer::Indirect(0x9001));
    let cases = vec![
        (info(CfaRule::Expression, None, None), UnwindError::Unimplemented),
        (
            info(CfaRule::RegisterAndOffset { register: 7, offset: 8 }, None, None),
            UnwindError::MissingRegister,
        ),
        (
            info(CfaRule::RegisterAndOffset { register: 200, offset: 8 }, None, None),
            UnwindError::InvalidRule,
        ),
        (info(BY_FRAME_POINTER, unreadable, None), UnwindError::UnmappedAddress),
        (info(BY_FRAME_POINTER, None, unreadable), UnwindError::UnmappedAddress),
        // The canonical frame address is computed before a pointer is followed.
        (info(CfaRule::Expression, unreadable, unreadable), UnwindError::Unimplemented),
    ];
    for (info, error) in cases {
        assert_eq!(unwound_frame(info, 0, &registers(), &memory()).err(), Some(error));
    }
}

use dwarf_unwind::AddrRange;

#[test]
fn range_contains_start_but_not_end() {
    let range = AddrRange { start: 0x1000, end: 0x2000 };
    assert!(!range.contains(0xfff));
    assert!(range.contains(0x1000));
    assert!(range.contains(0x1fff));
    assert!(!range.contains(0x2000));
    assert!(!range.contains(u64::MAX));
    assert!(!range.contains(0));
}

#[test]
fn range_length() {
    assert_eq!(AddrRange { start: 0x1000, end: 0x2000 }.len(), 0x1000);
    assert_eq!(AddrRange { start: 0, end: u64::MAX }.len(), u64::MAX);
    assert_eq!(AddrRange { start: 5, end: 5 }.len(), 0);
    assert!(AddrRange { start: 5, end: 5 }.is_empty());
    assert!(!AddrRange { start: 5, end: 6 }.is_empty());
    assert!(!AddrRange { start: 5, end: 5 }.contains(5));
}

#[test]
fn range_that_ends_before_it_starts_is_refused() {
    assert_eq!(AddrRange::new(1, 2), Some(AddrRange { start: 1, end: 2 }));
    assert_eq!(AddrRange::new(2, 2), Some(AddrRange { start: 2, end: 2 }));
    assert_eq!(AddrRange::new(3, 2), None);
    let backwards = AddrRange { start: 3, end: 2 };
    assert_eq!(backwards.len(), 0);
    assert!(backwards.is_empty());
    assert!(!backwards.contains(2));
    assert!(!backwards.contains(3));
}

//! Decoding of `.eh_frame_hdr` and `.eh_frame` through `gimli`.
//!
//! Sections are handed to `gimli` as byte slices, least significant byte
//! first, with 8-byte addresses. What `gimli` decodes is not proved here: each
//! decoding result has a name, and the functions of this crate say how the
//! unwinder's answers are made of the named results. An error of `gimli` is
//! reported as `NoUnwindInfoForAddress` where it is the error of that name,
//! and as `Parse` else; what else an error of `gimli` holds is dropped.

use crate::error::UnwindError;
use gimli::Pointer as Encoded;
use gimli::{
    BaseAddresses, EhFrame, EhFrameHdr, EhFrameOffset, Error, LittleEndian, UnwindContext,
    UnwindSection,
};
use vstd::prelude::*;

verus! {

/// A pointer as `.eh_frame` and `.eh_frame_hdr` encode it.
#[derive(Debug, Clone, Copy, PartialEq, Eq, Structural)]
pub enum Pointer {
    /// The value is the pointer.
    Direct(u64),
    /// The value is the address at which the pointer is stored.
    Indirect(u64),
}

/// How the canonical frame address of a frame is found.
#[derive(Debug, Clone, Copy, PartialEq, Eq, Structural)]
pub enum CfaRule {
    /// The value of `register` plus `offset`.
    RegisterAndOffset { register: u16, offset: i64 },
    /// The value of a DWARF expression.
    Expression,
}

/// How the value that a register had in the caller is found.
#[derive(Debug, Clone, Copy, PartialEq, Eq, Structural)]
pub enum RegisterRule {
    /// The register has no recoverable value.
    Undefined,
    /// The register was not changed.
    SameValue,
    /// The value was saved at the canonical frame address plus the offset.
    Offset(i64),
    /// The value is the canonical frame address plus the offset.
    ValOffset(i64),
    /// The value was saved in another register.
    Register(u16),
    /// The value was saved at the address that a DWARF expression gives.
    Expression,
    /// The value is that of a DWARF expression.
    ValExpression,
    /// The rule is defined by the architecture's augmenter.
    Architectural,
    /// The value is the constant.
    Constant(u64),
}

/// What the unwinder reads of a parsed `.eh_frame_hdr`.
#[derive(Debug, Clone, Copy, PartialEq, Eq, Structural)]
pub struct HeaderInfo {
    /// The encoded pointer to the start of `.eh_frame`.
    pub eh_frame_ptr: Pointer,
    /// The number of entries that the header states for its search table;
    /// zero where it has no table.
    pub entries: usize,
}

/// What the unwinder reads of a frame description entry.
#[derive(Debug, Clone, Copy, PartialEq, Eq, Structural)]
pub struct Fde {
    /// Where the entry starts in `.eh_frame`.
    pub offset: usize,
    /// The first address that the entry describes.
    pub initial_address: u64,
    /// The number of addresses that the entry describes.
    pub len: u64,
    pub personality: Option<Pointer>,
    pub lsda: Option<Pointer>,
}

impl Fde {
    /// Whether the entry describes `address`.
    pub open spec fn spec_contains(self, address: u64) -> bool {
        self.initial_address <= address && address - self.initial_address < self.len
    }

    pub fn contains(&self, address: u64) -> (r: bool)
        ensures
            r == self.spec_contains(address),
    {
        self.initial_address <= address && address - self.initial_address < self.len
    }
}

/// One row of a call frame table, as a mathematical value.
pub struct RowView {
    pub start: u64,
    pub end: u64,
    pub cfa: CfaRule,
    pub rules: Seq<(u16, RegisterRule)>,
}

/// One row of a call frame table: for the addresses from `start` up to, and
/// without, `end`, the rule for the canonical frame address and the rules of
/// the registers that have one, in the order in which `gimli` yields them.
#[derive(Debug)]
pub struct UnwindRow {
    pub start: u64,
    pub end: u64,
    pub cfa: CfaRule,
    pub rules: Vec<(u16, RegisterRule)>,
}

impl View for UnwindRow {
    type V = RowView;

    open spec fn view(&self) -> RowView {
        RowView { start: self.start, end: self.end, cfa: self.cfa, rules: self.rules@ }
    }
}

/// A table row as `gimli` holds it, a `gimli::UnwindTableRow`. Its bounds and
/// rules are read through the methods below and are known to the verifier
/// only as `row_view` of the row.
#[verifier::external_body]
pub struct RawRow {
    inner: gimli::UnwindTableRow<usize>,
}

/// What parsing the bytes of a `.eh_frame_hdr` loaded at `hdr_addr` gives.
pub uninterp spec fn header_of(hdr: Seq<u8>, hdr_addr: u64, text_addr: u64) -> Result<
    HeaderInfo,
    UnwindError,
>;

/// What the search table of a header gives for `address`: the encoded address
/// of a frame description entry, or `None` where the header has no table.
pub uninterp spec fn table_entry(
    hdr: Seq<u8>,
    hdr_addr: u64,
    text_addr: u64,
    address: u64,
) -> Result<Option<Pointer>, UnwindError>;

/// What parsing the frame description entry at `offset` of a `.eh_frame`
/// loaded at `eh_frame_addr` gives.
pub uninterp spec fn fde_entry(
    eh_frame: Seq<u8>,
    eh_frame_addr: u64,
    text_addr: u64,
    offset: usize,
) -> Result<Fde, UnwindError>;

/// What a scan of all entries of a `.eh_frame` for `address` gives.
pub uninterp spec fn scanned_fde(
    eh_frame: Seq<u8>,
    eh_frame_addr: u64,
    text_addr: u64,
    address: u64,
) -> Result<Fde, UnwindError>;

/// The table row for `address` of the frame description entry at `offset`.
pub uninterp spec fn unwind_row(
    eh_frame: Seq<u8>,
    eh_frame_addr: u64,
    text_addr: u64,
    offset: usize,
    address: u64,
) -> Result<RowView, UnwindError>;

/// What a row of `gimli` holds.
pub uninterp spec fn row_view(row: RawRow) -> RowView;

/// `gimli::EhFrameHdr::parse`, with the header's own address and the text
/// address as bases. The result is the named one. The number of entries is
/// the `size_hint` of `gimli::EhHdrTable::iter`, which is the count that the
/// header states. An error is reported as the module says.
#[verifier::external_body]
pub(crate) fn parse_header(hdr: &[u8], hdr_addr: u64, text_addr: u64) -> (r: Result<
    HeaderInfo,
    UnwindError,
>)
    ensures
        r == header_of(hdr@, hdr_addr, text_addr),
{
    let bases = BaseAddresses::default().set_eh_frame_hdr(hdr_addr).set_text(text_addr);
    let parsed = EhFrameHdr::new(hdr, LittleEndian).parse(&bases, 8).map_err(|e| match e {
        Error::NoUnwindInfoForAddress => UnwindError::NoUnwindInfoForAddress,
        _ => UnwindError::Parse,
    })?;
    let eh_frame_ptr = match parsed.eh_frame_ptr() {
        Encoded::Direct(a) => Pointer::Direct(a),
        Encoded::Indirect(a) => Pointer::Indirect(a),
    };
    let entries = parsed.table().map_or(0, |table| table.iter(&bases).size_hint().0);
    Ok(HeaderInfo { eh_frame_ptr, entries })
}

/// `gimli::EhHdrTable::lookup` on the table of the parsed header. The result
/// is the named one; nothing is claimed of the entry that the table gives.
/// `gimli` finds its way through the table by multiplying entry numbers by
/// the size of an entry, so the header must state no more entries than its
/// bytes can hold: an entry takes four bytes at least. An error is reported
/// as the module says.
#[verifier::external_body]
pub(crate) fn table_lookup(hdr: &[u8], hdr_addr: u64, text_addr: u64, address: u64) -> (r: Result<
    Option<Pointer>,
    UnwindError,
>)
    requires
        match header_of(hdr@, hdr_addr, text_addr) {
            Ok(info) => info.entries <= hdr@.len() / 4,
            Err(_) => true,
        },
    ensures
        r == table_entry(hdr@, hdr_addr, text_addr, address),
{
    let bases = BaseAddresses::default().set_eh_frame_hdr(hdr_addr).set_text(text_addr);
    let fail = |e| match e {
        Error::NoUnwindInfoForAddress => UnwindError::NoUnwindInfoForAddress,
        _ => UnwindError::Parse,
    };
    let parsed = EhFrameHdr::new(hdr, LittleEndian).parse(&bases, 8).map_err(fail)?;
    let found = parsed.table().map(|table| table.lookup(address, &bases)).transpose();
    Ok(found.map_err(fail)?.map(|p| match p {
        Encoded::Direct(a) => Pointer::Direct(a),
        Encoded::Indirect(a) => Pointer::Indirect(a),
    }))
}

/// `gimli::UnwindSection::fde_from_offset` on `.eh_frame`. The result is the
/// named one. An error is reported as the module says.
#[verifier::external_body]
pub(crate) fn fde_at(eh_frame: &[u8], eh_frame_addr: u64, text_addr: u64, offset: usize) -> (r:
    Result<Fde, UnwindError>)
    ensures
        r == fde_entry(eh_frame@, eh_frame_addr, text_addr, offset),
{
    let bases = BaseAddresses::default().set_eh_frame(eh_frame_addr).set_text(text_addr);
    let mut section = EhFrame::new(eh_frame, LittleEndian);
    section.set_address_size(8);
    let parsed = section.fde_from_offset(&bases, EhFrameOffset(offset), EhFrame::cie_from_offset);
    let fde = parsed.map_err(|e| match e {
        Error::NoUnwindInfoForAddress => UnwindError::NoUnwindInfoForAddress,
        _ => UnwindError::Parse,
    })?;
    let plain = |p| match p {
        Encoded::Direct(a) => Pointer::Direct(a),
        Encoded::Indirect(a) => Pointer::Indirect(a),
    };
    let (offset, initial_address, len) = (fde.offset(), fde.initial_address(), fde.len());
    Ok(Fde { offset, initial_address, len, personality: fde.personality().map(plain), lsda: fde.lsda().map(plain) })
}

/// `gimli::UnwindSection::fde_for_address` on `.eh_frame`, which walks the
/// entries from the first one. The result is the named one. An error is
/// reported as the module says.
#[verifier::external_body]
pub(crate) fn scan_for_fde(eh_frame: &[u8], eh_frame_addr: u64, text_addr: u64, address: u64) -> (r:
    Result<Fde, UnwindError>)
    ensures
        r == scanned_fde(eh_frame@, eh_frame_addr, text_addr, address),
{
    let bases = BaseAddresses::default().set_eh_frame(eh_frame_addr).set_text(text_addr);
    let mut section = EhFrame::new(eh_frame, LittleEndian);
    section.set_address_size(8);
    let found = section.fde_for_address(&bases, address, EhFrame::cie_from_offset);
    let fde = found.map_err(|e| match e {
        Error::NoUnwindInfoForAddress => UnwindError::NoUnwindInfoForAddress,
        _ => UnwindError::Parse,
    })?;
    let plain = |p| match p {
        Encoded::Direct(a) => Pointer::Direct(a),
        Encoded::Indirect(a) => Pointer::Indirect(a),
    };
    let (offset, initial_address, len) = (fde.offset(), fde.initial_address(), fde.len());
    Ok(Fde { offset, initial_address, len, personality: fde.personality().map(plain), lsda: fde.lsda().map(plain) })
}

/// `gimli::FrameDescriptionEntry::unwind_info_for_address` on the entry at
/// `offset`, which `gimli::UnwindSection::fde_from_offset` parses first. The
/// row is the named one, and a row that is returned covers `address`: the
/// call returns the first row of the table that does. An error of either
/// call is reported as the module says.
#[verifier::external_body]
pub(crate) fn row_at(eh_frame: &[u8], eh_frame_addr: u64, text_addr: u64, offset: usize, address: u64) -> (r:
    Result<RawRow, UnwindError>)
    ensures
        match r {
            Ok(raw) => unwind_row(eh_frame@, eh_frame_addr, text_addr, offset, address) == Ok::<
                RowView,
                UnwindError,
            >(row_view(raw)) && row_view(raw).start <= address < row_view(raw).end,
            Err(e) => unwind_row(eh_frame@, eh_frame_addr, text_addr, offset, address) == Err::<
                RowView,
                UnwindError,
            >(e),
        },
{
    let bases = BaseAddresses::default().set_eh_frame(eh_frame_addr).set_text(text_addr);
    let mut section = EhFrame::new(eh_frame, LittleEndian);
    section.set_address_size(8);
    let fail = |e| match e {
        Error::NoUnwindInfoForAddress => UnwindError::NoUnwindInfoForAddress,
        _ => UnwindError::Parse,
    };
    let parsed = section.fde_from_offset(&bases, EhFrameOffset(offset), EhFrame::cie_from_offset);
    let fde = parsed.map_err(fail)?;
    let mut ctx = UnwindContext::new();
    let row = fde.unwind_info_for_address(&section, &bases, &mut ctx, address);
    Ok(RawRow { inner: row.map_err(fail)?.clone() })
}

impl RawRow {
    /// `gimli::UnwindTableRow::start_address`.
    #[verifier::external_body]
    fn start_address(&self) -> (r: u64)
        ensures
            r == row_view(*self).start,
    {
        self.inner.start_address()
    }

    /// `gimli::UnwindTableRow::end_address`.
    #[verifier::external_body]
    fn end_address(&self) -> (r: u64)
        ensures
            r == row_view(*self).end,
    {
        self.inner.end_address()
    }

    /// `gimli::UnwindTableRow::cfa`, with the register as its number and an
    /// expression without its bytes.
    #[verifier::external_body]
    fn cfa(&self) -> (r: CfaRule)
        ensures
            r == row_view(*self).cfa,
    {
        match self.inner.cfa() {
            gimli::CfaRule::RegisterAndOffset { register, offset } => CfaRule::RegisterAndOffset {
                register: register.0,
                offset: *offset,
            },
            gimli::CfaRule::Expression(_) => CfaRule::Expression,
        }
    }

    /// The number of items that `gimli::UnwindTableRow::registers` yields.
    #[verifier::external_body]
    fn rule_count(&self) -> (r: usize)
        ensures
            r == row_view(*self).rules.len(),
    {
        self.inner.registers().count()
    }

    /// The item at position `i` of `gimli::UnwindTableRow::registers`, with
    /// the register as its number and an expression without its bytes.
    #[verifier::external_body]
    fn rule_at(&self, i: usize) -> (r: Option<(u16, RegisterRule)>)
        ensures
            r == (if i < row_view(*self).rules.len() {
                Some(row_view(*self).rules[i as int])
            } else {
                None
            }),
    {
        let (register, rule) = self.inner.registers().nth(i)?;
        let rule = match rule {
            gimli::RegisterRule::Undefined => RegisterRule::Undefined,
            gimli::RegisterRule::SameValue => RegisterRule::SameValue,
            gimli::RegisterRule::Offset(n) => RegisterRule::Offset(*n),
            gimli::RegisterRule::ValOffset(n) => RegisterRule::ValOffset(*n),
            gimli::RegisterRule::Register(r) => RegisterRule::Register(r.0),
            gimli::RegisterRule::Expression(_) => RegisterRule::Expression,
            gimli::RegisterRule::ValExpression(_) => RegisterRule::ValExpression,
            gimli::RegisterRule::Architectural => RegisterRule::Architectural,
            gimli::RegisterRule::Constant(c) => RegisterRule::Constant(*c),
        };
        Some((register.0, rule))
    }
}

/// The row that `gimli` holds, as a row of this crate.
pub(crate) fn read_row(raw: &RawRow) -> (row: UnwindRow)
    ensures
        row@ == row_view(*raw),
{
    let count = raw.rule_count();
    let mut rules: Vec<(u16, RegisterRule)> = Vec::new();
    let mut i: usize = 0;
    while i < count
        invariant
            i <= count,
            count == row_view(*raw).rules.len(),
            rules@ == row_view(*raw).rules.take(i as int),
        decreases count - i,
    {
        match raw.rule_at(i) {
            Some(rule) => {
                rules.push(rule);
            },
            None => {},
        }
        i += 1;
        assert(rules@ =~= row_view(*raw).rules.take(i as int));
    }
    assert(rules@ =~= row_view(*raw).rules);
    UnwindRow { start: raw.start_address(), end: raw.end_address(), cfa: raw.cfa(), rules }
}

} // verus!

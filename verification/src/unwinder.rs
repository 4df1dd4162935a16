//! The loaded objects with their call frame information, and the lookup of
//! the unwind information for an address.

use crate::cfi::{
    fde_at, fde_entry, header_of, parse_header, read_row, row_at, scan_for_fde, scanned_fde,
    table_entry, table_lookup, unwind_row, Fde, HeaderInfo, Pointer, RowView, UnwindRow,
};
use crate::error::UnwindError;
use crate::find_cfi::EhRef;
use crate::memory::Memory;
use crate::range::AddrRange;
use crate::registers::Arch;
use vstd::prelude::*;

verus! {

/// The value that a decoded pointer stands for: itself, or the 64-bit value
/// that memory holds at the address it gives.
pub open spec fn spec_deref_ptr(ptr: Pointer, memory: Memory) -> Option<u64> {
    match ptr {
        Pointer::Direct(x) => Some(x),
        Pointer::Indirect(x) => memory.spec_read_u64(x),
    }
}

/// Resolves a decoded pointer; `None` where it is stored outside the snapshot.
pub fn deref_ptr(ptr: Pointer, memory: &Memory) -> (r: Option<u64>)
    ensures
        r == spec_deref_ptr(ptr, *memory),
{
    match ptr {
        Pointer::Direct(x) => Some(x),
        Pointer::Indirect(x) => memory.read_u64(x),
    }
}

/// Where in `.eh_frame` the entry lies that the search table points to: at
/// the address that the table gives, less the start of the section. An
/// address before the section is refused, as is one that is not given
/// directly.
pub open spec fn spec_entry_offset(entry: Pointer, eh_frame_addr: u64) -> Result<
    usize,
    UnwindError,
> {
    match entry {
        Pointer::Direct(at) => if at < eh_frame_addr || at - eh_frame_addr > usize::MAX {
            Err(UnwindError::Parse)
        } else {
            Ok((at - eh_frame_addr) as usize)
        },
        Pointer::Indirect(_) => Err(UnwindError::Parse),
    }
}

/// The place in `.eh_frame` of the entry that the search table points to.
pub fn entry_offset(entry: Pointer, eh_frame_addr: u64) -> (r: Result<usize, UnwindError>)
    ensures
        r == spec_entry_offset(entry, eh_frame_addr),
{
    match entry {
        Pointer::Direct(at) => {
            if at < eh_frame_addr || at - eh_frame_addr > usize::MAX as u64 {
                Err(UnwindError::Parse)
            } else {
                Ok((at - eh_frame_addr) as usize)
            }
        },
        Pointer::Indirect(_) => Err(UnwindError::Parse),
    }
}

/// An entry that was found is the answer only if it describes the address;
/// else the address has no unwind information. An error of the search stays
/// as it is.
pub open spec fn spec_checked_fde(found: Result<Fde, UnwindError>, address: u64) -> Result<
    Fde,
    UnwindError,
> {
    match found {
        Ok(fde) => if fde.spec_contains(address) {
            Ok(fde)
        } else {
            Err(UnwindError::NoUnwindInfoForAddress)
        },
        Err(e) => Err(e),
    }
}

/// Accepts an entry that was found for `address` if it describes the address.
pub fn checked_fde(found: Result<Fde, UnwindError>, address: u64) -> (r: Result<Fde, UnwindError>)
    ensures
        r == spec_checked_fde(found, address),
{
    match found {
        Ok(fde) => if fde.contains(address) {
            Ok(fde)
        } else {
            Err(UnwindError::NoUnwindInfoForAddress)
        },
        Err(e) => Err(e),
    }
}

/// The unwind data of one loaded object, read and prepared for lookup.
pub struct ObjectRecord {
    pub er: EhRef,
    /// The bytes of `.eh_frame_hdr`; none for an object without header.
    pub hdr: Vec<u8>,
    /// The bytes of `.eh_frame`.
    pub eh_frame: Vec<u8>,
    /// Where `.eh_frame` starts in memory.
    pub eh_frame_addr: u64,
    /// Whether the snapshot held the sections of the object. A lookup in a
    /// record that is not complete reports `UnmappedAddress`.
    pub complete: bool,
}

/// An `ObjectRecord` as a mathematical value.
pub struct ObjectRecordView {
    pub er: EhRef,
    pub hdr: Seq<u8>,
    pub eh_frame: Seq<u8>,
    pub eh_frame_addr: u64,
    pub complete: bool,
}

impl View for ObjectRecord {
    type V = ObjectRecordView;

    open spec fn view(&self) -> ObjectRecordView {
        ObjectRecordView {
            er: self.er,
            hdr: self.hdr@,
            eh_frame: self.eh_frame@,
            eh_frame_addr: self.eh_frame_addr,
            complete: self.complete,
        }
    }
}

/// What a lookup yields for an address: the table row that covers it and the
/// attributes of the frame description entry that the row belongs to.
pub struct UnwindInfo {
    pub row: UnwindRow,
    pub personality: Option<Pointer>,
    pub lsda: Option<Pointer>,
    pub initial_address: u64,
}

/// An `UnwindInfo` as a mathematical value.
pub struct UnwindInfoView {
    pub row: RowView,
    pub personality: Option<Pointer>,
    pub lsda: Option<Pointer>,
    pub initial_address: u64,
}

impl View for UnwindInfo {
    type V = UnwindInfoView;

    open spec fn view(&self) -> UnwindInfoView {
        UnwindInfoView {
            row: self.row@,
            personality: self.personality,
            lsda: self.lsda,
            initial_address: self.initial_address,
        }
    }
}

/// The record of an object of which the snapshot lacks a part: it keeps the
/// header bytes that were read and has no `.eh_frame`.
pub open spec fn incomplete_record(er: EhRef, hdr: Seq<u8>) -> ObjectRecordView {
    ObjectRecordView { er, hdr, eh_frame: Seq::empty(), eh_frame_addr: 0, complete: false }
}

/// The record of an object with header, given its parsed header: `.eh_frame`
/// starts where the header's pointer says and is read up to `eh_frame_end`,
/// or as far as the snapshot holds it.
pub open spec fn record_with_header(
    er: EhRef,
    hdr: Seq<u8>,
    eh_frame_end: u64,
    info: HeaderInfo,
    memory: Memory,
) -> ObjectRecordView {
    match spec_deref_ptr(info.eh_frame_ptr, memory) {
        Some(eh_frame_addr) => {
            let end = if eh_frame_end < eh_frame_addr {
                eh_frame_addr
            } else {
                eh_frame_end
            };
            match memory.spec_read_bytes(eh_frame_addr, end) {
                Some(eh_frame) => ObjectRecordView {
                    er,
                    hdr,
                    eh_frame,
                    eh_frame_addr,
                    complete: true,
                },
                None => incomplete_record(er, hdr),
            }
        },
        None => incomplete_record(er, hdr),
    }
}

/// The record of an object: its sections as the snapshot holds them. Every
/// object has a record. Where the snapshot does not hold the header in full,
/// or not the start of `.eh_frame`, the record is not complete. A header that
/// does not parse leaves a complete record with the header bytes and no
/// `.eh_frame`: each lookup parses the header again and reports the error.
pub open spec fn spec_record(er: EhRef, memory: Memory) -> ObjectRecordView {
    match er {
        EhRef::WithHeader { text, eh_frame_hdr, eh_frame_end } => match memory.spec_read_bytes(
            eh_frame_hdr.start,
            eh_frame_hdr.end,
        ) {
            Some(hdr) => if hdr.len() != eh_frame_hdr.spec_len() {
                incomplete_record(er, hdr)
            } else {
                match header_of(hdr, eh_frame_hdr.start, text.start) {
                    Ok(info) => record_with_header(er, hdr, eh_frame_end, info, memory),
                    Err(_) => ObjectRecordView {
                        er,
                        hdr,
                        eh_frame: Seq::empty(),
                        eh_frame_addr: 0,
                        complete: true,
                    },
                }
            },
            None => incomplete_record(er, Seq::empty()),
        },
        EhRef::WithoutHeader { text, eh_frame } => match memory.spec_read_bytes(
            eh_frame.start,
            eh_frame.end,
        ) {
            Some(bytes) => if bytes.len() != eh_frame.spec_len() {
                incomplete_record(er, Seq::empty())
            } else {
                ObjectRecordView {
                    er,
                    hdr: Seq::empty(),
                    eh_frame: bytes,
                    eh_frame_addr: eh_frame.start,
                    complete: true,
                }
            },
            None => incomplete_record(er, Seq::empty()),
        },
    }
}

impl ObjectRecordView {
    /// Where the object's code starts.
    pub open spec fn text_addr(self) -> u64 {
        self.er.spec_text().start
    }

    /// Where the object's search header starts; zero without one.
    pub open spec fn hdr_addr(self) -> u64 {
        match self.er {
            EhRef::WithHeader { eh_frame_hdr, .. } => eh_frame_hdr.start,
            EhRef::WithoutHeader { .. } => 0,
        }
    }

    /// The entry found by a scan of `.eh_frame`.
    pub open spec fn scan(self, address: u64) -> Result<Fde, UnwindError> {
        spec_checked_fde(
            scanned_fde(self.eh_frame, self.eh_frame_addr, self.text_addr(), address),
            address,
        )
    }

    /// The entry that the search table points to.
    pub open spec fn via_table(self, entry: Pointer, address: u64) -> Result<
        Fde,
        UnwindError,
    > {
        match spec_entry_offset(entry, self.eh_frame_addr) {
            Ok(offset) => spec_checked_fde(
                fde_entry(self.eh_frame, self.eh_frame_addr, self.text_addr(), offset),
                address,
            ),
            Err(e) => Err(e),
        }
    }

    /// The entry that the header of the object leads to: the error of a
    /// header that does not parse; the entry that a scan finds where the
    /// header has no table; else the entry that the table points to. A table
    /// that states more entries than the header can hold is refused.
    pub open spec fn via_header(self, address: u64) -> Result<Fde, UnwindError> {
        match header_of(self.hdr, self.hdr_addr(), self.text_addr()) {
            Ok(info) => if info.entries == 0 {
                self.scan(address)
            } else if info.entries > self.hdr.len() / 4 {
                Err(UnwindError::Parse)
            } else {
                match table_entry(self.hdr, self.hdr_addr(), self.text_addr(), address) {
                    Ok(Some(entry)) => self.via_table(entry, address),
                    Ok(None) => self.scan(address),
                    Err(e) => Err(e),
                }
            },
            Err(e) => Err(e),
        }
    }

    /// The frame description entry that describes `address`: the one that the
    /// header leads to where the object has a header, else the one that a
    /// scan of `.eh_frame` finds. There is none in a record that is not
    /// complete.
    pub open spec fn find_fde(self, address: u64) -> Result<Fde, UnwindError> {
        if !self.complete {
            Err(UnwindError::UnmappedAddress)
        } else {
            match self.er {
                EhRef::WithHeader { .. } => self.via_header(address),
                EhRef::WithoutHeader { .. } => self.scan(address),
            }
        }
    }

    /// The unwind information for `address`: the row for it in the table of
    /// the entry that describes it.
    pub open spec fn unwind_info(self, address: u64) -> Result<UnwindInfoView, UnwindError> {
        match self.find_fde(address) {
            Ok(fde) => match unwind_row(
                self.eh_frame,
                self.eh_frame_addr,
                self.text_addr(),
                fde.offset,
                address,
            ) {
                Ok(row) => Ok(
                    UnwindInfoView {
                        row,
                        personality: fde.personality,
                        lsda: fde.lsda,
                        initial_address: fde.initial_address,
                    },
                ),
                Err(e) => Err(e),
            },
            Err(e) => Err(e),
        }
    }
}

/// Whether a result is the given mathematical value.
pub open spec fn info_is(
    r: Result<UnwindInfo, UnwindError>,
    expected: Result<UnwindInfoView, UnwindError>,
) -> bool {
    match (r, expected) {
        (Ok(info), Ok(view)) => info@ == view,
        (Err(e), Err(expected)) => e == expected,
        _ => false,
    }
}

impl ObjectRecord {
    fn incomplete(er: EhRef, hdr: Vec<u8>) -> (r: ObjectRecord)
        ensures
            r@ == incomplete_record(er, hdr@),
    {
        ObjectRecord { er, hdr, eh_frame: Vec::new(), eh_frame_addr: 0, complete: false }
    }

    /// Reads the sections of an object from the snapshot and parses its
    /// search header, if it has one. A record is made of every object;
    /// whatever is wrong with its sections is reported by the lookups.
    pub fn new(er: EhRef, memory: &Memory) -> (r: ObjectRecord)
        ensures
            r@ == spec_record(er, *memory),
    {
        match er {
            EhRef::WithHeader { text, eh_frame_hdr, eh_frame_end } => {
                let hdr = match memory.read_bytes(eh_frame_hdr.start, eh_frame_hdr.end) {
                    Some(hdr) => hdr,
                    None => { return ObjectRecord::incomplete(er, Vec::new()); },
                };
                if hdr.len() as u64 != eh_frame_hdr.len() {
                    return ObjectRecord::incomplete(er, hdr);
                }
                let info = match parse_header(hdr.as_slice(), eh_frame_hdr.start, text.start) {
                    Ok(info) => info,
                    Err(_) => {
                        return ObjectRecord {
                            er,
                            hdr,
                            eh_frame: Vec::new(),
                            eh_frame_addr: 0,
                            complete: true,
                        };
                    },
                };
                let eh_frame_addr = match deref_ptr(info.eh_frame_ptr, memory) {
                    Some(eh_frame_addr) => eh_frame_addr,
                    None => { return ObjectRecord::incomplete(er, hdr); },
                };
                let eh_frame_sz = eh_frame_end.saturating_sub(eh_frame_addr);
                let eh_frame = match memory.read_bytes(eh_frame_addr, eh_frame_addr + eh_frame_sz) {
                    Some(eh_frame) => eh_frame,
                    None => { return ObjectRecord::incomplete(er, hdr); },
                };
                ObjectRecord { er, hdr, eh_frame, eh_frame_addr, complete: true }
            },
            EhRef::WithoutHeader { text, eh_frame } => {
                let bytes = match memory.read_bytes(eh_frame.start, eh_frame.end) {
                    Some(bytes) => bytes,
                    None => { return ObjectRecord::incomplete(er, Vec::new()); },
                };
                if bytes.len() as u64 != eh_frame.len() {
                    return ObjectRecord::incomplete(er, Vec::new());
                }
                ObjectRecord {
                    er,
                    hdr: Vec::new(),
                    eh_frame: bytes,
                    eh_frame_addr: eh_frame.start,
                    complete: true,
                }
            },
        }
    }

    fn scan(&self, address: u64) -> (r: Result<Fde, UnwindError>)
        ensures
            r == self@.scan(address),
    {
        let text_addr = self.er.text().start;
        checked_fde(
            scan_for_fde(self.eh_frame.as_slice(), self.eh_frame_addr, text_addr, address),
            address,
        )
    }

    fn via_table(&self, entry: Pointer, address: u64) -> (r: Result<Fde, UnwindError>)
        ensures
            r == self@.via_table(entry, address),
    {
        let text_addr = self.er.text().start;
        match entry_offset(entry, self.eh_frame_addr) {
            Ok(offset) => checked_fde(
                fde_at(self.eh_frame.as_slice(), self.eh_frame_addr, text_addr, offset),
                address,
            ),
            Err(e) => Err(e),
        }
    }

    fn via_header(&self, hdr_addr: u64, address: u64) -> (r: Result<Fde, UnwindError>)
        requires
            hdr_addr == self@.hdr_addr(),
        ensures
            r == self@.via_header(address),
    {
        let text_addr = self.er.text().start;
        let info = match parse_header(self.hdr.as_slice(), hdr_addr, text_addr) {
            Ok(info) => info,
            Err(e) => { return Err(e); },
        };
        if info.entries == 0 {
            return self.scan(address);
        }
        if info.entries > self.hdr.len() / 4 {
            return Err(UnwindError::Parse);
        }
        match table_lookup(self.hdr.as_slice(), hdr_addr, text_addr, address) {
            Ok(Some(entry)) => self.via_table(entry, address),
            Ok(None) => self.scan(address),
            Err(e) => Err(e),
        }
    }

    /// The frame description entry that describes `address`.
    pub fn find_fde(&self, address: u64) -> (r: Result<Fde, UnwindError>)
        ensures
            r == self@.find_fde(address),
            r matches Ok(fde) ==> fde.spec_contains(address),
    {
        if !self.complete {
            return Err(UnwindError::UnmappedAddress);
        }
        match self.er {
            EhRef::WithHeader { eh_frame_hdr, .. } => self.via_header(eh_frame_hdr.start, address),
            EhRef::WithoutHeader { .. } => self.scan(address),
        }
    }

    /// The unwind information for `address`.
    pub fn unwind_info_for_address(&self, address: u64) -> (r: Result<UnwindInfo, UnwindError>)
        ensures
            info_is(r, self@.unwind_info(address)),
            r matches Ok(info) ==> info.row.start <= address < info.row.end,
    {
        let fde = match self.find_fde(address) {
            Ok(fde) => fde,
            Err(e) => { return Err(e); },
        };
        let text_addr = self.er.text().start;
        let raw = match row_at(
            self.eh_frame.as_slice(),
            self.eh_frame_addr,
            text_addr,
            fde.offset,
            address,
        ) {
            Ok(raw) => raw,
            Err(e) => { return Err(e); },
        };
        Ok(
            UnwindInfo {
                row: read_row(&raw),
                personality: fde.personality,
                lsda: fde.lsda,
                initial_address: fde.initial_address,
            },
        )
    }
}

/// The records of `refs`: one for each reference, in their order.
pub open spec fn spec_records(refs: Seq<EhRef>, memory: Memory) -> Seq<ObjectRecordView> {
    Seq::new(refs.len(), |i: int| spec_record(refs[i], memory))
}

/// The index of the first record whose text holds `address`.
pub open spec fn first_with_text(records: Seq<ObjectRecordView>, address: u64) -> Option<int>
    decreases records.len(),
{
    if records.len() == 0 {
        None
    } else {
        match first_with_text(records.drop_last(), address) {
            Some(i) => Some(i),
            None => if records.last().er.spec_text().spec_contains(address) {
                Some(records.len() - 1)
            } else {
                None
            },
        }
    }
}

/// All loaded objects with their call frame information.
pub struct DwarfUnwinder {
    pub arch: Arch,
    pub cfi: Vec<ObjectRecord>,
}

impl DwarfUnwinder {
    /// The records as mathematical values.
    pub open spec fn records(self) -> Seq<ObjectRecordView> {
        Seq::new(self.cfi@.len(), |i: int| self.cfi@[i]@)
    }

    /// The index of the record of the object whose text holds `address`; the
    /// first one, where several do.
    pub open spec fn spec_record_for(self, address: u64) -> Option<int> {
        first_with_text(self.records(), address)
    }

    /// Prepares the records of all objects in `refs` from the snapshot. An
    /// unwinder is made whatever the objects hold: an object whose unwind
    /// data cannot be read or parsed has a record too, and a walk that comes
    /// to its text reports what is wrong with it.
    pub fn new(arch: Arch, refs: &Vec<EhRef>, memory: &Memory) -> (r: DwarfUnwinder)
        ensures
            r.arch == arch,
            r.records() == spec_records(refs@, *memory),
    {
        let mut cfi: Vec<ObjectRecord> = Vec::new();
        let mut i: usize = 0;
        while i < refs.len()
            invariant
                i <= refs.len(),
                cfi@.len() == i,
                forall|k: int| 0 <= k < i ==> (#[trigger] cfi@[k])@ == spec_record(refs@[k], *memory),
            decreases refs.len() - i,
        {
            cfi.push(ObjectRecord::new(refs[i], memory));
            i += 1;
        }
        let unwinder = DwarfUnwinder { arch, cfi };
        assert(unwinder.records() =~= spec_records(refs@, *memory));
        unwinder
    }

    /// The object whose text holds `address`.
    pub fn record_for(&self, address: u64) -> (r: Option<usize>)
        ensures
            match r {
                Some(i) => self.spec_record_for(address) == Some(i as int) && i < self.cfi@.len(),
                None => self.spec_record_for(address) is None,
            },
    {
        let mut i: usize = 0;
        while i < self.cfi.len()
            invariant
                i <= self.cfi.len(),
                first_with_text(self.records().take(i as int), address) is None,
            decreases self.cfi.len() - i,
        {
            proof {
                assert(self.records().take(i + 1).drop_last() =~= self.records().take(i as int));
                lemma_first_with_text_stays(self.records(), i + 1, address);
            }
            if self.cfi[i].er.text().contains(address) {
                return Some(i);
            }
            i += 1;
        }
        assert(self.records().take(i as int) =~= self.records());
        None
    }

    /// The unwind data references of the objects, in their order.
    pub fn eh_refs(&self) -> (r: Vec<EhRef>)
        ensures
            r@ == Seq::new(self.records().len(), |i: int| self.records()[i].er),
    {
        let mut refs: Vec<EhRef> = Vec::new();
        let mut i: usize = 0;
        while i < self.cfi.len()
            invariant
                i <= self.cfi.len(),
                refs@ == Seq::new(i as nat, |k: int| self.records()[k].er),
            decreases self.cfi.len() - i,
        {
            refs.push(self.cfi[i].er);
            i += 1;
            assert(refs@ =~= Seq::new(i as nat, |k: int| self.records()[k].er));
        }
        refs
    }
}

proof fn lemma_first_with_text_stays(records: Seq<ObjectRecordView>, n: int, address: u64)
    requires
        0 <= n <= records.len(),
    ensures
        first_with_text(records.take(n), address) is Some ==> first_with_text(records, address)
            == first_with_text(records.take(n), address),
    decreases records.len() - n,
{
    if n == records.len() {
        assert(records.take(n) =~= records);
    } else {
        assert(records.take(n + 1).drop_last() =~= records.take(n));
        lemma_first_with_text_stays(records, n + 1, address);
    }
}

/// The record that a lookup by address yields is one whose text holds the
/// address, and no record before it does.
pub proof fn lemma_first_with_text(records: Seq<ObjectRecordView>, address: u64)
    ensures
        match first_with_text(records, address) {
            Some(i) => 0 <= i < records.len() && records[i].er.spec_text().spec_contains(address)
                && forall|j: int|
                0 <= j < i ==> !(#[trigger] records[j]).er.spec_text().spec_contains(address),
            None => forall|j: int|
                0 <= j < records.len() ==> !(#[trigger] records[j]).er.spec_text().spec_contains(
                    address,
                ),
        },
    decreases records.len(),
{
    if records.len() > 0 {
        lemma_first_with_text(records.drop_last(), address);
        assert(forall|j: int|
            0 <= j < records.len() - 1 ==> records.drop_last()[j] == #[trigger] records[j]);
    }
}

/// Building the records keeps the references: there is one record for each
/// reference, in the same order, whatever the snapshot holds. Two unwinders
/// made from the same references so describe the same objects.
pub proof fn lemma_records_keep_refs(refs: Seq<EhRef>, memory: Memory)
    ensures
        spec_records(refs, memory).len() == refs.len(),
        forall|i: int|
            0 <= i < refs.len() ==> (#[trigger] spec_records(refs, memory)[i]).er == refs[i],
{
}

/// An object without header has a record without header bytes, and its
/// `.eh_frame` is the range that the reference gives, where the snapshot
/// holds that range.
pub proof fn lemma_record_without_header(text: AddrRange, eh_frame: AddrRange, memory: Memory)
    ensures
        ({
            let record = spec_record(EhRef::WithoutHeader { text, eh_frame }, memory);
            &&& record.hdr == Seq::<u8>::empty()
            &&& record.complete ==> record.eh_frame_addr == eh_frame.start && record.eh_frame.len()
                == eh_frame.spec_len() && memory.spec_read_bytes(eh_frame.start, eh_frame.end)
                == Some(record.eh_frame)
        }),
{
}

/// A header that does not parse is reported by the lookups, not when the
/// record is made: where the snapshot holds the header of an object in full
/// and the header does not parse, the object has a complete record, and a
/// lookup of any address in it yields the error of the header.
pub proof fn lemma_unparsed_header_is_reported_by_lookup(
    er: EhRef,
    memory: Memory,
    address: u64,
)
    requires
        er matches EhRef::WithHeader { text, eh_frame_hdr, .. } && (
        match memory.spec_read_bytes(eh_frame_hdr.start, eh_frame_hdr.end) {
            Some(hdr) => hdr.len() == eh_frame_hdr.spec_len() && header_of(
                hdr,
                eh_frame_hdr.start,
                text.start,
            ) is Err,
            None => false,
        }),
    ensures
        ({
            let record = spec_record(er, memory);
            &&& record.complete
            &&& record.er == er
            &&& record.find_fde(address) is Err
            &&& record.find_fde(address) == Err::<Fde, UnwindError>(
                header_of(record.hdr, record.hdr_addr(), record.text_addr())->Err_0,
            )
            &&& record.unwind_info(address) == Err::<UnwindInfoView, UnwindError>(
                header_of(record.hdr, record.hdr_addr(), record.text_addr())->Err_0,
            )
        }),
{
}

/// An entry that a lookup yields describes the address that was looked up.
pub proof fn lemma_found_fde_describes_address(record: ObjectRecordView, address: u64)
    ensures
        record.find_fde(address) matches Ok(fde) ==> fde.spec_contains(address),
        record.unwind_info(address) matches Ok(info) ==> ({
            &&& record.find_fde(address) matches Ok(fde)
            &&& fde.spec_contains(address)
            &&& info.initial_address == fde.initial_address
        }),
{
}

/// An address that the entry found for it does not describe, as one that
/// falls between two entries, has no unwind information: the lookup answers
/// `NoUnwindInfoForAddress`, whether the entry came from a scan or from the
/// search table.
pub proof fn lemma_address_between_entries(record: ObjectRecordView, fde: Fde, address: u64)
    requires
        record.complete,
        !fde.spec_contains(address),
        match record.er {
            EhRef::WithHeader { .. } => match header_of(
                record.hdr,
                record.hdr_addr(),
                record.text_addr(),
            ) {
                Ok(info) => if info.entries == 0 {
                    scanned_fde(
                        record.eh_frame,
                        record.eh_frame_addr,
                        record.text_addr(),
                        address,
                    ) == Ok::<Fde, UnwindError>(fde)
                } else {
                    info.entries <= record.hdr.len() / 4 && (match table_entry(
                        record.hdr,
                        record.hdr_addr(),
                        record.text_addr(),
                        address,
                    ) {
                        Ok(Some(Pointer::Direct(at))) => at >= record.eh_frame_addr && at
                            - record.eh_frame_addr <= usize::MAX && fde_entry(
                            record.eh_frame,
                            record.eh_frame_addr,
                            record.text_addr(),
                            (at - record.eh_frame_addr) as usize,
                        ) == Ok::<Fde, UnwindError>(fde),
                        Ok(None) => scanned_fde(
                            record.eh_frame,
                            record.eh_frame_addr,
                            record.text_addr(),
                            address,
                        ) == Ok::<Fde, UnwindError>(fde),
                        _ => false,
                    })
                },
                Err(_) => false,
            },
            EhRef::WithoutHeader { .. } => scanned_fde(
                record.eh_frame,
                record.eh_frame_addr,
                record.text_addr(),
                address,
            ) == Ok::<Fde, UnwindError>(fde),
        },
    ensures
        record.find_fde(address) == Err::<Fde, UnwindError>(UnwindError::NoUnwindInfoForAddress),
        record.unwind_info(address) == Err::<UnwindInfoView, UnwindError>(
            UnwindError::NoUnwindInfoForAddress,
        ),
{
}

} // verus!

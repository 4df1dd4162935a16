//! The frame iterator: from the registers of a frame to those of its caller.

use crate::cfi::{CfaRule, Pointer, RegisterRule, RowView, UnwindRow};
use crate::error::UnwindError;
use crate::memory::Memory;
use crate::registers::{Arch, Registers, REGISTER_COUNT};
use crate::unwinder::{deref_ptr, spec_deref_ptr, DwarfUnwinder, UnwindInfo, UnwindInfoView};
use vstd::prelude::*;

verus! {

/// What is known of one caller frame.
#[derive(Debug, Clone, Copy, PartialEq, Eq, Structural)]
pub struct StackFrame {
    personality: Option<u64>,
    lsda: Option<u64>,
    initial_address: u64,
    object_base: u64,
}

impl StackFrame {
    /// The address of the personality routine of the frame's function.
    pub closed spec fn spec_personality(self) -> Option<u64> {
        self.personality
    }

    /// The address of the language-specific data of the frame's function.
    pub closed spec fn spec_lsda(self) -> Option<u64> {
        self.lsda
    }

    /// The first address of the frame's function.
    pub closed spec fn spec_initial_address(self) -> u64 {
        self.initial_address
    }

    /// Where the text of the object that holds the function starts.
    pub closed spec fn spec_object_base(self) -> u64 {
        self.object_base
    }

    /// The frame with the given attributes.
    pub closed spec fn spec_new(
        personality: Option<u64>,
        lsda: Option<u64>,
        initial_address: u64,
        object_base: u64,
    ) -> StackFrame {
        StackFrame { personality, lsda, initial_address, object_base }
    }

    /// A frame is the attributes that it holds.
    pub broadcast proof fn lemma_attributes(
        personality: Option<u64>,
        lsda: Option<u64>,
        initial_address: u64,
        object_base: u64,
    )
        ensures
            ({
                let frame = #[trigger] StackFrame::spec_new(
                    personality,
                    lsda,
                    initial_address,
                    object_base,
                );
                frame.spec_personality() == personality && frame.spec_lsda() == lsda
                    && frame.spec_initial_address() == initial_address
                    && frame.spec_object_base() == object_base
            }),
    {
    }

    pub fn new(
        personality: Option<u64>,
        lsda: Option<u64>,
        initial_address: u64,
        object_base: u64,
    ) -> (r: StackFrame)
        ensures
            r == StackFrame::spec_new(personality, lsda, initial_address, object_base),
    {
        StackFrame { personality, lsda, initial_address, object_base }
    }

    pub fn personality(&self) -> (r: Option<u64>)
        ensures
            r == self.spec_personality(),
    {
        self.personality
    }

    pub fn lsda(&self) -> (r: Option<u64>)
        ensures
            r == self.spec_lsda(),
    {
        self.lsda
    }

    pub fn initial_address(&self) -> (r: u64)
        ensures
            r == self.spec_initial_address(),
    {
        self.initial_address
    }

    pub fn object_base(&self) -> (r: u64)
        ensures
            r == self.spec_object_base(),
    {
        self.object_base
    }
}

/// The address `n` bytes from `cfa`, in 64-bit arithmetic that wraps around.
pub open spec fn offset_address(cfa: u64, n: i64) -> u64 {
    if cfa + n > u64::MAX {
        (cfa + n - 0x1_0000_0000_0000_0000) as u64
    } else if cfa + n < 0 {
        (cfa + n + 0x1_0000_0000_0000_0000) as u64
    } else {
        (cfa + n) as u64
    }
}

/// The value that `rule` gives to a register of the caller. Rules read the
/// registers `old` of the frame that is left, never those of the caller.
pub open spec fn rule_value(
    rule: RegisterRule,
    register: u16,
    old: Seq<Option<u64>>,
    cfa: u64,
    memory: Memory,
) -> Result<Option<u64>, UnwindError> {
    match rule {
        RegisterRule::Undefined => Ok(None),
        RegisterRule::SameValue => Ok(old[register as int]),
        RegisterRule::Register(from) => if from < REGISTER_COUNT {
            Ok(old[from as int])
        } else {
            Err(UnwindError::InvalidRule)
        },
        RegisterRule::Offset(n) => match memory.spec_read_u64(offset_address(cfa, n)) {
            Some(value) => Ok(Some(value)),
            None => Err(UnwindError::UnmappedAddress),
        },
        RegisterRule::ValOffset(n) => Ok(Some(offset_address(cfa, n))),
        RegisterRule::Expression => Err(UnwindError::Unimplemented),
        RegisterRule::ValExpression => Err(UnwindError::Unimplemented),
        RegisterRule::Architectural => Err(UnwindError::InvalidRule),
        RegisterRule::Constant(value) => Ok(Some(value)),
    }
}

/// The registers `start` after the rules were applied in their order. A rule
/// for the stack pointer is passed over; the first rule that cannot be
/// applied gives the error.
pub open spec fn apply_rules(
    rules: Seq<(u16, RegisterRule)>,
    start: Seq<Option<u64>>,
    old: Seq<Option<u64>>,
    cfa: u64,
    memory: Memory,
    arch: Arch,
) -> Result<Seq<Option<u64>>, UnwindError>
    decreases rules.len(),
{
    if rules.len() == 0 {
        Ok(start)
    } else {
        match apply_rules(rules.drop_last(), start, old, cfa, memory, arch) {
            Ok(registers) => {
                let (register, rule) = rules.last();
                if register == arch.spec_stack_pointer() {
                    Ok(registers)
                } else if register >= REGISTER_COUNT {
                    Err(UnwindError::InvalidRule)
                } else {
                    match rule_value(rule, register, old, cfa, memory) {
                        Ok(value) => Ok(registers.update(register as int, value)),
                        Err(e) => Err(e),
                    }
                }
            },
            Err(e) => Err(e),
        }
    }
}

/// The registers of the caller of a frame with registers `old`, for the table
/// row and canonical frame address of that frame: the return address is
/// cleared, the rules of the row are applied, and the stack pointer is the
/// canonical frame address.
pub open spec fn caller_registers(
    old: Seq<Option<u64>>,
    row: RowView,
    cfa: u64,
    memory: Memory,
    arch: Arch,
) -> Result<Seq<Option<u64>>, UnwindError> {
    match apply_rules(
        row.rules,
        old.update(arch.spec_return_address() as int, None),
        old,
        cfa,
        memory,
        arch,
    ) {
        Ok(registers) => Ok(registers.update(arch.spec_stack_pointer() as int, Some(cfa))),
        Err(e) => Err(e),
    }
}

/// The registers with which a step looks for the next frame: those of the
/// caller where a row is pending, else the registers as they are.
pub open spec fn stepped_registers(
    old: Seq<Option<u64>>,
    pending: Option<(RowView, u64)>,
    memory: Memory,
    arch: Arch,
) -> Result<Seq<Option<u64>>, UnwindError> {
    match pending {
        Some((row, cfa)) => caller_registers(old, row, cfa, memory, arch),
        None => Ok(old),
    }
}

/// The canonical frame address that `rule` gives for `registers`.
pub open spec fn spec_cfa(rule: CfaRule, registers: Seq<Option<u64>>) -> Result<u64, UnwindError> {
    match rule {
        CfaRule::RegisterAndOffset { register, offset } => if register >= REGISTER_COUNT {
            Err(UnwindError::InvalidRule)
        } else {
            match registers[register as int] {
                Some(value) => Ok(offset_address(value, offset)),
                None => Err(UnwindError::MissingRegister),
            }
        },
        CfaRule::Expression => Err(UnwindError::Unimplemented),
    }
}

/// The address at which the unwind information of a frame is looked up: the
/// address just before the return address, which lies in the call
/// instruction. There is none where the return address is not known.
pub open spec fn lookup_address(registers: Seq<Option<u64>>, arch: Arch) -> Option<int> {
    match registers[arch.spec_return_address() as int] {
        Some(ip) => Some(ip - 1),
        None => None,
    }
}

/// The frame, and the row and canonical frame address to keep for the next
/// step, that the unwind information `info` of an object gives.
pub open spec fn frame_of(
    info: UnwindInfoView,
    object_base: u64,
    registers: Seq<Option<u64>>,
    memory: Memory,
) -> Result<(StackFrame, RowView, u64), UnwindError> {
    match spec_cfa(info.row.cfa, registers) {
        Ok(cfa) => match deref_attribute(info.personality, memory) {
            Ok(personality) => match deref_attribute(info.lsda, memory) {
                Ok(lsda) => Ok(
                    (
                        StackFrame::spec_new(personality, lsda, info.initial_address, object_base),
                        info.row,
                        cfa,
                    ),
                ),
                Err(e) => Err(e),
            },
            Err(e) => Err(e),
        },
        Err(e) => Err(e),
    }
}

/// The value of an optional pointer of a frame description entry.
pub open spec fn deref_attribute(ptr: Option<Pointer>, memory: Memory) -> Result<
    Option<u64>,
    UnwindError,
> {
    match ptr {
        Some(ptr) => match spec_deref_ptr(ptr, memory) {
            Some(value) => Ok(Some(value)),
            None => Err(UnwindError::UnmappedAddress),
        },
        None => Ok(None),
    }
}

/// The frame found for `registers`: none where the return address is not
/// known; else the frame of the first object whose text holds the lookup
/// address, from the unwind information of that object for the address.
pub open spec fn find_frame(
    unwinder: DwarfUnwinder,
    registers: Seq<Option<u64>>,
    memory: Memory,
) -> Result<Option<(StackFrame, RowView, u64)>, UnwindError> {
    match lookup_address(registers, unwinder.arch) {
        None => Ok(None),
        Some(caller) => if caller < 0 {
            Err(UnwindError::NoUnwindInfoForAddress)
        } else {
            match unwinder.spec_record_for(caller as u64) {
                Some(i) => match unwinder.records()[i].unwind_info(caller as u64) {
                    Ok(info) => match frame_of(
                        info,
                        unwinder.records()[i].text_addr(),
                        registers,
                        memory,
                    ) {
                        Ok(found) => Ok(Some(found)),
                        Err(e) => Err(e),
                    },
                    Err(e) => Err(e),
                },
                None => Err(UnwindError::NoUnwindInfoForAddress),
            }
        },
    }
}

/// What one step of the walk leaves behind: its answer, the registers, and
/// the row and canonical frame address that are kept for the next step.
pub struct Outcome {
    pub result: Result<Option<StackFrame>, UnwindError>,
    pub registers: Seq<Option<u64>>,
    pub pending: Option<(RowView, u64)>,
}

/// One step of the walk. Where the rules of the pending row cannot be
/// applied, the registers stay as they were. Else they become those of the
/// caller, and the frame for them is looked up. Nothing is kept for the next
/// step unless a frame was found.
pub open spec fn spec_next(
    unwinder: DwarfUnwinder,
    memory: Memory,
    registers: Seq<Option<u64>>,
    pending: Option<(RowView, u64)>,
) -> Outcome {
    match stepped_registers(registers, pending, memory, unwinder.arch) {
        Ok(stepped) => match find_frame(unwinder, stepped, memory) {
            Ok(Some((frame, row, cfa))) => Outcome {
                result: Ok(Some(frame)),
                registers: stepped,
                pending: Some((row, cfa)),
            },
            Ok(None) => Outcome { result: Ok(None), registers: stepped, pending: None },
            Err(e) => Outcome { result: Err(e), registers: stepped, pending: None },
        },
        Err(e) => Outcome { result: Err(e), registers, pending: None },
    }
}

/// A cursor over the caller frames of a thread, from the innermost outwards.
pub struct StackFrames<'a> {
    pub unwinder: &'a DwarfUnwinder,
    pub memory: &'a Memory,
    pub registers: Registers,
    /// The table row and canonical frame address of the frame that was
    /// yielded last. Its rules are applied by the next step.
    pub state: Option<(UnwindRow, u64)>,
}

impl<'a> StackFrames<'a> {
    /// The pending row and canonical frame address as mathematical values.
    pub open spec fn pending(self) -> Option<(RowView, u64)> {
        match self.state {
            Some((row, cfa)) => Some((row@, cfa)),
            None => None,
        }
    }

    /// What the next step will leave behind.
    pub open spec fn outcome(self) -> Outcome {
        spec_next(*self.unwinder, *self.memory, self.registers@, self.pending())
    }

    /// A cursor that starts at the frame with the given registers.
    pub fn new(unwinder: &'a DwarfUnwinder, memory: &'a Memory, registers: Registers) -> (r: Self)
        ensures
            r.unwinder == unwinder,
            r.memory == memory,
            r.registers@ == registers@,
            r.state is None,
    {
        StackFrames { unwinder, memory, registers, state: None }
    }

    /// The registers of the frame that the cursor is at, for reading and for
    /// writing.
    pub fn registers(&mut self) -> (r: &mut Registers)
        ensures
            *r == old(self).registers,
            final(self).registers == *final(r),
            final(self).unwinder == old(self).unwinder,
            final(self).memory == old(self).memory,
            final(self).state == old(self).state,
    {
        &mut self.registers
    }

    /// Steps to the next caller frame. The rules of the row that the previous
    /// step found are applied first; then the frame of the return address is
    /// looked up, and its row is kept for the step after this one. The walk
    /// ends with `Ok(None)` where no return address is known.
    pub fn next(&mut self) -> (r: Result<Option<StackFrame>, UnwindError>)
        ensures
            final(self).unwinder == old(self).unwinder,
            final(self).memory == old(self).memory,
            r == old(self).outcome().result,
            final(self).registers@ == old(self).outcome().registers,
            final(self).pending() == old(self).outcome().pending,
    {
        let arch = self.unwinder.arch;
        match self.state.take() {
            Some((row, cfa)) => {
                match apply_row(&self.registers, &row, cfa, self.memory, arch) {
                    Ok(registers) => {
                        self.registers = registers;
                    },
                    Err(e) => {
                        return Err(e);
                    },
                }
            },
            None => {},
        }
        proof {
            self.registers.lemma_len();
        }
        let ip = match self.registers.get(arch.return_address()) {
            Some(ip) => ip,
            None => {
                return Ok(None);
            },
        };
        if ip == 0 {
            return Err(UnwindError::NoUnwindInfoForAddress);
        }
        let caller: u64 = ip - 1;
        let i = match self.unwinder.record_for(caller) {
            Some(i) => i,
            None => {
                return Err(UnwindError::NoUnwindInfoForAddress);
            },
        };
        let record = &self.unwinder.cfi[i];
        let info = match record.unwind_info_for_address(caller) {
            Ok(info) => info,
            Err(e) => {
                return Err(e);
            },
        };
        match unwound_frame(info, record.er.text().start, &self.registers, self.memory) {
            Ok((frame, row, cfa)) => {
                self.state = Some((row, cfa));
                Ok(Some(frame))
            },
            Err(e) => Err(e),
        }
    }
}

fn deref_optional(ptr: Option<Pointer>, memory: &Memory) -> (r: Result<
    Option<u64>,
    UnwindError,
>)
    ensures
        r == deref_attribute(ptr, *memory),
{
    match ptr {
        Some(ptr) => match deref_ptr(ptr, memory) {
            Some(value) => Ok(Some(value)),
            None => Err(UnwindError::UnmappedAddress),
        },
        None => Ok(None),
    }
}

/// Whether a result is the given mathematical value.
pub open spec fn found_is(
    r: Result<(StackFrame, UnwindRow, u64), UnwindError>,
    expected: Result<(StackFrame, RowView, u64), UnwindError>,
) -> bool {
    match (r, expected) {
        (Ok((frame, row, cfa)), Ok((expected_frame, expected_row, expected_cfa))) => frame
            == expected_frame && row@ == expected_row && cfa == expected_cfa,
        (Err(e), Err(expected)) => e == expected,
        _ => false,
    }
}

/// The frame that the unwind information of an object gives for the
/// registers of the frame's callee, with the row and the canonical frame
/// address to keep for the next step. The canonical frame address is
/// computed first, then the personality routine and the language-specific
/// data are resolved; the first of these that fails gives the error.
pub fn unwound_frame(
    info: UnwindInfo,
    object_base: u64,
    registers: &Registers,
    memory: &Memory,
) -> (r: Result<(StackFrame, UnwindRow, u64), UnwindError>)
    ensures
        found_is(r, frame_of(info@, object_base, registers@, *memory)),
{
    let cfa = match compute_cfa(&info.row.cfa, registers) {
        Ok(cfa) => cfa,
        Err(e) => {
            return Err(e);
        },
    };
    let personality = match deref_optional(info.personality, memory) {
        Ok(personality) => personality,
        Err(e) => {
            return Err(e);
        },
    };
    let lsda = match deref_optional(info.lsda, memory) {
        Ok(lsda) => lsda,
        Err(e) => {
            return Err(e);
        },
    };
    Ok((StackFrame::new(personality, lsda, info.initial_address, object_base), info.row, cfa))
}

/// The canonical frame address of the frame with the given registers.
pub fn compute_cfa(rule: &CfaRule, registers: &Registers) -> (r: Result<u64, UnwindError>)
    ensures
        r == spec_cfa(*rule, registers@),
{
    match rule {
        CfaRule::RegisterAndOffset { register, offset } => {
            if *register >= REGISTER_COUNT as u16 {
                return Err(UnwindError::InvalidRule);
            }
            match registers.get(*register as u8) {
                Some(value) => Ok(value.wrapping_add_signed(*offset)),
                None => Err(UnwindError::MissingRegister),
            }
        },
        CfaRule::Expression => Err(UnwindError::Unimplemented),
    }
}

fn compute_rule(
    rule: RegisterRule,
    register: u8,
    old: &Registers,
    cfa: u64,
    memory: &Memory,
) -> (r: Result<Option<u64>, UnwindError>)
    requires
        register < REGISTER_COUNT,
    ensures
        r == rule_value(rule, register as u16, old@, cfa, *memory),
{
    match rule {
        RegisterRule::Undefined => Ok(None),
        RegisterRule::SameValue => Ok(old.get(register)),
        RegisterRule::Register(from) => if from < REGISTER_COUNT as u16 {
            Ok(old.get(from as u8))
        } else {
            Err(UnwindError::InvalidRule)
        },
        RegisterRule::Offset(n) => match memory.read_u64(cfa.wrapping_add_signed(n)) {
            Some(value) => Ok(Some(value)),
            None => Err(UnwindError::UnmappedAddress),
        },
        RegisterRule::ValOffset(n) => Ok(Some(cfa.wrapping_add_signed(n))),
        RegisterRule::Expression => Err(UnwindError::Unimplemented),
        RegisterRule::ValExpression => Err(UnwindError::Unimplemented),
        RegisterRule::Architectural => Err(UnwindError::InvalidRule),
        RegisterRule::Constant(value) => Ok(Some(value)),
    }
}

/// Whether a result is the given mathematical value.
pub open spec fn registers_are(
    r: Result<Registers, UnwindError>,
    expected: Result<Seq<Option<u64>>, UnwindError>,
) -> bool {
    match (r, expected) {
        (Ok(registers), Ok(values)) => registers@ == values,
        (Err(e), Err(expected)) => e == expected,
        _ => false,
    }
}

/// The registers of the caller of the frame with registers `old`.
pub fn apply_row(old: &Registers, row: &UnwindRow, cfa: u64, memory: &Memory, arch: Arch) -> (r:
    Result<Registers, UnwindError>)
    ensures
        registers_are(r, caller_registers(old@, row@, cfa, *memory, arch)),
{
    let ra = arch.return_address();
    let sp = arch.stack_pointer();
    let mut registers = old.clone();
    registers.set(ra, None);
    let ghost start = registers@;
    let mut i: usize = 0;
    while i < row.rules.len()
        invariant
            i <= row.rules.len(),
            sp == arch.spec_stack_pointer(),
            start == old@.update(arch.spec_return_address() as int, None),
            apply_rules(row.rules@.take(i as int), start, old@, cfa, *memory, arch) == Ok::<
                Seq<Option<u64>>,
                UnwindError,
            >(registers@),
        decreases row.rules.len() - i,
    {
        proof {
            assert(row.rules@.take(i + 1).drop_last() =~= row.rules@.take(i as int));
            lemma_apply_error_stays(row.rules@, i + 1, start, old@, cfa, *memory, arch);
        }
        let (register, rule) = row.rules[i];
        if register != sp as u16 {
            if register >= REGISTER_COUNT as u16 {
                return Err(UnwindError::InvalidRule);
            }
            match compute_rule(rule, register as u8, old, cfa, memory) {
                Ok(value) => {
                    registers.set(register as u8, value);
                },
                Err(e) => {
                    return Err(e);
                },
            }
        }
        i += 1;
    }
    assert(row.rules@.take(i as int) =~= row.rules@);
    registers.set(sp, Some(cfa));
    Ok(registers)
}

proof fn lemma_apply_error_stays(
    rules: Seq<(u16, RegisterRule)>,
    n: int,
    start: Seq<Option<u64>>,
    old: Seq<Option<u64>>,
    cfa: u64,
    memory: Memory,
    arch: Arch,
)
    requires
        0 <= n <= rules.len(),
    ensures
        apply_rules(rules.take(n), start, old, cfa, memory, arch) is Err ==> apply_rules(
            rules,
            start,
            old,
            cfa,
            memory,
            arch,
        ) == apply_rules(rules.take(n), start, old, cfa, memory, arch),
    decreases rules.len() - n,
{
    if n == rules.len() {
        assert(rules.take(n) =~= rules);
    } else {
        assert(rules.take(n + 1).drop_last() =~= rules.take(n));
        lemma_apply_error_stays(rules, n + 1, start, old, cfa, memory, arch);
    }
}

/// Applying rules changes no register's place: the register file keeps its
/// length.
pub proof fn lemma_apply_rules_len(
    rules: Seq<(u16, RegisterRule)>,
    start: Seq<Option<u64>>,
    old: Seq<Option<u64>>,
    cfa: u64,
    memory: Memory,
    arch: Arch,
)
    requires
        start.len() == REGISTER_COUNT,
    ensures
        apply_rules(rules, start, old, cfa, memory, arch) matches Ok(registers)
            ==> registers.len() == start.len(),
    decreases rules.len(),
{
    if rules.len() > 0 {
        lemma_apply_rules_len(rules.drop_last(), start, old, cfa, memory, arch);
    }
}

/// A register that no rule of the row names keeps the value that it had when
/// the rules were applied.
pub proof fn lemma_register_without_rule(
    rules: Seq<(u16, RegisterRule)>,
    start: Seq<Option<u64>>,
    old: Seq<Option<u64>>,
    cfa: u64,
    memory: Memory,
    arch: Arch,
    register: int,
)
    requires
        start.len() == REGISTER_COUNT,
        0 <= register < start.len(),
        forall|j: int| 0 <= j < rules.len() ==> (#[trigger] rules[j]).0 != register,
    ensures
        apply_rules(rules, start, old, cfa, memory, arch) matches Ok(registers)
            ==> registers[register] == start[register],
    decreases rules.len(),
{
    if rules.len() > 0 {
        assert(forall|j: int|
            0 <= j < rules.len() - 1 ==> rules.drop_last()[j] == #[trigger] rules[j]);
        lemma_register_without_rule(rules.drop_last(), start, old, cfa, memory, arch, register);
        lemma_apply_rules_len(rules.drop_last(), start, old, cfa, memory, arch);
    }
}

/// Register identity: in the registers of the caller, the stack pointer is
/// the canonical frame address of the frame that was left.
pub proof fn lemma_stack_pointer_is_cfa(
    old: Seq<Option<u64>>,
    row: RowView,
    cfa: u64,
    memory: Memory,
    arch: Arch,
)
    requires
        old.len() == REGISTER_COUNT,
    ensures
        caller_registers(old, row, cfa, memory, arch) matches Ok(registers) ==> registers.len()
            == REGISTER_COUNT && registers[arch.spec_stack_pointer() as int] == Some(cfa),
{
    lemma_apply_rules_len(
        row.rules,
        old.update(arch.spec_return_address() as int, None),
        old,
        cfa,
        memory,
        arch,
    );
}

/// A row that takes the canonical frame address from the stack pointer, with
/// an offset that is not negative and does not wrap around, is a row of a
/// stack that grows downward, and the address that it gives is the one of
/// the frame that was left plus the offset.
pub proof fn lemma_cfa_grows_by_stack_pointer_offset(
    old: Seq<Option<u64>>,
    row: RowView,
    cfa: u64,
    memory: Memory,
    arch: Arch,
    offset: i64,
)
    requires
        old.len() == REGISTER_COUNT,
        0 <= offset,
        cfa + offset <= u64::MAX,
    ensures
        caller_registers(old, row, cfa, memory, arch) matches Ok(registers) ==> ({
            let rule = CfaRule::RegisterAndOffset {
                register: arch.spec_stack_pointer() as u16,
                offset,
            };
            &&& caller_frame_lies_above(rule, registers, cfa)
            &&& spec_cfa(rule, registers) == Ok::<u64, UnwindError>((cfa + offset) as u64)
        }),
{
    lemma_stack_pointer_is_cfa(old, row, cfa, memory, arch);
}

/// Return-address adjustment: the address at which a frame is looked up is
/// the return address, as the rules of the previous row left it, less one.
pub proof fn lemma_lookup_address_precedes_return_address(
    old: Seq<Option<u64>>,
    pending: Option<(RowView, u64)>,
    memory: Memory,
    arch: Arch,
)
    ensures
        stepped_registers(old, pending, memory, arch) matches Ok(registers) ==> (
        match registers[arch.spec_return_address() as int] {
            Some(ip) => lookup_address(registers, arch) == Some(ip - 1),
            None => lookup_address(registers, arch) is None,
        }),
{
}

/// Where no return address is known, the walk ends: no frame is found, and
/// no error is reported. A cursor without a pending row looks at its
/// registers as they are.
pub proof fn lemma_no_return_address_ends_walk(
    unwinder: DwarfUnwinder,
    registers: Seq<Option<u64>>,
    memory: Memory,
)
    requires
        registers[unwinder.arch.spec_return_address() as int] is None,
    ensures
        stepped_registers(registers, None, memory, unwinder.arch) == Ok::<
            Seq<Option<u64>>,
            UnwindError,
        >(registers),
        find_frame(unwinder, registers, memory) == Ok::<
            Option<(StackFrame, RowView, u64)>,
            UnwindError,
        >(None),
{
}

proof fn lemma_undefined_stays_unknown(
    rules: Seq<(u16, RegisterRule)>,
    start: Seq<Option<u64>>,
    old: Seq<Option<u64>>,
    cfa: u64,
    memory: Memory,
    arch: Arch,
    register: int,
)
    requires
        start.len() == REGISTER_COUNT,
        0 <= register < start.len(),
        start[register] is None,
        forall|j: int|
            0 <= j < rules.len() && (#[trigger] rules[j]).0 == register
                ==> rules[j].1 is Undefined,
    ensures
        apply_rules(rules, start, old, cfa, memory, arch) matches Ok(registers)
            ==> registers[register] is None,
    decreases rules.len(),
{
    if rules.len() > 0 {
        assert(forall|j: int|
            0 <= j < rules.len() - 1 ==> rules.drop_last()[j] == #[trigger] rules[j]);
        lemma_undefined_stays_unknown(rules.drop_last(), start, old, cfa, memory, arch, register);
        lemma_apply_rules_len(rules.drop_last(), start, old, cfa, memory, arch);
    }
}

/// A row whose only rule for the return address is `Undefined`, or that has
/// no rule for it, ends the walk: the caller has no return address, so the
/// next step finds no frame and reports no error.
pub proof fn lemma_undefined_return_address_ends_walk(
    unwinder: DwarfUnwinder,
    old: Seq<Option<u64>>,
    row: RowView,
    cfa: u64,
    memory: Memory,
)
    requires
        old.len() == REGISTER_COUNT,
        forall|j: int|
            0 <= j < row.rules.len() && (#[trigger] row.rules[j]).0
                == unwinder.arch.spec_return_address() ==> row.rules[j].1 is Undefined,
    ensures
        caller_registers(old, row, cfa, memory, unwinder.arch) matches Ok(registers)
            ==> registers[unwinder.arch.spec_return_address() as int] is None && find_frame(
            unwinder,
            registers,
            memory,
        ) == Ok::<Option<(StackFrame, RowView, u64)>, UnwindError>(None),
{
    let arch = unwinder.arch;
    let start = old.update(arch.spec_return_address() as int, None);
    lemma_undefined_stays_unknown(
        row.rules,
        start,
        old,
        cfa,
        memory,
        arch,
        arch.spec_return_address() as int,
    );
    lemma_apply_rules_len(row.rules, start, old, cfa, memory, arch);
}

/// Containment: a frame is found only for a return address `ip` whose
/// predecessor `ip - 1` lies in the text of an object and among the
/// addresses that the chosen frame description entry describes. The frame
/// carries the first address of that entry and the start of that text.
pub proof fn lemma_frame_is_contained(
    unwinder: DwarfUnwinder,
    registers: Seq<Option<u64>>,
    memory: Memory,
)
    requires
        find_frame(unwinder, registers, memory) matches Ok(Some(_)),
    ensures
        ({
            let (frame, row, cfa) = find_frame(unwinder, registers, memory)->Ok_0->Some_0;
            &&& registers[unwinder.arch.spec_return_address() as int] matches Some(ip)
            &&& ip >= 1
            &&& unwinder.spec_record_for((ip - 1) as u64) matches Some(i)
            &&& 0 <= i < unwinder.records().len()
            &&& unwinder.records()[i].er.spec_text().start <= ip - 1
                < unwinder.records()[i].er.spec_text().end
            &&& unwinder.records()[i].find_fde((ip - 1) as u64) matches Ok(fde)
            &&& fde.initial_address <= ip - 1 < fde.initial_address + fde.len
            &&& frame.spec_initial_address() == fde.initial_address
            &&& frame.spec_object_base() == unwinder.records()[i].er.spec_text().start
        }),
{
    let ip = registers[unwinder.arch.spec_return_address() as int]->Some_0;
    crate::unwinder::lemma_first_with_text(unwinder.records(), (ip - 1) as u64);
    let i = unwinder.spec_record_for((ip - 1) as u64)->Some_0;
    crate::unwinder::lemma_found_fde_describes_address(unwinder.records()[i], (ip - 1) as u64);
}

/// A stack that grows downward, seen from one frame: the frame of the caller
/// lies above the canonical frame address `cfa` of the frame that is left.
/// The register from which the caller's row takes the caller's own canonical
/// frame address then holds an address that is not below `cfa`, and the
/// offset from it is not negative and leads to an address within 64 bits.
/// This holds of a row that starts from the stack pointer, which is `cfa`
/// itself, and of one that starts from a frame pointer that the caller set
/// up in its own frame.
pub open spec fn caller_frame_lies_above(
    rule: CfaRule,
    caller: Seq<Option<u64>>,
    cfa: u64,
) -> bool {
    match rule {
        CfaRule::RegisterAndOffset { register, offset } => register < REGISTER_COUNT && (
        match caller[register as int] {
            Some(base) => cfa <= base && 0 <= offset && base + offset <= u64::MAX,
            None => false,
        }),
        CfaRule::Expression => false,
    }
}

/// Monotonicity of the canonical frame address: on a stack that grows
/// downward, the canonical frame address that a step keeps is not below the
/// one that the step before it kept, and it is above it where the offset of
/// the caller's row is not zero. The stack pointer that the step leaves is
/// the address that the step before it kept.
pub proof fn lemma_cfa_grows_on_downward_stack(
    unwinder: DwarfUnwinder,
    memory: Memory,
    registers: Seq<Option<u64>>,
    row: RowView,
    cfa: u64,
)
    requires
        registers.len() == REGISTER_COUNT,
        spec_next(unwinder, memory, registers, Some((row, cfa))).pending matches Some(kept)
            && caller_frame_lies_above(
            kept.0.cfa,
            spec_next(unwinder, memory, registers, Some((row, cfa))).registers,
            cfa,
        ),
    ensures
        ({
            let outcome = spec_next(unwinder, memory, registers, Some((row, cfa)));
            let (next_row, next_cfa) = outcome.pending->Some_0;
            &&& outcome.registers[unwinder.arch.spec_stack_pointer() as int] == Some(cfa)
            &&& cfa <= next_cfa
            &&& next_row.cfa matches CfaRule::RegisterAndOffset { register, offset }
            &&& offset > 0 ==> cfa < next_cfa
        }),
{
    lemma_stack_pointer_is_cfa(registers, row, cfa, memory, unwinder.arch);
}

} // verus!

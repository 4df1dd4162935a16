use dwarf_unwind::cfi::{CfaRule, Pointer, RegisterRule, UnwindRow};
use dwarf_unwind::frames::{apply_row, compute_cfa};
use dwarf_unwind::unwinder::deref_ptr;
use dwarf_unwind::{Arch, Memory, Registers, UnwindError};

fn row(rules: Vec<(u16, RegisterRule)>) -> UnwindRow {
    UnwindRow {
        start: 0x1000,
        end: 0x1100,
        cfa: CfaRule::RegisterAndOffset { register: 7, offset: 16 },
        rules,
    }
}

fn stack() -> Memory {
    let mut bytes = Vec::new();
    for word in 0..8u64 {
        bytes.extend_from_slice(&(0xaa00 + word).to_le_bytes());
    }
    let mut memory = Memory::new();
    memory.add_region(0x7000, bytes);
    memory
}

fn registers() -> Registers {
    let mut registers = Registers::new();
    registers.set(3, Some(0x33));
    registers.set(6, Some(0x66));
    registers.set(7, Some(0x7010));
    registers.set(16, Some(0x1040));
    registers
}

fn values(registers: &Registers) -> Vec<(u8, u64)> {
    (0..96u8).filter_map(|i| registers.get(i).map(|value| (i, value))).collect()
}

#[test]
fn cfa_is_register_plus_offset() {
    let registers = registers();
    assert_eq!(
        compute_cfa(&CfaRule::RegisterAndOffset { register: 7, offset: 16 }, &registers),
        Ok(0x7020)
    );
    assert_eq!(
        compute_cfa(&CfaRule::RegisterAndOffset { register: 7, offset: -0x10 }, &registers),
        Ok(0x7000)
    );
    assert_eq!(
        compute_cfa(&CfaRule::RegisterAndOffset { register: 6, offset: 0 }, &registers),
        Ok(0x66)
    );
}

#[test]
fn cfa_wraps_around() {
    let mut registers = Registers::new();
    registers.set(7, Some(u64::MAX));
    assert_eq!(
        compute_cfa(&CfaRule::RegisterAndOffset { register: 7, offset: 1 }, &registers),
        Ok(0)
    );
    registers.set(7, Some(0));
    assert_eq!(
        compute_cfa(&CfaRule::RegisterAndOffset { register: 7, offset: -1 }, &registers),
        Ok(u64::MAX)
    );
    registers.set(7, Some(5));
    assert_eq!(
        compute_cfa(&CfaRule::RegisterAndOffset { register: 7, offset: i64::MIN }, &registers),
        Ok(0x8000_0000_0000_0005)
    );
}

#[test]
fn cfa_that_cannot_be_computed() {
    let registers = registers();
    assert_eq!(compute_cfa(&CfaRule::Expression, &registers), Err(UnwindError::Unimplemented));
    assert_eq!(
        compute_cfa(&CfaRule::RegisterAndOffset { register: 8, offset: 0 }, &registers),
        Err(UnwindError::MissingRegister)
    );
    assert_eq!(
        compute_cfa(&CfaRule::RegisterAndOffset { register: 96, offset: 0 }, &registers),
        Err(UnwindError::InvalidRule)
    );
    assert_eq!(
        compute_cfa(&CfaRule::RegisterAndOffset { register: 95, offset: 0 }, &registers),
        Err(UnwindError::MissingRegister)
    );
}

#[test]
fn row_without_rules_clears_the_return_address() {
    let applied = apply_row(&registers(), &row(vec![]), 0x7020, &stack(), Arch::X86_64).unwrap();
    assert_eq!(values(&applied), vec![(3, 0x33), (6, 0x66), (7, 0x7020)]);
}

#[test]
fn saved_values_are_loaded_from_the_frame() {
    let rules = vec![(16, RegisterRule::Offset(-8)), (6, RegisterRule::Offset(-16))];
    let applied = apply_row(&registers(), &row(rules), 0x7020, &stack(), Arch::X86_64).unwrap();
    assert_eq!(values(&applied), vec![(3, 0x33), (6, 0xaa02), (7, 0x7020), (16, 0xaa03)]);
}

#[test]
fn each_kind_of_rule() {
    let rules = vec![
        (0, RegisterRule::ValOffset(-8)),
        (1, RegisterRule::Register(3)),
        (2, RegisterRule::Constant(0xc0)),
        (3, RegisterRule::Undefined),
        (6, RegisterRule::SameValue),
        (8, RegisterRule::SameValue),
        (9, RegisterRule::Register(16)),
        (10, RegisterRule::Register(10)),
        (16, RegisterRule::Offset(0x18)),
        (95, RegisterRule::ValOffset(0)),
    ];
    let applied = apply_row(&registers(), &row(rules), 0x7020, &stack(), Arch::X86_64).unwrap();
    assert_eq!(
        values(&applied),
        vec![
            (0, 0x7018),
            (1, 0x33),
            (2, 0xc0),
            (6, 0x66),
            (7, 0x7020),
            (9, 0x1040),
            (16, 0xaa07),
            (95, 0x7020)
        ]
    );
}

#[test]
fn rules_read_the_registers_of_the_frame_that_is_left() {
    // Register 1 takes the old value of register 3 although a rule before
    // it gives register 3 a new value, and register 9 takes the old return
    // address although that register was cleared.
    let rules = vec![
        (3, RegisterRule::Constant(7)),
        (1, RegisterRule::Register(3)),
        (9, RegisterRule::Register(16)),
        (6, RegisterRule::Register(7)),
    ];
    let applied = apply_row(&registers(), &row(rules), 0x7020, &stack(), Arch::X86_64).unwrap();
    assert_eq!(
        values(&applied),
        vec![(1, 0x33), (3, 7), (6, 0x7010), (7, 0x7020), (9, 0x1040)]
    );
}

#[test]
fn rule_for_the_stack_pointer_is_passed_over() {
    let rules = vec![(7, RegisterRule::Expression), (6, RegisterRule::Constant(1))];
    let applied = apply_row(&registers(), &row(rules), 0x7020, &stack(), Arch::X86_64).unwrap();
    assert_eq!(values(&applied), vec![(3, 0x33), (6, 1), (7, 0x7020)]);
    // On AArch64 the stack pointer is register 31, and register 7 is an
    // ordinary register with a rule that is refused.
    let rules = vec![(31, RegisterRule::Expression), (6, RegisterRule::Constant(1))];
    let applied = apply_row(&registers(), &row(rules), 0x7020, &stack(), Arch::AArch64).unwrap();
    assert_eq!(
        values(&applied),
        vec![(3, 0x33), (6, 1), (7, 0x7010), (16, 0x1040), (31, 0x7020)]
    );
    let rules = vec![(7, RegisterRule::Expression)];
    assert_eq!(
        apply_row(&registers(), &row(rules), 0x7020, &stack(), Arch::AArch64).err(),
        Some(UnwindError::Unimplemented)
    );
}

#[test]
fn rules_that_cannot_be_applied() {
    let cases = vec![
        (vec![(6, RegisterRule::Expression)], UnwindError::Unimplemented),
        (vec![(6, RegisterRule::ValExpression)], UnwindError::Unimplemented),
        (vec![(6, RegisterRule::Architectural)], UnwindError::InvalidRule),
        (vec![(96, RegisterRule::Undefined)], UnwindError::InvalidRule),
        (vec![(u16::MAX, RegisterRule::Constant(1))], UnwindError::InvalidRule),
        (vec![(6, RegisterRule::Register(96))], UnwindError::InvalidRule),
        (vec![(6, RegisterRule::Offset(0x20))], UnwindError::UnmappedAddress),
        (vec![(6, RegisterRule::Offset(0x19))], UnwindError::UnmappedAddress),
        (vec![(6, RegisterRule::Offset(-0x21))], UnwindError::UnmappedAddress),
        (
            vec![(6, RegisterRule::Architectural), (3, RegisterRule::Expression)],
            UnwindError::InvalidRule,
        ),
        (
            vec![(3, RegisterRule::Constant(1)), (6, RegisterRule::Expression), (96, RegisterRule::Undefined)],
            UnwindError::Unimplemented,
        ),
    ];
    for (rules, error) in cases {
        assert_eq!(
            apply_row(&registers(), &row(rules), 0x7020, &stack(), Arch::X86_64).err(),
            Some(error)
        );
    }
}

#[test]
fn offsets_wrap_around() {
    let mut memory = Memory::new();
    memory.add_region(0, 0x1234_5678u64.to_le_bytes().to_vec());
    let rules = vec![(0, RegisterRule::ValOffset(2)), (1, RegisterRule::Offset(1))];
    let applied = apply_row(&registers(), &row(rules), u64::MAX, &memory, Arch::X86_64).unwrap();
    assert_eq!(applied.get(0), Some(1));
    assert_eq!(applied.get(1), Some(0x1234_5678));
    assert_eq!(applied.get(7), Some(u64::MAX));
}

#[test]
fn pointers_are_followed_through_memory() {
    let memory = stack();
    assert_eq!(deref_ptr(Pointer::Direct(0x7008), &memory), Some(0x7008));
    assert_eq!(deref_ptr(Pointer::Indirect(0x7008), &memory), Some(0xaa01));
    assert_eq!(deref_ptr(Pointer::Indirect(0x7039), &memory), None);
    assert_eq!(deref_ptr(Pointer::Direct(0), &memory), Some(0));
}

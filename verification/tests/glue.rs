use dwarf_unwind::glue::{aarch64, x86_64};
use dwarf_unwind::Registers;

#[test]
fn x86_64_capture_fills_the_callee_saved_registers() {
    let saved = x86_64::SavedRegs { r15: 15, r14: 14, r13: 13, r12: 12, rbx: 3, rbp: 6 };
    let registers = x86_64::recorded_registers(&saved, 0x7fff_0000, 0x40_1234);
    for i in 0..96u8 {
        let expected = match i {
            3 => Some(3),
            6 => Some(6),
            7 => Some(0x7fff_0008),
            12 => Some(12),
            13 => Some(13),
            14 => Some(14),
            15 => Some(15),
            16 => Some(0x40_1234),
            _ => None,
        };
        assert_eq!(registers.get(i), expected, "register {}", i);
    }
}

#[test]
fn x86_64_landing_loads_every_general_register() {
    let mut registers = Registers::new();
    for i in 0..16u8 {
        registers.set(i, Some(0x100 + i as u64));
    }
    registers.set(7, Some(0x7fff_0010));
    registers.set(16, Some(0x40_2000));
    registers.set(9, None);
    let landing = x86_64::landing_registers(&registers).unwrap();
    assert_eq!(landing.return_address, 0x40_2000);
    assert_eq!(
        landing.registers,
        x86_64::LandingRegisters {
            rax: 0x100,
            rbx: 0x103,
            rcx: 0x102,
            rdx: 0x101,
            rdi: 0x105,
            rsi: 0x104,
            rbp: 0x106,
            r8: 0x108,
            r9: 0,
            r10: 0x10a,
            r11: 0x10b,
            r12: 0x10c,
            r13: 0x10d,
            r14: 0x10e,
            r15: 0x10f,
            rsp: 0x7fff_0008,
        }
    );
}

#[test]
fn x86_64_landing_needs_stack_pointer_and_return_address() {
    let mut registers = Registers::new();
    assert_eq!(x86_64::landing_registers(&registers), None);
    registers.set(7, Some(0x7fff_0010));
    assert_eq!(x86_64::landing_registers(&registers), None);
    registers.set(16, Some(0x40_2000));
    assert!(x86_64::landing_registers(&registers).is_some());
    registers.set(7, Some(7));
    assert_eq!(x86_64::landing_registers(&registers), None);
    registers.set(7, Some(8));
    assert_eq!(x86_64::landing_registers(&registers).unwrap().registers.rsp, 0);
    registers.set(7, None);
    assert_eq!(x86_64::landing_registers(&registers), None);
}

#[test]
fn aarch64_capture_fills_the_callee_saved_registers() {
    let saved = aarch64::SavedRegs {
        r: [19, 20, 21, 22, 23, 24, 25, 26, 27, 28, 29],
        lr: 0x40_0abc,
        vector_half: [108, 109, 110, 111, 112, 113, 114, 115],
    };
    let registers = aarch64::recorded_registers(&saved, 0x7fff_2000);
    for i in 0..96u8 {
        let expected = match i {
            19..=29 => Some(i as u64),
            30 => Some(0x40_0abc),
            31 => Some(0x7fff_2000),
            72..=79 => Some(100 + (i as u64 - 64)),
            _ => None,
        };
        assert_eq!(registers.get(i), expected, "register {}", i);
    }
}

#[test]
fn aarch64_landing_loads_general_and_vector_registers() {
    let mut registers = Registers::new();
    for i in 0..96u8 {
        registers.set(i, Some(0x1000 + i as u64));
    }
    registers.set(5, None);
    registers.set(70, None);
    let landing = aarch64::landing_registers(&registers);
    for i in 0..29usize {
        assert_eq!(landing.r[i], if i == 5 { 0 } else { 0x1000 + i as u64 });
    }
    assert_eq!(landing.fp, 0x1000 + 29);
    assert_eq!(landing.lr, 0x1000 + 30);
    assert_eq!(landing.sp, 0x1000 + 31);
    for i in 0..32usize {
        assert_eq!(landing.vector_half[i], if i == 6 { 0 } else { 0x1000 + 64 + i as u64 });
    }
    let unknown = aarch64::landing_registers(&Registers::new());
    assert_eq!(unknown.r, [0; 29]);
    assert_eq!((unknown.fp, unknown.lr, unknown.sp), (0, 0, 0));
    assert_eq!(unknown.vector_half, [0; 32]);
}

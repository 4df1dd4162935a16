//! Capture and restore on x86_64.

use crate::registers::{DwarfRegisterAMD64, Registers, REGISTER_COUNT};
use vstd::prelude::*;

verus! {

/// The callee-saved registers, in the order in which the capture routine
/// pushes them.
#[derive(Debug, Clone, Copy, PartialEq, Eq, Structural)]
pub struct SavedRegs {
    pub r15: u64,
    pub r14: u64,
    pub r13: u64,
    pub r12: u64,
    pub rbx: u64,
    pub rbp: u64,
}

/// The registers that the restore routine loads before it jumps, in the order
/// in which it pops them.
#[derive(Debug, Clone, Copy, PartialEq, Eq, Structural)]
pub struct LandingRegisters {
    pub rax: u64,
    pub rbx: u64,
    pub rcx: u64,
    pub rdx: u64,
    pub rdi: u64,
    pub rsi: u64,
    pub rbp: u64,
    pub r8: u64,
    pub r9: u64,
    pub r10: u64,
    pub r11: u64,
    pub r12: u64,
    pub r13: u64,
    pub r14: u64,
    pub r15: u64,
    pub rsp: u64,
}

/// What the restore routine needs: the registers to load, and the address to
/// continue at, which it finds on top of the stack that `rsp` points to.
#[derive(Debug, Clone, Copy, PartialEq, Eq, Structural)]
pub struct Landing {
    pub registers: LandingRegisters,
    pub return_address: u64,
}

/// The registers of the caller of the capture routine. `stack` is the stack
/// pointer at the entry of the routine, where the return address lies; the
/// caller's stack pointer is one word above it.
pub open spec fn spec_recorded_registers(
    saved: SavedRegs,
    stack: u64,
    return_address: u64,
) -> Seq<Option<u64>> {
    Seq::new(
        REGISTER_COUNT as nat,
        |i: int|
            if i == DwarfRegisterAMD64::Rbx.spec_number() {
                Some(saved.rbx)
            } else if i == DwarfRegisterAMD64::Rbp.spec_number() {
                Some(saved.rbp)
            } else if i == DwarfRegisterAMD64::SP.spec_number() {
                Some((stack + 8) as u64)
            } else if i == DwarfRegisterAMD64::R12.spec_number() {
                Some(saved.r12)
            } else if i == DwarfRegisterAMD64::R13.spec_number() {
                Some(saved.r13)
            } else if i == DwarfRegisterAMD64::R14.spec_number() {
                Some(saved.r14)
            } else if i == DwarfRegisterAMD64::R15.spec_number() {
                Some(saved.r15)
            } else if i == DwarfRegisterAMD64::IP.spec_number() {
                Some(return_address)
            } else {
                None
            },
    )
}

/// Builds the register file of the caller of the capture routine.
pub fn recorded_registers(saved: &SavedRegs, stack: u64, return_address: u64) -> (r: Registers)
    requires
        stack + 8 <= u64::MAX,
    ensures
        r@ == spec_recorded_registers(*saved, stack, return_address),
{
    let mut registers = Registers::new();
    registers.set(DwarfRegisterAMD64::Rbx.number(), Some(saved.rbx));
    registers.set(DwarfRegisterAMD64::Rbp.number(), Some(saved.rbp));
    registers.set(DwarfRegisterAMD64::SP.number(), Some(stack + 8));
    registers.set(DwarfRegisterAMD64::R12.number(), Some(saved.r12));
    registers.set(DwarfRegisterAMD64::R13.number(), Some(saved.r13));
    registers.set(DwarfRegisterAMD64::R14.number(), Some(saved.r14));
    registers.set(DwarfRegisterAMD64::R15.number(), Some(saved.r15));
    registers.set(DwarfRegisterAMD64::IP.number(), Some(return_address));
    assert(registers@ =~= spec_recorded_registers(*saved, stack, return_address));
    registers
}

/// The value to load for a register: zero where it is not known.
pub open spec fn value_or_zero(registers: Seq<Option<u64>>, register: DwarfRegisterAMD64) -> u64 {
    match registers[register.spec_number() as int] {
        Some(value) => value,
        None => 0,
    }
}

/// The landing for a register file. There is none unless the stack pointer
/// and the return address are known and the stack has room for one word
/// below the stack pointer: the return address is stored there, and `rsp`
/// points to it.
pub open spec fn spec_landing(registers: Seq<Option<u64>>) -> Option<Landing> {
    match (
        registers[DwarfRegisterAMD64::SP.spec_number() as int],
        registers[DwarfRegisterAMD64::IP.spec_number() as int],
    ) {
        (Some(sp), Some(return_address)) => if sp >= 8 {
            Some(
                Landing {
                    registers: LandingRegisters {
                        rax: value_or_zero(registers, DwarfRegisterAMD64::Rax),
                        rbx: value_or_zero(registers, DwarfRegisterAMD64::Rbx),
                        rcx: value_or_zero(registers, DwarfRegisterAMD64::Rcx),
                        rdx: value_or_zero(registers, DwarfRegisterAMD64::Rdx),
                        rdi: value_or_zero(registers, DwarfRegisterAMD64::Rdi),
                        rsi: value_or_zero(registers, DwarfRegisterAMD64::Rsi),
                        rbp: value_or_zero(registers, DwarfRegisterAMD64::Rbp),
                        r8: value_or_zero(registers, DwarfRegisterAMD64::R8),
                        r9: value_or_zero(registers, DwarfRegisterAMD64::R9),
                        r10: value_or_zero(registers, DwarfRegisterAMD64::R10),
                        r11: value_or_zero(registers, DwarfRegisterAMD64::R11),
                        r12: value_or_zero(registers, DwarfRegisterAMD64::R12),
                        r13: value_or_zero(registers, DwarfRegisterAMD64::R13),
                        r14: value_or_zero(registers, DwarfRegisterAMD64::R14),
                        r15: value_or_zero(registers, DwarfRegisterAMD64::R15),
                        rsp: (sp - 8) as u64,
                    },
                    return_address,
                },
            )
        } else {
            None
        },
        _ => None,
    }
}

fn load(registers: &Registers, register: DwarfRegisterAMD64) -> (r: u64)
    ensures
        r == value_or_zero(registers@, register),
{
    match registers.get(register.number()) {
        Some(value) => value,
        None => 0,
    }
}

/// Prepares the landing for a register file.
pub fn landing_registers(registers: &Registers) -> (r: Option<Landing>)
    ensures
        r == spec_landing(registers@),
{
    let sp = match registers.get(DwarfRegisterAMD64::SP.number()) {
        Some(sp) => sp,
        None => { return None; },
    };
    let return_address = match registers.get(DwarfRegisterAMD64::IP.number()) {
        Some(return_address) => return_address,
        None => { return None; },
    };
    if sp < 8 {
        return None;
    }
    Some(
        Landing {
            registers: LandingRegisters {
                rax: load(registers, DwarfRegisterAMD64::Rax),
                rbx: load(registers, DwarfRegisterAMD64::Rbx),
                rcx: load(registers, DwarfRegisterAMD64::Rcx),
                rdx: load(registers, DwarfRegisterAMD64::Rdx),
                rdi: load(registers, DwarfRegisterAMD64::Rdi),
                rsi: load(registers, DwarfRegisterAMD64::Rsi),
                rbp: load(registers, DwarfRegisterAMD64::Rbp),
                r8: load(registers, DwarfRegisterAMD64::R8),
                r9: load(registers, DwarfRegisterAMD64::R9),
                r10: load(registers, DwarfRegisterAMD64::R10),
                r11: load(registers, DwarfRegisterAMD64::R11),
                r12: load(registers, DwarfRegisterAMD64::R12),
                r13: load(registers, DwarfRegisterAMD64::R13),
                r14: load(registers, DwarfRegisterAMD64::R14),
                r15: load(registers, DwarfRegisterAMD64::R15),
                rsp: sp - 8,
            },
            return_address,
        },
    )
}

} // verus!

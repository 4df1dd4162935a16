//! Capture and restore on AArch64.

use crate::registers::{DwarfRegisterAArch64, Registers, REGISTER_COUNT};
use vstd::prelude::*;

verus! {

/// The callee-saved registers as the capture routine stores them.
#[derive(Debug, Clone, Copy)]
pub struct SavedRegs {
    /// `x19` to `x29`.
    pub r: [u64; 11],
    /// The link register, `x30`.
    pub lr: u64,
    /// The low halves of `v8` to `v15`.
    pub vector_half: [u64; 8],
}

/// The registers that the restore routine loads before it branches to `lr`.
#[derive(Debug, Clone, Copy)]
pub struct LandingRegisters {
    /// `x0` to `x28`.
    pub r: [u64; 29],
    /// The frame pointer, `x29`.
    pub fp: u64,
    /// The link register, `x30`.
    pub lr: u64,
    pub sp: u64,
    /// The low halves of `v0` to `v31`.
    pub vector_half: [u64; 32],
}

/// The registers of the caller of the capture routine. `stack` is the stack
/// pointer at the entry of the routine.
pub open spec fn spec_recorded_registers(saved: SavedRegs, stack: u64) -> Seq<Option<u64>> {
    Seq::new(
        REGISTER_COUNT as nat,
        |i: int|
            if 19 <= i < 30 {
                Some(saved.r@[i - 19])
            } else if i == DwarfRegisterAArch64::IP.spec_number() {
                Some(saved.lr)
            } else if i == DwarfRegisterAArch64::SP.spec_number() {
                Some(stack)
            } else if 72 <= i < 80 {
                Some(saved.vector_half@[i - 72])
            } else {
                None
            },
    )
}

/// Builds the register file of the caller of the capture routine.
pub fn recorded_registers(saved: &SavedRegs, stack: u64) -> (r: Registers)
    ensures
        r@ == spec_recorded_registers(*saved, stack),
{
    let mut registers = Registers::new();
    let first = DwarfRegisterAArch64::X19.number();
    let mut i: u8 = 0;
    while i < 11
        invariant
            i <= 11,
            first == 19,
            registers@ == Seq::new(
                REGISTER_COUNT as nat,
                |k: int|
                    if 19 <= k < 19 + i {
                        Some(saved.r@[k - 19])
                    } else {
                        None
                    },
            ),
        decreases 11 - i,
    {
        registers.set(first + i, Some(saved.r[i as usize]));
        i += 1;
        assert(registers@ =~= Seq::new(
            REGISTER_COUNT as nat,
            |k: int|
                if 19 <= k < 19 + i {
                    Some(saved.r@[k - 19])
                } else {
                    None
                },
        ));
    }
    let first_vector = DwarfRegisterAArch64::V8.number();
    let mut j: u8 = 0;
    while j < 8
        invariant
            j <= 8,
            first_vector == 72,
            registers@ == Seq::new(
                REGISTER_COUNT as nat,
                |k: int|
                    if 19 <= k < 30 {
                        Some(saved.r@[k - 19])
                    } else if 72 <= k < 72 + j {
                        Some(saved.vector_half@[k - 72])
                    } else {
                        None
                    },
            ),
        decreases 8 - j,
    {
        registers.set(first_vector + j, Some(saved.vector_half[j as usize]));
        j += 1;
        assert(registers@ =~= Seq::new(
            REGISTER_COUNT as nat,
            |k: int|
                if 19 <= k < 30 {
                    Some(saved.r@[k - 19])
                } else if 72 <= k < 72 + j {
                    Some(saved.vector_half@[k - 72])
                } else {
                    None
                },
        ));
    }
    registers.set(DwarfRegisterAArch64::SP.number(), Some(stack));
    registers.set(DwarfRegisterAArch64::IP.number(), Some(saved.lr));
    assert(registers@ =~= spec_recorded_registers(*saved, stack));
    registers
}

/// The value to load for the register with number `i`: zero where it is not
/// known.
pub open spec fn value_or_zero(registers: Seq<Option<u64>>, i: int) -> u64 {
    match registers[i] {
        Some(value) => value,
        None => 0,
    }
}

/// Whether `landing` holds, for every register that the restore routine
/// loads, the value of the register file, or zero where it has none.
pub open spec fn lands(landing: LandingRegisters, registers: Seq<Option<u64>>) -> bool {
    &&& forall|i: int| 0 <= i < 29 ==> #[trigger] landing.r@[i] == value_or_zero(registers, i)
    &&& landing.fp == value_or_zero(registers, 29)
    &&& landing.lr == value_or_zero(registers, 30)
    &&& landing.sp == value_or_zero(registers, 31)
    &&& forall|i: int|
        0 <= i < 32 ==> #[trigger] landing.vector_half@[i] == value_or_zero(registers, 64 + i)
}

fn load(registers: &Registers, i: u8) -> (r: u64)
    requires
        i < REGISTER_COUNT,
    ensures
        r == value_or_zero(registers@, i as int),
{
    match registers.get(i) {
        Some(value) => value,
        None => 0,
    }
}

/// Prepares the registers that the restore routine loads: those of the
/// register file, with zero for each that is not known.
pub fn landing_registers(registers: &Registers) -> (r: LandingRegisters)
    ensures
        lands(r, registers@),
{
    let mut r: [u64; 29] = [0;29];
    let mut i: u8 = 0;
    while i < 29
        invariant
            i <= 29,
            forall|k: int| 0 <= k < i ==> #[trigger] r@[k] == value_or_zero(registers@, k),
        decreases 29 - i,
    {
        r[i as usize] = load(registers, i);
        i += 1;
    }
    let first_vector = DwarfRegisterAArch64::V0.number();
    let mut vector_half: [u64; 32] = [0;32];
    let mut j: u8 = 0;
    while j < 32
        invariant
            j <= 32,
            first_vector == 64,
            forall|k: int|
                0 <= k < j ==> #[trigger] vector_half@[k] == value_or_zero(registers@, 64 + k),
        decreases 32 - j,
    {
        vector_half[j as usize] = load(registers, first_vector + j);
        j += 1;
    }
    LandingRegisters {
        r,
        fp: load(registers, DwarfRegisterAArch64::X29.number()),
        lr: load(registers, DwarfRegisterAArch64::IP.number()),
        sp: load(registers, DwarfRegisterAArch64::SP.number()),
        vector_half,
    }
}

} // verus!

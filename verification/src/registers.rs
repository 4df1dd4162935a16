//! The register file: one optional 64-bit value per DWARF register number.

use vstd::prelude::*;

verus! {

/// The number of slots in a register file. It covers the general and the
/// vector registers of AArch64, the larger of the two supported targets.
pub const REGISTER_COUNT: u8 = 96;

/// A snapshot of the machine registers, indexed by DWARF register number.
/// A slot that holds `None` stands for a register whose value is not known.
#[derive(Debug)]
pub struct Registers {
    registers: [Option<u64>; 96],
}

impl View for Registers {
    type V = Seq<Option<u64>>;

    closed spec fn view(&self) -> Seq<Option<u64>> {
        self.registers@
    }
}

impl Registers {
    /// The value in slot `index`.
    pub open spec fn spec_get(self, index: u8) -> Option<u64>
        recommends
            index < REGISTER_COUNT,
    {
        self@[index as int]
    }

    /// Every register file has `REGISTER_COUNT` slots.
    pub broadcast proof fn lemma_len(self)
        ensures
            #[trigger] self@.len() == REGISTER_COUNT,
    {
        vstd::array::array_len_matches_n(&self.registers);
    }

    /// A register file with every slot unknown.
    pub fn new() -> (r: Registers)
        ensures
            r@ == Seq::new(REGISTER_COUNT as nat, |i: int| None::<u64>),
    {
        let r = Registers { registers: [None; 96] };
        proof {
            vstd::array::array_len_matches_n(&r.registers);
            vstd::array::axiom_spec_array_fill_for_copy_type::<Option<u64>, 96>(None);
            assert(r@ =~= Seq::new(REGISTER_COUNT as nat, |i: int| None::<u64>));
        }
        r
    }

    /// Reads slot `index`.
    pub fn get(&self, index: u8) -> (r: Option<u64>)
        requires
            index < REGISTER_COUNT,
        ensures
            r == self.spec_get(index),
    {
        self.registers[index as usize]
    }

    /// Writes slot `index` and leaves the other slots as they are.
    pub fn set(&mut self, index: u8, value: Option<u64>)
        requires
            index < REGISTER_COUNT,
        ensures
            final(self)@ == old(self)@.update(index as int, value),
    {
        self.registers[index as usize] = value;
    }
}

impl core::ops::Index<u8> for Registers {
    type Output = Option<u64>;

    /// The value in slot `index`, which must be below `REGISTER_COUNT`.
    fn index(&self, index: u8) -> (r: &Option<u64>)
        ensures
            *r == self.spec_get(index),
    {
        &self.registers[index as usize]
    }
}

impl vstd::std_specs::core::IndexSpecImpl<u8> for Registers {
    open spec fn index_req(&self, index: &u8) -> bool {
        *index < REGISTER_COUNT
    }
}

impl core::ops::Index<DwarfRegisterAMD64> for Registers {
    type Output = Option<u64>;

    /// The value of a register of x86_64.
    fn index(&self, reg: DwarfRegisterAMD64) -> (r: &Option<u64>)
        ensures
            *r == self.spec_get(reg.spec_number()),
    {
        &self.registers[reg.number() as usize]
    }
}

impl vstd::std_specs::core::IndexSpecImpl<DwarfRegisterAMD64> for Registers {
    open spec fn index_req(&self, index: &DwarfRegisterAMD64) -> bool {
        true
    }
}

impl core::ops::Index<DwarfRegisterAArch64> for Registers {
    type Output = Option<u64>;

    /// The value of a register of AArch64.
    fn index(&self, reg: DwarfRegisterAArch64) -> (r: &Option<u64>)
        ensures
            *r == self.spec_get(reg.spec_number()),
    {
        &self.registers[reg.number() as usize]
    }
}

impl vstd::std_specs::core::IndexSpecImpl<DwarfRegisterAArch64> for Registers {
    open spec fn index_req(&self, index: &DwarfRegisterAArch64) -> bool {
        true
    }
}

impl Default for Registers {
    /// A register file with every slot unknown.
    fn default() -> (r: Registers)
        ensures
            r@ == Seq::new(REGISTER_COUNT as nat, |i: int| None::<u64>),
    {
        Registers::new()
    }
}

impl Clone for Registers {
    fn clone(&self) -> (r: Registers)
        ensures
            r@ == self@,
    {
        Registers { registers: self.registers }
    }
}

/// The target architecture, which fixes the registers that hold the return
/// address and the stack pointer.
#[derive(Debug, Clone, Copy, PartialEq, Eq, Structural)]
pub enum Arch {
    X86_64,
    AArch64,
}

impl Arch {
    /// The DWARF number of the register that holds the return address.
    pub open spec fn spec_return_address(self) -> u8 {
        match self {
            Arch::X86_64 => 16,
            Arch::AArch64 => 30,
        }
    }

    /// The DWARF number of the stack pointer.
    pub open spec fn spec_stack_pointer(self) -> u8 {
        match self {
            Arch::X86_64 => 7,
            Arch::AArch64 => 31,
        }
    }

    pub fn return_address(self) -> (r: u8)
        ensures
            r == self.spec_return_address(),
            r < REGISTER_COUNT,
    {
        match self {
            Arch::X86_64 => 16,
            Arch::AArch64 => 30,
        }
    }

    pub fn stack_pointer(self) -> (r: u8)
        ensures
            r == self.spec_stack_pointer(),
            r < REGISTER_COUNT,
    {
        match self {
            Arch::X86_64 => 7,
            Arch::AArch64 => 31,
        }
    }
}

/// The DWARF register numbers of x86_64.
#[derive(Debug, Clone, Copy, PartialEq, Eq, Structural)]
pub enum DwarfRegisterAMD64 {
    SP,
    IP,
    Rax,
    Rbx,
    Rcx,
    Rdx,
    Rdi,
    Rsi,
    Rbp,
    R8,
    R9,
    R10,
    R11,
    R12,
    R13,
    R14,
    R15,
}

impl DwarfRegisterAMD64 {
    /// The DWARF number of the register.
    pub open spec fn spec_number(self) -> u8 {
        match self {
            DwarfRegisterAMD64::SP => 7,
            DwarfRegisterAMD64::IP => 16,
            DwarfRegisterAMD64::Rax => 0,
            DwarfRegisterAMD64::Rbx => 3,
            DwarfRegisterAMD64::Rcx => 2,
            DwarfRegisterAMD64::Rdx => 1,
            DwarfRegisterAMD64::Rdi => 5,
            DwarfRegisterAMD64::Rsi => 4,
            DwarfRegisterAMD64::Rbp => 6,
            DwarfRegisterAMD64::R8 => 8,
            DwarfRegisterAMD64::R9 => 9,
            DwarfRegisterAMD64::R10 => 10,
            DwarfRegisterAMD64::R11 => 11,
            DwarfRegisterAMD64::R12 => 12,
            DwarfRegisterAMD64::R13 => 13,
            DwarfRegisterAMD64::R14 => 14,
            DwarfRegisterAMD64::R15 => 15,
        }
    }

    pub fn number(self) -> (r: u8)
        ensures
            r == self.spec_number(),
            r < REGISTER_COUNT,
    {
        match self {
            DwarfRegisterAMD64::SP => 7,
            DwarfRegisterAMD64::IP => 16,
            DwarfRegisterAMD64::Rax => 0,
            DwarfRegisterAMD64::Rbx => 3,
            DwarfRegisterAMD64::Rcx => 2,
            DwarfRegisterAMD64::Rdx => 1,
            DwarfRegisterAMD64::Rdi => 5,
            DwarfRegisterAMD64::Rsi => 4,
            DwarfRegisterAMD64::Rbp => 6,
            DwarfRegisterAMD64::R8 => 8,
            DwarfRegisterAMD64::R9 => 9,
            DwarfRegisterAMD64::R10 => 10,
            DwarfRegisterAMD64::R11 => 11,
            DwarfRegisterAMD64::R12 => 12,
            DwarfRegisterAMD64::R13 => 13,
            DwarfRegisterAMD64::R14 => 14,
            DwarfRegisterAMD64::R15 => 15,
        }
    }
}

/// The DWARF register numbers of AArch64; `IP` is the link register `x30`.
#[derive(Debug, Clone, Copy, PartialEq, Eq, Structural)]
pub enum DwarfRegisterAArch64 {
    X0,
    X1,
    X2,
    X3,
    X4,
    X5,
    X6,
    X7,
    X8,
    X9,
    X10,
    X11,
    X12,
    X13,
    X14,
    X15,
    X16,
    X17,
    X18,
    X19,
    X20,
    X21,
    X22,
    X23,
    X24,
    X25,
    X26,
    X27,
    X28,
    X29,
    IP,
    SP,
    V0,
    V1,
    V2,
    V3,
    V4,
    V5,
    V6,
    V7,
    V8,
    V9,
    V10,
    V11,
    V12,
    V13,
    V14,
    V15,
    V16,
    V17,
    V18,
    V19,
    V20,
    V21,
    V22,
    V23,
    V24,
    V25,
    V26,
    V27,
    V28,
    V29,
    V30,
    V31,
}

impl DwarfRegisterAArch64 {
    /// The DWARF number of the register.
    pub open spec fn spec_number(self) -> u8 {
        match self {
            DwarfRegisterAArch64::X0 => 0,
            DwarfRegisterAArch64::X1 => 1,
            DwarfRegisterAArch64::X2 => 2,
            DwarfRegisterAArch64::X3 => 3,
            DwarfRegisterAArch64::X4 => 4,
            DwarfRegisterAArch64::X5 => 5,
            DwarfRegisterAArch64::X6 => 6,
            DwarfRegisterAArch64::X7 => 7,
            DwarfRegisterAArch64::X8 => 8,
            DwarfRegisterAArch64::X9 => 9,
            DwarfRegisterAArch64::X10 => 10,
            DwarfRegisterAArch64::X11 => 11,
            DwarfRegisterAArch64::X12 => 12,
            DwarfRegisterAArch64::X13 => 13,
            DwarfRegisterAArch64::X14 => 14,
            DwarfRegisterAArch64::X15 => 15,
            DwarfRegisterAArch64::X16 => 16,
            DwarfRegisterAArch64::X17 => 17,
            DwarfRegisterAArch64::X18 => 18,
            DwarfRegisterAArch64::X19 => 19,
            DwarfRegisterAArch64::X20 => 20,
            DwarfRegisterAArch64::X21 => 21,
            DwarfRegisterAArch64::X22 => 22,
            DwarfRegisterAArch64::X23 => 23,
            DwarfRegisterAArch64::X24 => 24,
            DwarfRegisterAArch64::X25 => 25,
            DwarfRegisterAArch64::X26 => 26,
            DwarfRegisterAArch64::X27 => 27,
            DwarfRegisterAArch64::X28 => 28,
            DwarfRegisterAArch64::X29 => 29,
            DwarfRegisterAArch64::IP => 30,
            DwarfRegisterAArch64::SP => 31,
            DwarfRegisterAArch64::V0 => 64,
            DwarfRegisterAArch64::V1 => 65,
            DwarfRegisterAArch64::V2 => 66,
            DwarfRegisterAArch64::V3 => 67,
            DwarfRegisterAArch64::V4 => 68,
            DwarfRegisterAArch64::V5 => 69,
            DwarfRegisterAArch64::V6 => 70,
            DwarfRegisterAArch64::V7 => 71,
            DwarfRegisterAArch64::V8 => 72,
            DwarfRegisterAArch64::V9 => 73,
            DwarfRegisterAArch64::V10 => 74,
            DwarfRegisterAArch64::V11 => 75,
            DwarfRegisterAArch64::V12 => 76,
            DwarfRegisterAArch64::V13 => 77,
            DwarfRegisterAArch64::V14 => 78,
            DwarfRegisterAArch64::V15 => 79,
            DwarfRegisterAArch64::V16 => 80,
            DwarfRegisterAArch64::V17 => 81,
            DwarfRegisterAArch64::V18 => 82,
            DwarfRegisterAArch64::V19 => 83,
            DwarfRegisterAArch64::V20 => 84,
            DwarfRegisterAArch64::V21 => 85,
            DwarfRegisterAArch64::V22 => 86,
            DwarfRegisterAArch64::V23 => 87,
            DwarfRegisterAArch64::V24 => 88,
            DwarfRegisterAArch64::V25 => 89,
            DwarfRegisterAArch64::V26 => 90,
            DwarfRegisterAArch64::V27 => 91,
            DwarfRegisterAArch64::V28 => 92,
            DwarfRegisterAArch64::V29 => 93,
            DwarfRegisterAArch64::V30 => 94,
            DwarfRegisterAArch64::V31 => 95,
        }
    }

    pub fn number(self) -> (r: u8)
        ensures
            r == self.spec_number(),
            r < REGISTER_COUNT,
    {
        match self {
            DwarfRegisterAArch64::X0 => 0,
            DwarfRegisterAArch64::X1 => 1,
            DwarfRegisterAArch64::X2 => 2,
            DwarfRegisterAArch64::X3 => 3,
            DwarfRegisterAArch64::X4 => 4,
            DwarfRegisterAArch64::X5 => 5,
            DwarfRegisterAArch64::X6 => 6,
            DwarfRegisterAArch64::X7 => 7,
            DwarfRegisterAArch64::X8 => 8,
            DwarfRegisterAArch64::X9 => 9,
            DwarfRegisterAArch64::X10 => 10,
            DwarfRegisterAArch64::X11 => 11,
            DwarfRegisterAArch64::X12 => 12,
            DwarfRegisterAArch64::X13 => 13,
            DwarfRegisterAArch64::X14 => 14,
            DwarfRegisterAArch64::X15 => 15,
            DwarfRegisterAArch64::X16 => 16,
            DwarfRegisterAArch64::X17 => 17,
            DwarfRegisterAArch64::X18 => 18,
            DwarfRegisterAArch64::X19 => 19,
            DwarfRegisterAArch64::X20 => 20,
            DwarfRegisterAArch64::X21 => 21,
            DwarfRegisterAArch64::X22 => 22,
            DwarfRegisterAArch64::X23 => 23,
            DwarfRegisterAArch64::X24 => 24,
            DwarfRegisterAArch64::X25 => 25,
            DwarfRegisterAArch64::X26 => 26,
            DwarfRegisterAArch64::X27 => 27,
            DwarfRegisterAArch64::X28 => 28,
            DwarfRegisterAArch64::X29 => 29,
            DwarfRegisterAArch64::IP => 30,
            DwarfRegisterAArch64::SP => 31,
            DwarfRegisterAArch64::V0 => 64,
            DwarfRegisterAArch64::V1 => 65,
            DwarfRegisterAArch64::V2 => 66,
            DwarfRegisterAArch64::V3 => 67,
            DwarfRegisterAArch64::V4 => 68,
            DwarfRegisterAArch64::V5 => 69,
            DwarfRegisterAArch64::V6 => 70,
            DwarfRegisterAArch64::V7 => 71,
            DwarfRegisterAArch64::V8 => 72,
            DwarfRegisterAArch64::V9 => 73,
            DwarfRegisterAArch64::V10 => 74,
            DwarfRegisterAArch64::V11 => 75,
            DwarfRegisterAArch64::V12 => 76,
            DwarfRegisterAArch64::V13 => 77,
            DwarfRegisterAArch64::V14 => 78,
            DwarfRegisterAArch64::V15 => 79,
            DwarfRegisterAArch64::V16 => 80,
            DwarfRegisterAArch64::V17 => 81,
            DwarfRegisterAArch64::V18 => 82,
            DwarfRegisterAArch64::V19 => 83,
            DwarfRegisterAArch64::V20 => 84,
            DwarfRegisterAArch64::V21 => 85,
            DwarfRegisterAArch64::V22 => 86,
            DwarfRegisterAArch64::V23 => 87,
            DwarfRegisterAArch64::V24 => 88,
            DwarfRegisterAArch64::V25 => 89,
            DwarfRegisterAArch64::V26 => 90,
            DwarfRegisterAArch64::V27 => 91,
            DwarfRegisterAArch64::V28 => 92,
            DwarfRegisterAArch64::V29 => 93,
            DwarfRegisterAArch64::V30 => 94,
            DwarfRegisterAArch64::V31 => 95,
        }
    }
}

} // verus!

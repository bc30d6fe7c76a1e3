//! Processor state and per-instruction semantics.
//!
//! The CPU holds eight 16-bit general-purpose registers, a 16-bit program
//! counter and a condition flag. Every instruction handler is specified
//! against a mathematical view of that state ([`CpuView`]) by a pure
//! transition function, and proved to implement it exactly. All arithmetic
//! wraps modulo 65536, matching the fixed word width.

use crate::memory::Memory;
use vstd::array::ArrayAdditionalExecFns;
use vstd::prelude::*;

verus! {

/// The condition flag: exactly one of these four states holds at any time.
///
/// `Uninitialized` is the state before the first flag-affecting
/// instruction; a conditional branch treats it as "no flag bits set" and
/// is never taken on it.
#[derive(Copy, Clone, PartialEq, Eq, Structural, Debug)]
pub enum CondFlags {
    Uninitialized,
    Pos,
    Zro,
    Neg,
}

impl CondFlags {
    /// The flag's bit value for a branch's 3-bit condition mask:
    /// bit 0 is Positive, bit 1 is Zero, bit 2 is Negative, and the
    /// uninitialized flag sets no bit at all.
    pub open spec fn bits_spec(self) -> u16 {
        match self {
            CondFlags::Uninitialized => 0,
            CondFlags::Pos => 1,
            CondFlags::Zro => 2,
            CondFlags::Neg => 4,
        }
    }

    /// Returns the flag's bit value for mask tests.
    pub fn bits(self) -> (b: u16)
        ensures
            b == self.bits_spec(),
    {
        match self {
            CondFlags::Uninitialized => 0,
            CondFlags::Pos => 1,
            CondFlags::Zro => 2,
            CondFlags::Neg => 4,
        }
    }
}

/// Mathematical view of the processor state: the register file as a
/// sequence of eight words, the program counter and the condition flag.
#[verifier::ext_equal]
pub ghost struct CpuView {
    pub gpr: Seq<u16>,
    pub pc: u16,
    pub cond: CondFlags,
}

impl CpuView {
    /// A well-formed view has exactly eight registers.
    pub open spec fn wf(self) -> bool {
        self.gpr.len() == 8
    }
}

/// Addition modulo 65536: the machine's only addition.
pub open spec fn wadd(a: u16, b: u16) -> u16 {
    ((a + b) % 0x10000) as u16
}

/// Sign extension of an isolated `bits`-wide field to 16 bits: if bit
/// `bits - 1` is set, every bit above it is filled with 1; otherwise the
/// value is unchanged.
pub open spec fn sext_spec(x: u16, bits: u16) -> u16
    recommends
        1 <= bits <= 15,
{
    if (x >> ((bits - 1) as u16)) & 1 == 1 {
        x | (0xFFFFu16 << bits)
    } else {
        x
    }
}

/// The flag a just-written value sets: Zero for 0, Negative when bit 15
/// is set (a negative two's-complement value), Positive otherwise.
pub open spec fn flag_for(value: u16) -> CondFlags {
    if value == 0 {
        CondFlags::Zro
    } else if value >= 0x8000 {
        CondFlags::Neg
    } else {
        CondFlags::Pos
    }
}

/// A written value sets exactly one flag: Zero precisely for 0,
/// Negative precisely when bit 15 is set, Positive precisely for the
/// rest; a write never returns the flag to its uninitialized state.
pub proof fn lemma_flag_classification(v: u16)
    ensures
        (flag_for(v) == CondFlags::Zro) <==> v == 0,
        (flag_for(v) == CondFlags::Neg) <==> (v >> 15) & 1 == 1,
        (flag_for(v) == CondFlags::Pos) <==> (0 < v < 0x8000),
        flag_for(v) != CondFlags::Uninitialized,
{
    assert((v >> 15) & 1 == 1 <==> v >= 0x8000) by (bit_vector);
}

/// The register field in bits 11..9: destination for ADD, AND, NOT and
/// the loads; source for the stores; the condition mask position for BR.
pub open spec fn dr_of(i: u16) -> u16 {
    (i >> 9) & 0x7
}

/// The register field in bits 8..6: first source for ADD and AND, the
/// source for NOT, the base register for JMP, JSRR, LDR and STR.
pub open spec fn base_of(i: u16) -> u16 {
    (i >> 6) & 0x7
}

/// The register field in bits 2..0: second source for register-mode ADD
/// and AND.
pub open spec fn sr2_of(i: u16) -> u16 {
    i & 0x7
}

/// Bit 5: when set, ADD and AND take a 5-bit immediate instead of a
/// second source register.
pub open spec fn imm_mode(i: u16) -> bool {
    (i >> 5) & 0x1 == 1
}

/// The 5-bit immediate in bits 4..0, sign-extended to 16 bits.
pub open spec fn imm5_of(i: u16) -> u16 {
    sext_spec(i & 0x1F, 5)
}

/// The 6-bit offset in bits 5..0, sign-extended to 16 bits.
pub open spec fn off6_of(i: u16) -> u16 {
    sext_spec(i & 0x3F, 6)
}

/// The 9-bit PC-relative offset in bits 8..0, sign-extended to 16 bits.
pub open spec fn off9_of(i: u16) -> u16 {
    sext_spec(i & 0x1FF, 9)
}

/// The 11-bit subroutine offset in bits 10..0, sign-extended to 16 bits.
pub open spec fn off11_of(i: u16) -> u16 {
    sext_spec(i & 0x7FF, 11)
}

/// BR's condition mask in bits 11..9: bit 2 tests Negative, bit 1 Zero,
/// bit 0 Positive.
pub open spec fn cond_mask_of(i: u16) -> u16 {
    (i >> 9) & 0x7
}

/// Bit 11 of a JSR word: set selects the PC-relative 11-bit offset form
/// (JSR); clear selects the base-register form (JSRR).
pub open spec fn jsr_uses_offset(i: u16) -> bool {
    (i >> 11) & 0x1 == 1
}

/// Every bit field an instruction word can carry stays inside its range:
/// register fields name one of the eight registers, and each immediate or
/// offset field is an isolated value below its width's power of two.
pub proof fn lemma_fields_bounded(i: u16)
    by (bit_vector)
    ensures
        (i >> 9) & 0x7 < 8,
        (i >> 6) & 0x7 < 8,
        i & 0x7 < 8,
        i & 0x1F < (1u16 << 5),
        i & 0x3F < (1u16 << 6),
        i & 0x1FF < (1u16 << 9),
        i & 0x7FF < (1u16 << 11),
{
}

/// The processor state: eight general-purpose registers, the program
/// counter and the condition flag.
pub struct CPU {
    /// General-purpose registers R0 through R7. R7 doubles, by
    /// convention, as the return-address register of the subroutine
    /// instructions.
    pub gpr: [u16; 8],
    /// Program counter: the address of the next instruction to fetch.
    pub pc: u16,
    /// Condition flag, set by the flag-affecting instructions.
    pub cond: CondFlags,
}

impl View for CPU {
    type V = CpuView;

    open spec fn view(&self) -> CpuView {
        CpuView { gpr: self.gpr@, pc: self.pc, cond: self.cond }
    }
}

impl CPU {
    /// A fresh processor: all registers zeroed, the program counter at
    /// 0x3000, the condition flag not yet set.
    pub fn new() -> (c: CPU)
        ensures
            c@.wf(),
            forall|r: int| 0 <= r < 8 ==> c@.gpr[r] == 0u16,
            c@.pc == 0x3000,
            c@.cond == CondFlags::Uninitialized,
    {
        CPU { gpr: [0u16; 8], pc: 0x3000, cond: CondFlags::Uninitialized }
    }

    /// Writes `value` to register `register`, leaving the other
    /// registers, the program counter and the flag unchanged.
    pub fn set_gpr(&mut self, register: u16, value: u16)
        requires
            register < 8,
        ensures
            final(self)@.gpr == old(self)@.gpr.update(register as int, value),
            final(self)@.pc == old(self)@.pc,
            final(self)@.cond == old(self)@.cond,
    {
        self.gpr.set(register as usize, value);
    }

    /// Reads register `register`.
    pub fn get_gpr(&self, register: u16) -> (v: u16)
        requires
            register < 8,
        ensures
            v == self@.gpr[register as int],
    {
        self.gpr[register as usize]
    }

    /// Sign-extends an isolated `bits`-wide two's-complement field to 16
    /// bits: the bits above position `bits - 1` are filled with the
    /// field's sign bit.
    pub fn sext(x: u16, bits: i32) -> (r: u16)
        requires
            1 <= bits <= 15,
            x < (1u16 << (bits as u16)),
        ensures
            r == sext_spec(x, bits as u16),
    {
        let shift: u16 = (bits - 1) as u16;
        if ((x >> shift) & 1) == 1 {
            x | (0xFFFFu16 << (bits as u16))
        } else {
            x
        }
    }

    /// Sets the condition flag from the value of register `register`,
    /// which must be the destination an instruction has just written:
    /// Zero for 0, Negative when bit 15 is set, Positive otherwise.
    pub fn set_cc(&mut self, register: u16)
        requires
            register < 8,
        ensures
            final(self)@.gpr == old(self)@.gpr,
            final(self)@.pc == old(self)@.pc,
            final(self)@.cond == flag_for(old(self)@.gpr[register as int]),
    {
        let value = self.get_gpr(register);
        if value == 0 {
            self.cond = CondFlags::Zro;
        } else if value >= 0x8000 {
            // bit 15 set: a negative number in two's complement
            self.cond = CondFlags::Neg;
        } else {
            self.cond = CondFlags::Pos;
        }
    }
}

/// Addition modulo 65536, executable form.
pub(crate) fn wrapping_add16(a: u16, b: u16) -> (r: u16)
    ensures
        r == wadd(a, b),
{
    let sum: u32 = (a as u32) + (b as u32);
    (sum % 0x10000) as u16
}

/// ADD: the destination register receives the first source plus either a
/// sign-extended 5-bit immediate or a second source register, modulo
/// 65536; the flag reflects the written value.
pub open spec fn add_spec(c: CpuView, i: u16) -> CpuView
    recommends
        c.wf(),
{
    let v = if imm_mode(i) {
        wadd(c.gpr[base_of(i) as int], imm5_of(i))
    } else {
        wadd(c.gpr[base_of(i) as int], c.gpr[sr2_of(i) as int])
    };
    CpuView { gpr: c.gpr.update(dr_of(i) as int, v), pc: c.pc, cond: flag_for(v) }
}

/// AND: as ADD, with bitwise conjunction in place of addition.
pub open spec fn and_spec(c: CpuView, i: u16) -> CpuView
    recommends
        c.wf(),
{
    let v = if imm_mode(i) {
        c.gpr[base_of(i) as int] & imm5_of(i)
    } else {
        c.gpr[base_of(i) as int] & c.gpr[sr2_of(i) as int]
    };
    CpuView { gpr: c.gpr.update(dr_of(i) as int, v), pc: c.pc, cond: flag_for(v) }
}

/// NOT: the destination receives the bitwise complement of the source;
/// the flag reflects the written value.
pub open spec fn not_spec(c: CpuView, i: u16) -> CpuView
    recommends
        c.wf(),
{
    let v = !c.gpr[base_of(i) as int];
    CpuView { gpr: c.gpr.update(dr_of(i) as int, v), pc: c.pc, cond: flag_for(v) }
}

/// BR: when the instruction's condition mask has the current flag's bit
/// set, the program counter moves by the sign-extended 9-bit offset;
/// otherwise nothing changes. The flag itself is never updated.
pub open spec fn br_spec(c: CpuView, i: u16) -> CpuView {
    if c.cond.bits_spec() & cond_mask_of(i) != 0 {
        CpuView { gpr: c.gpr, pc: wadd(c.pc, off9_of(i)), cond: c.cond }
    } else {
        c
    }
}

/// JMP: the program counter receives the base register's value.
pub open spec fn jmp_spec(c: CpuView, i: u16) -> CpuView
    recommends
        c.wf(),
{
    CpuView { gpr: c.gpr, pc: c.gpr[base_of(i) as int], cond: c.cond }
}

/// JSR/JSRR: R7 receives the incoming program counter (the return
/// address, since the counter was advanced at fetch); then the counter
/// moves by the sign-extended 11-bit offset (bit 11 set) or receives the
/// base register's value as R7 now stands (bit 11 clear).
pub open spec fn jsr_spec(c: CpuView, i: u16) -> CpuView
    recommends
        c.wf(),
{
    let with_link = c.gpr.update(7, c.pc);
    let new_pc = if jsr_uses_offset(i) {
        wadd(c.pc, off11_of(i))
    } else {
        with_link[base_of(i) as int]
    };
    CpuView { gpr: with_link, pc: new_pc, cond: c.cond }
}

/// LD: the destination receives the memory word at PC plus the
/// sign-extended 9-bit offset; the flag reflects the loaded value.
pub open spec fn ld_spec(c: CpuView, i: u16, m: Seq<u16>) -> CpuView
    recommends
        c.wf(),
        m.len() == 0x10000,
{
    let v = m[wadd(c.pc, off9_of(i)) as int];
    CpuView { gpr: c.gpr.update(dr_of(i) as int, v), pc: c.pc, cond: flag_for(v) }
}

/// LDI: the memory word at PC plus the 9-bit offset is itself an
/// address; the destination receives the word found there; the flag
/// reflects the loaded value.
pub open spec fn ldi_spec(c: CpuView, i: u16, m: Seq<u16>) -> CpuView
    recommends
        c.wf(),
        m.len() == 0x10000,
{
    let pointer = m[wadd(c.pc, off9_of(i)) as int];
    let v = m[pointer as int];
    CpuView { gpr: c.gpr.update(dr_of(i) as int, v), pc: c.pc, cond: flag_for(v) }
}

/// LDR: the destination receives the memory word at the base register
/// plus the sign-extended 6-bit offset; the flag reflects the loaded
/// value.
pub open spec fn ldr_spec(c: CpuView, i: u16, m: Seq<u16>) -> CpuView
    recommends
        c.wf(),
        m.len() == 0x10000,
{
    let v = m[wadd(c.gpr[base_of(i) as int], off6_of(i)) as int];
    CpuView { gpr: c.gpr.update(dr_of(i) as int, v), pc: c.pc, cond: flag_for(v) }
}

/// LEA: the destination receives PC plus the sign-extended 9-bit offset
/// itself — an address, with no memory access; the flag reflects it.
pub open spec fn lea_spec(c: CpuView, i: u16) -> CpuView
    recommends
        c.wf(),
{
    let v = wadd(c.pc, off9_of(i));
    CpuView { gpr: c.gpr.update(dr_of(i) as int, v), pc: c.pc, cond: flag_for(v) }
}

/// ST: memory at PC plus the sign-extended 9-bit offset receives the
/// source register's value. Registers and flag are untouched.
pub open spec fn st_spec(c: CpuView, i: u16, m: Seq<u16>) -> Seq<u16>
    recommends
        c.wf(),
        m.len() == 0x10000,
{
    m.update(wadd(c.pc, off9_of(i)) as int, c.gpr[dr_of(i) as int])
}

/// STI: the memory word at PC plus the 9-bit offset is itself an
/// address; the word found there receives the source register's value.
pub open spec fn sti_spec(c: CpuView, i: u16, m: Seq<u16>) -> Seq<u16>
    recommends
        c.wf(),
        m.len() == 0x10000,
{
    m.update(m[wadd(c.pc, off9_of(i)) as int] as int, c.gpr[dr_of(i) as int])
}

/// STR: memory at the base register plus the sign-extended 6-bit offset
/// receives the source register's value.
pub open spec fn str_spec(c: CpuView, i: u16, m: Seq<u16>) -> Seq<u16>
    recommends
        c.wf(),
        m.len() == 0x10000,
{
    m.update(wadd(c.gpr[base_of(i) as int], off6_of(i)) as int, c.gpr[dr_of(i) as int])
}

/// An address computed by LEA, a store of a value to it, and a load from
/// it compose: LEA leaves the address `PC + off9` itself in its
/// destination register, and when an ST's effective address and a later
/// LD's effective address both equal that address, the LD loads exactly
/// the word the ST stored.
pub proof fn lemma_lea_st_ld(
    c_lea: CpuView,
    c_st: CpuView,
    c_ld: CpuView,
    m: Seq<u16>,
    i_lea: u16,
    i_st: u16,
    i_ld: u16,
)
    requires
        c_lea.wf(),
        c_st.wf(),
        c_ld.wf(),
        m.len() == 0x10000,
        wadd(c_st.pc, off9_of(i_st)) == wadd(c_lea.pc, off9_of(i_lea)),
        wadd(c_ld.pc, off9_of(i_ld)) == wadd(c_lea.pc, off9_of(i_lea)),
    ensures
        lea_spec(c_lea, i_lea).gpr[dr_of(i_lea) as int] == wadd(c_lea.pc, off9_of(i_lea)),
        ld_spec(c_ld, i_ld, st_spec(c_st, i_st, m)).gpr[dr_of(i_ld) as int] == c_st.gpr[dr_of(
            i_st,
        ) as int],
{
    lemma_fields_bounded(i_lea);
    lemma_fields_bounded(i_st);
    lemma_fields_bounded(i_ld);
}

impl CPU {
    /// Executes an ADD instruction word against this state.
    pub fn add(&mut self, instruction: u16)
        ensures
            final(self)@ == add_spec(old(self)@, instruction),
    {
        proof {
            lemma_fields_bounded(instruction);
        }
        let dr = (instruction >> 9) & 0x7;
        let sr1 = (instruction >> 6) & 0x7;
        let immediate_mode = ((instruction >> 5) & 0x1) == 1;
        let value = if immediate_mode {
            let imm5 = Self::sext(instruction & 0x1F, 5);
            wrapping_add16(self.get_gpr(sr1), imm5)
        } else {
            let sr2 = instruction & 0x7;
            wrapping_add16(self.get_gpr(sr1), self.get_gpr(sr2))
        };
        self.set_gpr(dr, value);
        self.set_cc(dr);
    }

    /// Executes an AND instruction word against this state.
    pub fn and(&mut self, instruction: u16)
        ensures
            final(self)@ == and_spec(old(self)@, instruction),
    {
        proof {
            lemma_fields_bounded(instruction);
        }
        let dr = (instruction >> 9) & 0x7;
        let sr1 = (instruction >> 6) & 0x7;
        let immediate_mode = ((instruction >> 5) & 0x1) == 1;
        let value = if immediate_mode {
            let imm5 = Self::sext(instruction & 0x1F, 5);
            self.get_gpr(sr1) & imm5
        } else {
            let sr2 = instruction & 0x7;
            self.get_gpr(sr1) & self.get_gpr(sr2)
        };
        self.set_gpr(dr, value);
        self.set_cc(dr);
    }

    /// Executes a NOT instruction word against this state.
    pub fn not(&mut self, instruction: u16)
        ensures
            final(self)@ == not_spec(old(self)@, instruction),
    {
        proof {
            lemma_fields_bounded(instruction);
        }
        let dr = (instruction >> 9) & 0x7;
        let sr = (instruction >> 6) & 0x7;
        let value = !self.get_gpr(sr);
        self.set_gpr(dr, value);
        self.set_cc(dr);
    }

    /// Executes a BR instruction word against this state.
    pub fn br(&mut self, instruction: u16)
        ensures
            final(self)@ == br_spec(old(self)@, instruction),
    {
        proof {
            lemma_fields_bounded(instruction);
        }
        let cond_mask = (instruction >> 9) & 0x7;
        let pc_offset = Self::sext(instruction & 0x1FF, 9);
        if (self.cond.bits() & cond_mask) != 0 {
            self.pc = wrapping_add16(self.pc, pc_offset);
        }
    }

    /// Executes a JMP instruction word against this state.
    pub fn jmp(&mut self, instruction: u16)
        ensures
            final(self)@ == jmp_spec(old(self)@, instruction),
    {
        proof {
            lemma_fields_bounded(instruction);
        }
        let base_r = (instruction >> 6) & 0x7;
        self.pc = self.get_gpr(base_r);
    }

    /// Executes a JSR or JSRR instruction word against this state.
    pub fn jsr(&mut self, instruction: u16)
        ensures
            final(self)@ == jsr_spec(old(self)@, instruction),
    {
        proof {
            lemma_fields_bounded(instruction);
        }
        let long_mode = ((instruction >> 11) & 0x1) == 1;
        let return_address = self.pc;
        self.set_gpr(7, return_address);
        if long_mode {
            // JSR: PC-relative, 11-bit offset
            let pc_offset = Self::sext(instruction & 0x7FF, 11);
            self.pc = wrapping_add16(return_address, pc_offset);
        } else {
            // JSRR: through a base register
            let base_r = (instruction >> 6) & 0x7;
            self.pc = self.get_gpr(base_r);
        }
    }

    /// Executes an LD instruction word against this state, reading from
    /// `memory`.
    pub fn ld(&mut self, instruction: u16, memory: &Memory)
        ensures
            final(self)@ == ld_spec(old(self)@, instruction, memory@),
    {
        proof {
            lemma_fields_bounded(instruction);
        }
        let dr = (instruction >> 9) & 0x7;
        let pc_offset = Self::sext(instruction & 0x1FF, 9);
        let value = memory.read(wrapping_add16(self.pc, pc_offset));
        self.set_gpr(dr, value);
        self.set_cc(dr);
    }

    /// Executes an LDI instruction word against this state, reading the
    /// pointer and then the word it names from `memory`.
    pub fn ldi(&mut self, instruction: u16, memory: &Memory)
        ensures
            final(self)@ == ldi_spec(old(self)@, instruction, memory@),
    {
        proof {
            lemma_fields_bounded(instruction);
        }
        let dr = (instruction >> 9) & 0x7;
        let pc_offset = Self::sext(instruction & 0x1FF, 9);
        let pointer = memory.read(wrapping_add16(self.pc, pc_offset));
        let value = memory.read(pointer);
        self.set_gpr(dr, value);
        self.set_cc(dr);
    }

    /// Executes an LDR instruction word against this state, reading from
    /// `memory`.
    pub fn ldr(&mut self, instruction: u16, memory: &Memory)
        ensures
            final(self)@ == ldr_spec(old(self)@, instruction, memory@),
    {
        proof {
            lemma_fields_bounded(instruction);
        }
        let dr = (instruction >> 9) & 0x7;
        let base_r = (instruction >> 6) & 0x7;
        let offset = Self::sext(instruction & 0x3F, 6);
        let value = memory.read(wrapping_add16(self.get_gpr(base_r), offset));
        self.set_gpr(dr, value);
        self.set_cc(dr);
    }

    /// Executes an LEA instruction word against this state.
    pub fn lea(&mut self, instruction: u16)
        ensures
            final(self)@ == lea_spec(old(self)@, instruction),
    {
        proof {
            lemma_fields_bounded(instruction);
        }
        let dr = (instruction >> 9) & 0x7;
        let pc_offset = Self::sext(instruction & 0x1FF, 9);
        let value = wrapping_add16(self.pc, pc_offset);
        self.set_gpr(dr, value);
        self.set_cc(dr);
    }

    /// Executes an ST instruction word, writing the source register's
    /// value into `memory`. The processor state is untouched.
    pub fn st(&mut self, instruction: u16, memory: &mut Memory)
        ensures
            final(self)@ == old(self)@,
            final(memory)@ == st_spec(old(self)@, instruction, old(memory)@),
    {
        proof {
            lemma_fields_bounded(instruction);
        }
        let sr = (instruction >> 9) & 0x7;
        let pc_offset = Self::sext(instruction & 0x1FF, 9);
        memory.write(wrapping_add16(self.pc, pc_offset), self.get_gpr(sr));
    }

    /// Executes an STI instruction word: the word at PC plus offset names
    /// the address written in `memory`. The processor state is untouched.
    pub fn sti(&mut self, instruction: u16, memory: &mut Memory)
        ensures
            final(self)@ == old(self)@,
            final(memory)@ == sti_spec(old(self)@, instruction, old(memory)@),
    {
        proof {
            lemma_fields_bounded(instruction);
        }
        let sr = (instruction >> 9) & 0x7;
        let pc_offset = Self::sext(instruction & 0x1FF, 9);
        let target = memory.read(wrapping_add16(self.pc, pc_offset));
        memory.write(target, self.get_gpr(sr));
    }

    /// Executes an STR instruction word, writing the source register's
    /// value into `memory` at base register plus offset. The processor
    /// state is untouched.
    pub fn str(&mut self, instruction: u16, memory: &mut Memory)
        ensures
            final(self)@ == old(self)@,
            final(memory)@ == str_spec(old(self)@, instruction, old(memory)@),
    {
        proof {
            lemma_fields_bounded(instruction);
        }
        let sr = (instruction >> 9) & 0x7;
        let base_r = (instruction >> 6) & 0x7;
        let offset = Self::sext(instruction & 0x3F, 6);
        memory.write(wrapping_add16(self.get_gpr(base_r), offset), self.get_gpr(sr));
    }
}

} // verus!

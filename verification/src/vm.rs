//! The fetch-execute cycle.
//!
//! One cycle fetches the word at PC, advances PC by one (wrapping at
//! 65536), decodes the word's top four bits and dispatches to the
//! handler for that operation. The whole cycle is specified by the pure
//! transition [`step_spec`] over a mathematical view of the machine.

use crate::cpu::add_spec;
use crate::cpu::and_spec;
use crate::cpu::base_of;
use crate::cpu::br_spec;
use crate::cpu::jmp_spec;
use crate::cpu::jsr_spec;
use crate::cpu::ld_spec;
use crate::cpu::ldi_spec;
use crate::cpu::ldr_spec;
use crate::cpu::lea_spec;
use crate::cpu::not_spec;
use crate::cpu::st_spec;
use crate::cpu::sti_spec;
use crate::cpu::str_spec;
use crate::cpu::wadd;
use crate::cpu::wrapping_add16;
use crate::cpu::CpuView;
use crate::cpu::CPU;
use crate::memory::Memory;
use crate::opcodes::decode_spec;
use crate::opcodes::Opcodes;
use vstd::prelude::*;

verus! {

/// A fatal fault: the cycle that produced it is deterministic, so
/// retrying without changing state cannot succeed.
#[derive(Copy, Clone, PartialEq, Eq, Structural, Debug)]
pub enum Fault {
    /// The reserved opcode (13) was decoded, which has no semantics.
    IllegalOpcode,
    /// RTI or TRAP was executed, and this core hosts no supervisory or
    /// trap subsystem to dispatch to.
    PrivilegedInstruction,
}

/// What one cycle reports: `Continue` after a completed instruction,
/// `Halt` when a hosting trap subsystem signals the machine stopped (this
/// core, hosting none, never produces it), or a fatal `Fault`.
#[derive(Copy, Clone, PartialEq, Eq, Structural, Debug)]
pub enum StepOutcome {
    Continue,
    Halt,
    Fault(Fault),
}

/// Mathematical view of the whole machine: processor state and memory.
#[verifier::ext_equal]
pub ghost struct MachineView {
    pub cpu: CpuView,
    pub mem: Seq<u16>,
}

impl MachineView {
    /// Eight registers and one memory word per 16-bit address.
    pub open spec fn wf(self) -> bool {
        self.cpu.wf() && self.mem.len() == 0x10000
    }
}

/// One fetch-decode-execute cycle as a pure transition.
///
/// The word at PC is fetched, PC advances by one (wrapping), and the
/// decoded operation's transition runs against the advanced state — so
/// every PC-relative computation uses the address of the next
/// instruction. RES faults as illegal; RTI faults as privileged; TRAP
/// saves the advanced PC into R7, as its dispatch sequence begins, and
/// then faults as privileged since no trap subsystem is hosted.
pub open spec fn step_spec(s: MachineView) -> (MachineView, StepOutcome)
    recommends
        s.wf(),
{
    let word = s.mem[s.cpu.pc as int];
    let fetched = CpuView { gpr: s.cpu.gpr, pc: wadd(s.cpu.pc, 1), cond: s.cpu.cond };
    match decode_spec(word >> 12) {
        Opcodes::BR => (MachineView { cpu: br_spec(fetched, word), mem: s.mem }, StepOutcome::Continue),
        Opcodes::ADD => (MachineView { cpu: add_spec(fetched, word), mem: s.mem }, StepOutcome::Continue),
        Opcodes::LD => (MachineView { cpu: ld_spec(fetched, word, s.mem), mem: s.mem }, StepOutcome::Continue),
        Opcodes::ST => (MachineView { cpu: fetched, mem: st_spec(fetched, word, s.mem) }, StepOutcome::Continue),
        Opcodes::JSR => (MachineView { cpu: jsr_spec(fetched, word), mem: s.mem }, StepOutcome::Continue),
        Opcodes::AND => (MachineView { cpu: and_spec(fetched, word), mem: s.mem }, StepOutcome::Continue),
        Opcodes::LDR => (MachineView { cpu: ldr_spec(fetched, word, s.mem), mem: s.mem }, StepOutcome::Continue),
        Opcodes::STR => (MachineView { cpu: fetched, mem: str_spec(fetched, word, s.mem) }, StepOutcome::Continue),
        Opcodes::RTI => (MachineView { cpu: fetched, mem: s.mem }, StepOutcome::Fault(Fault::PrivilegedInstruction)),
        Opcodes::NOT => (MachineView { cpu: not_spec(fetched, word), mem: s.mem }, StepOutcome::Continue),
        Opcodes::LDI => (MachineView { cpu: ldi_spec(fetched, word, s.mem), mem: s.mem }, StepOutcome::Continue),
        Opcodes::STI => (MachineView { cpu: fetched, mem: sti_spec(fetched, word, s.mem) }, StepOutcome::Continue),
        Opcodes::JMP => (MachineView { cpu: jmp_spec(fetched, word), mem: s.mem }, StepOutcome::Continue),
        Opcodes::RES => (MachineView { cpu: fetched, mem: s.mem }, StepOutcome::Fault(Fault::IllegalOpcode)),
        Opcodes::LEA => (MachineView { cpu: lea_spec(fetched, word), mem: s.mem }, StepOutcome::Continue),
        Opcodes::TRAP => (
            MachineView {
                cpu: CpuView {
                    gpr: fetched.gpr.update(7, fetched.pc),
                    pc: fetched.pc,
                    cond: fetched.cond,
                },
                mem: s.mem,
            },
            StepOutcome::Fault(Fault::PrivilegedInstruction),
        ),
    }
}

/// The operations that neither branch nor jump: after one of them, the
/// program counter is exactly the incremented fetch address.
pub open spec fn is_non_branching(op: Opcodes) -> bool {
    match op {
        Opcodes::ADD => true,
        Opcodes::AND => true,
        Opcodes::NOT => true,
        Opcodes::LD => true,
        Opcodes::LDI => true,
        Opcodes::LDR => true,
        Opcodes::LEA => true,
        Opcodes::ST => true,
        Opcodes::STI => true,
        Opcodes::STR => true,
        _ => false,
    }
}

/// A JSR cycle leaves in R7 the address of the instruction after the
/// JSR; a later JMP cycle through R7 — with R7 preserved meanwhile —
/// returns the program counter to exactly that address.
pub proof fn lemma_jsr_then_jmp_returns(s0: MachineView, s1: MachineView)
    requires
        s0.wf(),
        s1.wf(),
        decode_spec(s0.mem[s0.cpu.pc as int] >> 12) == Opcodes::JSR,
        decode_spec(s1.mem[s1.cpu.pc as int] >> 12) == Opcodes::JMP,
        base_of(s1.mem[s1.cpu.pc as int]) == 7,
        s1.cpu.gpr[7] == step_spec(s0).0.cpu.gpr[7],
    ensures
        step_spec(s0).0.cpu.gpr[7] == wadd(s0.cpu.pc, 1),
        step_spec(s1).0.cpu.pc == wadd(s0.cpu.pc, 1),
{
}

/// From PC = 0xFFFF, a cycle that executes any non-branching instruction
/// advances the program counter to 0x0000: the increment wraps at 65536.
pub proof fn lemma_pc_wraps_around(s: MachineView)
    requires
        s.wf(),
        s.cpu.pc == 0xFFFF,
        is_non_branching(decode_spec(s.mem[s.cpu.pc as int] >> 12)),
    ensures
        step_spec(s).0.cpu.pc == 0x0000,
{
}

/// A cycle that fetches a word with the reserved opcode (top four bits
/// 13) faults as illegal and changes nothing but the program counter,
/// which holds its incremented fetch value.
pub proof fn lemma_reserved_opcode_faults(s: MachineView)
    requires
        s.wf(),
        s.mem[s.cpu.pc as int] >> 12 == 13,
    ensures
        step_spec(s).1 == StepOutcome::Fault(Fault::IllegalOpcode),
        step_spec(s).0.cpu.gpr == s.cpu.gpr,
        step_spec(s).0.cpu.cond == s.cpu.cond,
        step_spec(s).0.mem == s.mem,
        step_spec(s).0.cpu.pc == wadd(s.cpu.pc, 1),
{
}

/// A machine instance: one processor and its exclusively owned memory.
pub struct VM {
    pub cpu: CPU,
    pub memory: Memory,
}

impl View for VM {
    type V = MachineView;

    open spec fn view(&self) -> MachineView {
        MachineView { cpu: self.cpu@, mem: self.memory@ }
    }
}

impl VM {
    /// Builds a machine from a processor state and a memory image.
    pub fn new(cpu: CPU, memory: Memory) -> (vm: VM)
        ensures
            vm@.cpu == cpu@,
            vm@.mem == memory@,
    {
        VM { cpu, memory }
    }

    /// Every machine view is well formed: eight registers and one word
    /// per 16-bit address.
    pub proof fn lemma_wf(&self)
        ensures
            self@.wf(),
    {
        self.memory.lemma_size();
    }

    /// Executes exactly one fetch-decode-execute cycle, as
    /// [`step_spec`] describes, and reports how it ended.
    pub fn run(&mut self) -> (outcome: StepOutcome)
        ensures
            final(self)@ == step_spec(old(self)@).0,
            outcome == step_spec(old(self)@).1,
    {
        let instruction = self.memory.read(self.cpu.pc);
        self.cpu.pc = wrapping_add16(self.cpu.pc, 1);
        match Opcodes::decode(instruction) {
            Opcodes::BR => {
                self.cpu.br(instruction);
                StepOutcome::Continue
            },
            Opcodes::ADD => {
                self.cpu.add(instruction);
                StepOutcome::Continue
            },
            Opcodes::LD => {
                self.cpu.ld(instruction, &self.memory);
                StepOutcome::Continue
            },
            Opcodes::ST => {
                self.cpu.st(instruction, &mut self.memory);
                StepOutcome::Continue
            },
            Opcodes::JSR => {
                self.cpu.jsr(instruction);
                StepOutcome::Continue
            },
            Opcodes::AND => {
                self.cpu.and(instruction);
                StepOutcome::Continue
            },
            Opcodes::LDR => {
                self.cpu.ldr(instruction, &self.memory);
                StepOutcome::Continue
            },
            Opcodes::STR => {
                self.cpu.str(instruction, &mut self.memory);
                StepOutcome::Continue
            },
            Opcodes::RTI => StepOutcome::Fault(Fault::PrivilegedInstruction),
            Opcodes::NOT => {
                self.cpu.not(instruction);
                StepOutcome::Continue
            },
            Opcodes::LDI => {
                self.cpu.ldi(instruction, &self.memory);
                StepOutcome::Continue
            },
            Opcodes::STI => {
                self.cpu.sti(instruction, &mut self.memory);
                StepOutcome::Continue
            },
            Opcodes::JMP => {
                self.cpu.jmp(instruction);
                StepOutcome::Continue
            },
            Opcodes::RES => StepOutcome::Fault(Fault::IllegalOpcode),
            Opcodes::LEA => {
                self.cpu.lea(instruction);
                StepOutcome::Continue
            },
            Opcodes::TRAP => {
                let return_address = self.cpu.pc;
                self.cpu.set_gpr(7, return_address);
                StepOutcome::Fault(Fault::PrivilegedInstruction)
            },
        }
    }
}

} // verus!

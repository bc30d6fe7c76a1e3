use lc3_vm::cpu::{CondFlags, CPU};
use lc3_vm::memory::Memory;
use lc3_vm::opcodes::Opcodes;
use lc3_vm::vm::{Fault, StepOutcome, VM};

fn fresh_vm() -> VM {
    VM::new(CPU::new(), Memory::new())
}

#[test]
fn sign_extend_negative_and_positive_fields() {
    assert_eq!(CPU::sext(0b11111, 5), 0xFFFF);
    assert_eq!(CPU::sext(0b01111, 5), 0x000F);
    assert_eq!(CPU::sext(0x1FF, 9), 0xFFFF);
    assert_eq!(CPU::sext(0x0FF, 9), 0x00FF);
    assert_eq!(CPU::sext(0x3F, 6), 0xFFFF);
    assert_eq!(CPU::sext(0x1F, 6), 0x001F);
    assert_eq!(CPU::sext(0x7FF, 11), 0xFFFF);
    assert_eq!(CPU::sext(0x400, 11), 0xFC00);
}

#[test]
fn condition_flag_tracks_written_value() {
    let mut cpu = CPU::new();
    assert_eq!(cpu.cond, CondFlags::Uninitialized);

    cpu.set_gpr(3, 0);
    cpu.set_cc(3);
    assert_eq!(cpu.cond, CondFlags::Zro);

    cpu.set_gpr(3, 0x8000);
    cpu.set_cc(3);
    assert_eq!(cpu.cond, CondFlags::Neg);

    cpu.set_gpr(3, 1);
    cpu.set_cc(3);
    assert_eq!(cpu.cond, CondFlags::Pos);
}

#[test]
fn fresh_cpu_state() {
    let cpu = CPU::new();
    assert_eq!(cpu.pc, 0x3000);
    assert_eq!(cpu.cond, CondFlags::Uninitialized);
    for r in 0..8u16 {
        assert_eq!(cpu.get_gpr(r), 0);
    }
}

#[test]
fn register_peek_and_poke() {
    let mut cpu = CPU::new();
    cpu.set_gpr(0, 0xABCD);
    cpu.set_gpr(7, 0x1234);
    assert_eq!(cpu.get_gpr(0), 0xABCD);
    assert_eq!(cpu.get_gpr(7), 0x1234);
    assert_eq!(cpu.get_gpr(1), 0);
}

#[test]
fn memory_starts_zeroed_and_round_trips() {
    let mut mem = Memory::new();
    assert_eq!(mem.read(0x0000), 0);
    assert_eq!(mem.read(0x3000), 0);
    assert_eq!(mem.read(0xFFFF), 0);

    mem.write(0x3000, 0xBEEF);
    assert_eq!(mem.read(0x3000), 0xBEEF);
    assert_eq!(mem.read(0x2FFF), 0);
    assert_eq!(mem.read(0x3001), 0);

    mem.write(0x3000, 0x0001);
    assert_eq!(mem.read(0x3000), 0x0001);

    mem.write(0xFFFF, 0xAAAA);
    assert_eq!(mem.read(0xFFFF), 0xAAAA);
}

#[test]
fn decoder_maps_top_four_bits_in_order() {
    assert_eq!(Opcodes::decode(0x0000), Opcodes::BR);
    assert_eq!(Opcodes::decode(0x1000), Opcodes::ADD);
    assert_eq!(Opcodes::decode(0x2000), Opcodes::LD);
    assert_eq!(Opcodes::decode(0x3000), Opcodes::ST);
    assert_eq!(Opcodes::decode(0x4000), Opcodes::JSR);
    assert_eq!(Opcodes::decode(0x5000), Opcodes::AND);
    assert_eq!(Opcodes::decode(0x6000), Opcodes::LDR);
    assert_eq!(Opcodes::decode(0x7000), Opcodes::STR);
    assert_eq!(Opcodes::decode(0x8000), Opcodes::RTI);
    assert_eq!(Opcodes::decode(0x9000), Opcodes::NOT);
    assert_eq!(Opcodes::decode(0xA000), Opcodes::LDI);
    assert_eq!(Opcodes::decode(0xB000), Opcodes::STI);
    assert_eq!(Opcodes::decode(0xC000), Opcodes::JMP);
    assert_eq!(Opcodes::decode(0xD000), Opcodes::RES);
    assert_eq!(Opcodes::decode(0xE000), Opcodes::LEA);
    assert_eq!(Opcodes::decode(0xF000), Opcodes::TRAP);
    // the low twelve bits do not matter to the decoder
    assert_eq!(Opcodes::decode(0x1FFF), Opcodes::ADD);
    assert_eq!(Opcodes::decode(0xDEAD), Opcodes::RES);
}

#[test]
fn add_immediate_negative_three() {
    // ADD R0, R1, #-3 with R1 = 5: R0 ends at 2, flag Positive.
    let mut vm = fresh_vm();
    vm.cpu.set_gpr(1, 5);
    vm.memory.write(0x3000, 0x107D);
    assert_eq!(vm.run(), StepOutcome::Continue);
    assert_eq!(vm.cpu.get_gpr(0), 2);
    assert_eq!(vm.cpu.cond, CondFlags::Pos);
    assert_eq!(vm.cpu.pc, 0x3001);
}

#[test]
fn add_register_mode_and_wraparound() {
    // ADD R0, R1, R2 with R1 = 0xFFFF and R2 = 1 wraps to 0, flag Zero.
    let mut vm = fresh_vm();
    vm.cpu.set_gpr(1, 0xFFFF);
    vm.cpu.set_gpr(2, 1);
    vm.memory.write(0x3000, 0x1042);
    assert_eq!(vm.run(), StepOutcome::Continue);
    assert_eq!(vm.cpu.get_gpr(0), 0);
    assert_eq!(vm.cpu.cond, CondFlags::Zro);
}

#[test]
fn and_register_and_immediate_modes() {
    let mut vm = fresh_vm();
    vm.cpu.set_gpr(1, 0xFF0F);
    vm.cpu.set_gpr(2, 0x0FF0);
    // AND R0, R1, R2
    vm.memory.write(0x3000, 0x5042);
    // AND R3, R1, #0
    vm.memory.write(0x3001, 0x5660);
    assert_eq!(vm.run(), StepOutcome::Continue);
    assert_eq!(vm.cpu.get_gpr(0), 0x0F00);
    assert_eq!(vm.cpu.cond, CondFlags::Pos);
    assert_eq!(vm.run(), StepOutcome::Continue);
    assert_eq!(vm.cpu.get_gpr(3), 0);
    assert_eq!(vm.cpu.cond, CondFlags::Zro);
}

#[test]
fn not_complements_the_source() {
    // NOT R0, R1 with R1 = 0x00FF: R0 = 0xFF00, flag Negative.
    let mut vm = fresh_vm();
    vm.cpu.set_gpr(1, 0x00FF);
    vm.memory.write(0x3000, 0x9040);
    assert_eq!(vm.run(), StepOutcome::Continue);
    assert_eq!(vm.cpu.get_gpr(0), 0xFF00);
    assert_eq!(vm.cpu.cond, CondFlags::Neg);
}

#[test]
fn lea_st_ld_round_trip() {
    // LEA R0, #2 computes A = 0x3003; ST R1, #1 stores to A;
    // LD R2, #0 loads from A: R2 ends with R1's value.
    let mut vm = fresh_vm();
    vm.cpu.set_gpr(1, 0xBEEF);
    vm.memory.write(0x3000, 0xE002);
    vm.memory.write(0x3001, 0x3201);
    vm.memory.write(0x3002, 0x2400);
    assert_eq!(vm.run(), StepOutcome::Continue);
    assert_eq!(vm.cpu.get_gpr(0), 0x3003);
    assert_eq!(vm.run(), StepOutcome::Continue);
    assert_eq!(vm.memory.read(0x3003), 0xBEEF);
    assert_eq!(vm.run(), StepOutcome::Continue);
    assert_eq!(vm.cpu.get_gpr(2), 0xBEEF);
    assert_eq!(vm.cpu.cond, CondFlags::Neg);
}

#[test]
fn ld_with_negative_offset() {
    // At PC = 0x3005, LD R0, #-1 reads from 0x3006 - 1 = 0x3005 itself.
    let mut vm = fresh_vm();
    vm.cpu.pc = 0x3005;
    vm.memory.write(0x3005, 0x21FF);
    assert_eq!(vm.run(), StepOutcome::Continue);
    assert_eq!(vm.cpu.get_gpr(0), 0x21FF);
}

#[test]
fn ldr_and_str_through_a_base_register() {
    let mut vm = fresh_vm();
    vm.cpu.set_gpr(0, 0x1234);
    vm.cpu.set_gpr(1, 0x4000);
    // STR R0, R1, #2 stores 0x1234 at 0x4002
    vm.memory.write(0x3000, 0x7042);
    // LDR R2, R1, #2 loads it back
    vm.memory.write(0x3001, 0x6442);
    assert_eq!(vm.run(), StepOutcome::Continue);
    assert_eq!(vm.memory.read(0x4002), 0x1234);
    assert_eq!(vm.run(), StepOutcome::Continue);
    assert_eq!(vm.cpu.get_gpr(2), 0x1234);
    assert_eq!(vm.cpu.cond, CondFlags::Pos);
}

#[test]
fn sti_and_ldi_indirect_addressing() {
    let mut vm = fresh_vm();
    vm.cpu.set_gpr(1, 0x7777);
    // the pointer cell at 0x3003 names the true target 0x5000
    vm.memory.write(0x3003, 0x5000);
    // STI R1, #2: pointer cell at 0x3001 + 2 = 0x3003, target 0x5000
    vm.memory.write(0x3000, 0xB202);
    // LDI R2, #1: pointer cell at 0x3002 + 1 = 0x3003, target 0x5000
    vm.memory.write(0x3001, 0xA401);
    assert_eq!(vm.run(), StepOutcome::Continue);
    assert_eq!(vm.memory.read(0x5000), 0x7777);
    assert_eq!(vm.run(), StepOutcome::Continue);
    assert_eq!(vm.cpu.get_gpr(2), 0x7777);
}

#[test]
fn jsr_links_and_jmp_returns() {
    // JSR #15 at 0x3000: R7 = 0x3001, PC = 0x3001 + 15 = 0x3010.
    // JMP R7 at 0x3010 returns PC to 0x3001 exactly.
    let mut vm = fresh_vm();
    vm.memory.write(0x3000, 0x480F);
    vm.memory.write(0x3010, 0xC1C0);
    assert_eq!(vm.run(), StepOutcome::Continue);
    assert_eq!(vm.cpu.get_gpr(7), 0x3001);
    assert_eq!(vm.cpu.pc, 0x3010);
    assert_eq!(vm.run(), StepOutcome::Continue);
    assert_eq!(vm.cpu.pc, 0x3001);
}

#[test]
fn jsrr_jumps_through_a_base_register() {
    // JSRR R3 with R3 = 0x4000: R7 = 0x3001, PC = 0x4000.
    let mut vm = fresh_vm();
    vm.cpu.set_gpr(3, 0x4000);
    vm.memory.write(0x3000, 0x40C0);
    assert_eq!(vm.run(), StepOutcome::Continue);
    assert_eq!(vm.cpu.get_gpr(7), 0x3001);
    assert_eq!(vm.cpu.pc, 0x4000);
}

#[test]
fn branch_taken_and_not_taken() {
    let mut vm = fresh_vm();
    // ADD R0, R0, #1 sets the Positive flag
    vm.memory.write(0x3000, 0x1021);
    // BRz #9 is not taken on Positive
    vm.memory.write(0x3001, 0x0409);
    // BRp #5 is taken: PC = 0x3003 + 5 = 0x3008
    vm.memory.write(0x3002, 0x0205);
    assert_eq!(vm.run(), StepOutcome::Continue);
    assert_eq!(vm.cpu.cond, CondFlags::Pos);
    assert_eq!(vm.run(), StepOutcome::Continue);
    assert_eq!(vm.cpu.pc, 0x3002);
    assert_eq!(vm.run(), StepOutcome::Continue);
    assert_eq!(vm.cpu.pc, 0x3008);
}

#[test]
fn branch_never_taken_on_uninitialized_flag() {
    // BRnzp #5 with the flag never set: treated as no flag bits set.
    let mut vm = fresh_vm();
    vm.memory.write(0x3000, 0x0E05);
    assert_eq!(vm.run(), StepOutcome::Continue);
    assert_eq!(vm.cpu.pc, 0x3001);
    assert_eq!(vm.cpu.cond, CondFlags::Uninitialized);
}

#[test]
fn branch_backwards_with_negative_offset() {
    // At 0x3001, BRnzp #-2 (off9 = 0x1FE) after a flag-setting ADD:
    // PC = 0x3002 - 2 = 0x3000.
    let mut vm = fresh_vm();
    vm.memory.write(0x3000, 0x1021);
    vm.memory.write(0x3001, 0x0FFE);
    assert_eq!(vm.run(), StepOutcome::Continue);
    assert_eq!(vm.run(), StepOutcome::Continue);
    assert_eq!(vm.cpu.pc, 0x3000);
}

#[test]
fn pc_wraps_from_top_of_memory() {
    // A non-branching instruction at 0xFFFF leaves PC at 0x0000.
    let mut vm = fresh_vm();
    vm.cpu.pc = 0xFFFF;
    vm.memory.write(0xFFFF, 0x1021);
    assert_eq!(vm.run(), StepOutcome::Continue);
    assert_eq!(vm.cpu.pc, 0x0000);
}

#[test]
fn reserved_opcode_faults_and_preserves_state() {
    let mut vm = fresh_vm();
    vm.cpu.set_gpr(4, 0x5555);
    vm.memory.write(0x3000, 0xD123);
    assert_eq!(
        vm.run(),
        StepOutcome::Fault(Fault::IllegalOpcode)
    );
    assert_eq!(vm.cpu.pc, 0x3001);
    assert_eq!(vm.cpu.cond, CondFlags::Uninitialized);
    for r in 0..8u16 {
        let expected = if r == 4 { 0x5555 } else { 0 };
        assert_eq!(vm.cpu.get_gpr(r), expected);
    }
    assert_eq!(vm.memory.read(0x3000), 0xD123);
    assert_eq!(vm.memory.read(0x3001), 0);
}

#[test]
fn rti_faults_as_privileged() {
    let mut vm = fresh_vm();
    vm.memory.write(0x3000, 0x8000);
    assert_eq!(
        vm.run(),
        StepOutcome::Fault(Fault::PrivilegedInstruction)
    );
    assert_eq!(vm.cpu.pc, 0x3001);
}

#[test]
fn trap_saves_return_address_then_faults() {
    // TRAP x25 with no trap subsystem: R7 takes the post-fetch PC and
    // the cycle faults as privileged.
    let mut vm = fresh_vm();
    vm.memory.write(0x3000, 0xF025);
    assert_eq!(
        vm.run(),
        StepOutcome::Fault(Fault::PrivilegedInstruction)
    );
    assert_eq!(vm.cpu.get_gpr(7), 0x3001);
    assert_eq!(vm.cpu.pc, 0x3001);
}

#[test]
fn jmp_sets_pc_from_register() {
    let mut vm = fresh_vm();
    vm.cpu.set_gpr(2, 0x1234);
    vm.memory.write(0x3000, 0xC080);
    assert_eq!(vm.run(), StepOutcome::Continue);
    assert_eq!(vm.cpu.pc, 0x1234);
}

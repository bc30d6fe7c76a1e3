//! The opcode decoder.
//!
//! An instruction word selects its operation by its top four bits, bits
//! 15 down to 12. The decoder maps that 4-bit value directly, with no
//! reordering, to one of sixteen operation identifiers.

use vstd::prelude::*;

verus! {

/// The sixteen operations of the instruction set, in opcode order:
/// BR is opcode 0, ADD is 1, and so on up to TRAP at 15.
///
/// RES (opcode 13) is reserved: it has no defined semantics and executing
/// it is always a fatal fault. RTI (8) and TRAP (15) need a hosting
/// supervisory subsystem; this core has none, so they fault too.
#[derive(Copy, Clone, PartialEq, Eq, Structural, Debug)]
pub enum Opcodes {
    BR,
    ADD,
    LD,
    ST,
    JSR,
    AND,
    LDR,
    STR,
    RTI,
    NOT,
    LDI,
    STI,
    JMP,
    RES,
    LEA,
    TRAP,
}

/// The operation selected by a 4-bit opcode value (the top four bits of an
/// instruction word, already shifted down). Values 0 through 15 map in
/// order; no other value can arise from a 4-bit field.
pub open spec fn decode_spec(op4: u16) -> Opcodes {
    if op4 == 0 {
        Opcodes::BR
    } else if op4 == 1 {
        Opcodes::ADD
    } else if op4 == 2 {
        Opcodes::LD
    } else if op4 == 3 {
        Opcodes::ST
    } else if op4 == 4 {
        Opcodes::JSR
    } else if op4 == 5 {
        Opcodes::AND
    } else if op4 == 6 {
        Opcodes::LDR
    } else if op4 == 7 {
        Opcodes::STR
    } else if op4 == 8 {
        Opcodes::RTI
    } else if op4 == 9 {
        Opcodes::NOT
    } else if op4 == 10 {
        Opcodes::LDI
    } else if op4 == 11 {
        Opcodes::STI
    } else if op4 == 12 {
        Opcodes::JMP
    } else if op4 == 13 {
        Opcodes::RES
    } else if op4 == 14 {
        Opcodes::LEA
    } else {
        Opcodes::TRAP
    }
}

impl Opcodes {
    /// Decodes a full instruction word: extracts bits 15..12 and maps the
    /// resulting 4-bit value to its operation. Total: every word decodes.
    pub fn decode(word: u16) -> (op: Opcodes)
        ensures
            op == decode_spec(word >> 12),
    {
        proof {
            assert(word >> 12 < 16) by (bit_vector);
        }
        match word >> 12 {
            0 => Opcodes::BR,
            1 => Opcodes::ADD,
            2 => Opcodes::LD,
            3 => Opcodes::ST,
            4 => Opcodes::JSR,
            5 => Opcodes::AND,
            6 => Opcodes::LDR,
            7 => Opcodes::STR,
            8 => Opcodes::RTI,
            9 => Opcodes::NOT,
            10 => Opcodes::LDI,
            11 => Opcodes::STI,
            12 => Opcodes::JMP,
            13 => Opcodes::RES,
            14 => Opcodes::LEA,
            _ => Opcodes::TRAP,
        }
    }
}

} // verus!

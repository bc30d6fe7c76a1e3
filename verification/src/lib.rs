//! A verified simulator core for a 16-bit educational register machine
//! (an LC-3-family instruction set).
//!
//! The crate models the processor state (eight general-purpose registers, a
//! program counter and a condition flag), a flat 65536-word memory, the
//! opcode decoder, the per-instruction semantics and the fetch-execute
//! cycle. Every state change is specified against a mathematical model of
//! the machine and proved by Verus.

pub mod cpu;
pub mod memory;
pub mod opcodes;
pub mod vm;

//! Opcode bytes of the instruction set.
//!
//! Each instruction starts with one of these opcode bytes; the operation
//! selected by it then consumes its own operand bytes, in the order fixed by
//! the machine model in [`crate::model::spec_execute`].

use vstd::prelude::*;

verus! {

/// Move a 16-bit literal into the register picked by an 8-bit index.
pub const MOV_LIT_REG: u8 = 0x10;

/// Copy one register into another (8-bit source index, 8-bit destination index).
pub const MOV_REG_REG: u8 = 0x11;

/// Store a register at a 16-bit memory address, high byte first.
pub const MOV_REG_MEM: u8 = 0x12;

/// Load the 16-bit big-endian word at a memory address into a register.
pub const MOV_MEM_REG: u8 = 0x13;

/// Add two registers into the accumulator with 16-bit wraparound.
pub const ADD_REG_REG: u8 = 0x14;

/// Jump to a 16-bit address when a 16-bit literal differs from the accumulator.
pub const JNE_LIT_ADR: u8 = 0x15;

/// Push a 16-bit literal onto the stack.
pub const PSH_LIT: u8 = 0x17;

/// Push a register onto the stack.
pub const PSH_REG: u8 = 0x18;

/// Pop the top 16-bit stack slot into a register.
pub const POP: u8 = 0x1A;

} // verus!

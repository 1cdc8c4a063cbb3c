//! The closed instruction set of the Neander processor.
//!
//! Each opcode byte maps to at most one instruction; bytes that match no
//! opcode are inert data. `NOP` and `HLT` are the only opcodes the engine
//! dispatches without an operand fetch; every other recognised opcode
//! consumes a second cell (the operand), even `NOT`, which ignores it.

use vstd::prelude::*;

verus! {

/// A decoded instruction of the machine.
#[derive(Clone, Copy, PartialEq, Eq, Structural, Debug)]
pub enum Instruction {
    /// 0x00: no effect.
    Nop,
    /// 0x10: store the accumulator into the operand cell.
    Sta,
    /// 0x20: load the accumulator from the operand cell.
    Lda,
    /// 0x30: saturating add of the operand cell into the accumulator.
    Add,
    /// 0x40: bitwise or of the operand cell into the accumulator.
    Or,
    /// 0x50: bitwise and of the operand cell into the accumulator.
    And,
    /// 0x60: bitwise complement of the accumulator (operand fetched, unused).
    Not,
    /// 0x80: unconditional jump to the operand address.
    Jmp,
    /// 0x90: jump to the operand address if the negative flag is set.
    Jn,
    /// 0xA0: jump to the operand address if the zero flag is set.
    Jz,
    /// 0xF0: halt the machine.
    Hlt,
}

/// The fixed opcode table: which instruction, if any, a byte decodes to.
pub open spec fn decode(b: u8) -> Option<Instruction> {
    if b == 0x00 {
        Some(Instruction::Nop)
    } else if b == 0x10 {
        Some(Instruction::Sta)
    } else if b == 0x20 {
        Some(Instruction::Lda)
    } else if b == 0x30 {
        Some(Instruction::Add)
    } else if b == 0x40 {
        Some(Instruction::Or)
    } else if b == 0x50 {
        Some(Instruction::And)
    } else if b == 0x60 {
        Some(Instruction::Not)
    } else if b == 0x80 {
        Some(Instruction::Jmp)
    } else if b == 0x90 {
        Some(Instruction::Jn)
    } else if b == 0xa0 {
        Some(Instruction::Jz)
    } else if b == 0xf0 {
        Some(Instruction::Hlt)
    } else {
        None
    }
}

/// True of the instructions the engine dispatches without an operand fetch.
/// Only `NOP` and `HLT` qualify; `NOT` still consumes (and ignores) an
/// operand cell, so that every instruction but these two keeps the same
/// two-cell addressing stride.
pub open spec fn no_operand_fetch(i: Instruction) -> bool {
    i == Instruction::Nop || i == Instruction::Hlt
}

/// Decode an opcode byte, exactly as the table `decode` says.
pub fn decode_byte(b: u8) -> (r: Option<Instruction>)
    ensures
        r == decode(b),
{
    match b {
        0x00 => Some(Instruction::Nop),
        0x10 => Some(Instruction::Sta),
        0x20 => Some(Instruction::Lda),
        0x30 => Some(Instruction::Add),
        0x40 => Some(Instruction::Or),
        0x50 => Some(Instruction::And),
        0x60 => Some(Instruction::Not),
        0x80 => Some(Instruction::Jmp),
        0x90 => Some(Instruction::Jn),
        0xa0 => Some(Instruction::Jz),
        0xf0 => Some(Instruction::Hlt),
        _ => None,
    }
}

} // verus!

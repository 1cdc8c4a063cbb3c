//! A verified emulator for the Neander educational processor: an 8-bit,
//! single-accumulator machine that loads a binary memory image and executes
//! it cell by cell.
//!
//! The crate provides the binary-image loader, the virtual-to-physical
//! address translator, the fetch-decode-execute engine, and the disassembler.

pub mod disasm;
pub mod instr;
pub mod machine;
pub mod render;
pub mod state;

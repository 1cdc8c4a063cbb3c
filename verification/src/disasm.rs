//! The disassembler: a pure, read-only projection of the memory image into
//! a token sequence of mnemonics and decimal operand/data values.
//!
//! It walks the cells from offset 4 in the same one-token-per-cell cadence
//! as the engine's fetch logic: after a recognised opcode other than `NOP`
//! or `HLT` the next cell is printed as an operand value; every other cell
//! is printed as either a mnemonic or a raw decimal byte.

use vstd::prelude::*;
use vstd::string::StringExecFns;

use crate::instr::{decode, decode_byte, no_operand_fetch, Instruction};
use crate::machine::Interpreter;

verus! {

/// The decimal digit character for a value 0 through 9.
pub open spec fn digit_char(d: int) -> char {
    if d == 0 {
        '0'
    } else if d == 1 {
        '1'
    } else if d == 2 {
        '2'
    } else if d == 3 {
        '3'
    } else if d == 4 {
        '4'
    } else if d == 5 {
        '5'
    } else if d == 6 {
        '6'
    } else if d == 7 {
        '7'
    } else if d == 8 {
        '8'
    } else {
        '9'
    }
}

/// The decimal rendering of a byte, without leading zeros (but "0" for 0).
pub open spec fn decimal_token(v: u8) -> Seq<char> {
    if v < 10 {
        seq![digit_char(v as int)]
    } else if v < 100 {
        seq![digit_char(v as int / 10), digit_char(v as int % 10)]
    } else {
        seq![
            digit_char(v as int / 100),
            digit_char((v as int / 10) % 10),
            digit_char(v as int % 10),
        ]
    }
}

/// The mnemonic of each instruction, as the disassembly prints it.
pub open spec fn mnemonic(i: Instruction) -> Seq<char> {
    match i {
        Instruction::Nop => "NOP"@,
        Instruction::Sta => "STA"@,
        Instruction::Lda => "LDA"@,
        Instruction::Add => "ADD"@,
        Instruction::Or => "OR"@,
        Instruction::And => "AND"@,
        Instruction::Not => "NOT"@,
        Instruction::Jmp => "JMP"@,
        Instruction::Jn => "JN"@,
        Instruction::Jz => "JZ"@,
        Instruction::Hlt => "HLT"@,
    }
}

/// The token sequence from byte offset `pos` to the end of the image, one
/// token per 2-byte cell. `expect_instruction` is the disassembler's mode:
/// in instruction mode a recognised opcode prints as its mnemonic (and,
/// unless it is `NOP` or `HLT`, switches to operand mode) while anything
/// else prints as a decimal byte; in operand mode the cell prints as a
/// decimal byte and the mode switches back.
pub open spec fn tokens_from(mem: Seq<u8>, pos: int, expect_instruction: bool) -> Seq<Seq<char>>
    decreases (if pos <= mem.len() {
        mem.len() - pos
    } else {
        0int
    }),
{
    if pos < 0 || pos >= mem.len() {
        Seq::empty()
    } else if expect_instruction {
        match decode(mem[pos]) {
            Some(i) => seq![mnemonic(i)] + tokens_from(mem, pos + 2, no_operand_fetch(i)),
            None => seq![decimal_token(mem[pos])] + tokens_from(mem, pos + 2, true),
        }
    } else {
        seq![decimal_token(mem[pos])] + tokens_from(mem, pos + 2, true)
    }
}

/// The full disassembly of a memory image: every cell past the 4-byte
/// header, starting in instruction mode.
pub open spec fn disassembly(mem: Seq<u8>) -> Seq<Seq<char>> {
    tokens_from(mem, 4, true)
}

/// The character sequences of a sequence of strings.
pub open spec fn token_views(tokens: Seq<String>) -> Seq<Seq<char>> {
    Seq::new(tokens.len(), |k: int| tokens[k]@)
}

/// The one-character string of a decimal digit.
pub(crate) fn digit_str(d: u8) -> (r: &'static str)
    requires
        d < 10,
    ensures
        r@ == seq![digit_char(d as int)],
{
    proof {
        reveal_strlit("0");
        reveal_strlit("1");
        reveal_strlit("2");
        reveal_strlit("3");
        reveal_strlit("4");
        reveal_strlit("5");
        reveal_strlit("6");
        reveal_strlit("7");
        reveal_strlit("8");
        reveal_strlit("9");
    }
    if d == 0 {
        "0"
    } else if d == 1 {
        "1"
    } else if d == 2 {
        "2"
    } else if d == 3 {
        "3"
    } else if d == 4 {
        "4"
    } else if d == 5 {
        "5"
    } else if d == 6 {
        "6"
    } else if d == 7 {
        "7"
    } else if d == 8 {
        "8"
    } else {
        "9"
    }
}

/// The decimal rendering of a byte as an owned string.
pub(crate) fn decimal_string(v: u8) -> (s: String)
    ensures
        s@ == decimal_token(v),
{
    if v < 10 {
        let s = digit_str(v).to_owned();
        proof {
            assert(s@ =~= decimal_token(v));
        }
        s
    } else if v < 100 {
        let mut s = digit_str(v / 10).to_owned();
        s.append(digit_str(v % 10));
        proof {
            assert(s@ =~= decimal_token(v));
        }
        s
    } else {
        let mut s = digit_str(v / 100).to_owned();
        s.append(digit_str((v / 10) % 10));
        s.append(digit_str(v % 10));
        proof {
            assert(s@ =~= decimal_token(v));
        }
        s
    }
}

/// The mnemonic of an instruction as a string slice.
fn mnemonic_str(i: Instruction) -> (r: &'static str)
    ensures
        r@ == mnemonic(i),
{
    match i {
        Instruction::Nop => "NOP",
        Instruction::Sta => "STA",
        Instruction::Lda => "LDA",
        Instruction::Add => "ADD",
        Instruction::Or => "OR",
        Instruction::And => "AND",
        Instruction::Not => "NOT",
        Instruction::Jmp => "JMP",
        Instruction::Jn => "JN",
        Instruction::Jz => "JZ",
        Instruction::Hlt => "HLT",
    }
}

impl Interpreter {
    /// Disassemble the memory image into its token sequence: exactly the
    /// model's `disassembly` of the current memory, one string per cell.
    /// Read-only: safe at any point of a run, and never touches the
    /// engine's state.
    pub fn convert_data(&self) -> (r: Vec<String>)
        ensures
            token_views(r@) == disassembly(self@.memory),
    {
        let memory = self.memory();
        let ghost mem = memory@;
        let mut pos: usize = 4;
        let mut instruction = true;
        let mut str_data: Vec<String> = Vec::new();
        proof {
            assert(token_views(str_data@) + tokens_from(mem, 4, true) =~= disassembly(mem));
        }
        while pos < memory.len()
            invariant
                4 <= pos,
                mem == memory@,
                token_views(str_data@) + tokens_from(mem, pos as int, instruction) == disassembly(
                    mem,
                ),
            decreases (if pos <= mem.len() {
                mem.len() - pos
            } else {
                0int
            }),
        {
            let ghost old_views = token_views(str_data@);
            let ghost old_pos = pos as int;
            let ghost old_instruction = instruction;
            let b = memory[pos];
            if instruction {
                match decode_byte(b) {
                    Some(i) => {
                        str_data.push(mnemonic_str(i).to_owned());
                        instruction = i == Instruction::Nop || i == Instruction::Hlt;
                    },
                    None => {
                        str_data.push(decimal_string(b));
                    },
                }
            } else {
                str_data.push(decimal_string(b));
                instruction = true;
            }
            pos = pos.saturating_add(2);
            proof {
                assert(tokens_from(mem, old_pos, old_instruction) == seq![
                    str_data@.last()@,
                ] + tokens_from(mem, old_pos + 2, instruction));
                assert(token_views(str_data@) =~= old_views.push(str_data@.last()@));
                assert(tokens_from(mem, pos as int, instruction) == tokens_from(
                    mem,
                    old_pos + 2,
                    instruction,
                ));
                assert(token_views(str_data@) + tokens_from(mem, pos as int, instruction)
                    =~= disassembly(mem));
            }
        }
        proof {
            assert(token_views(str_data@) =~= token_views(str_data@) + tokens_from(
                mem,
                pos as int,
                instruction,
            ));
        }
        str_data
    }
}

} // verus!

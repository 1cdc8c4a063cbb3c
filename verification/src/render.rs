//! The state report: the machine's registers and a hexadecimal dump of its
//! memory as one plain string, for a caller that wants to print it.

use vstd::prelude::*;
use vstd::string::StringExecFns;

use crate::disasm::{decimal_string, decimal_token, digit_char, digit_str};
use crate::machine::Interpreter;
use crate::state::State;

verus! {

/// The upper-case hexadecimal digit character for a value 0 through 15.
pub open spec fn hex_digit(d: int) -> char {
    if d < 10 {
        digit_char(d)
    } else if d == 10 {
        'A'
    } else if d == 11 {
        'B'
    } else if d == 12 {
        'C'
    } else if d == 13 {
        'D'
    } else if d == 14 {
        'E'
    } else {
        'F'
    }
}

/// A byte as two hexadecimal digits, high nibble first.
pub open spec fn hex_byte(b: u8) -> Seq<char> {
    seq![hex_digit(b as int / 16), hex_digit(b as int % 16)]
}

/// The decimal rendering of an arbitrary nonnegative value.
pub open spec fn decimal_value(n: int) -> Seq<char>
    decreases n,
{
    if n < 10 {
        seq![digit_char(n)]
    } else {
        decimal_value(n / 10).push(digit_char(n % 10))
    }
}

/// The hexadecimal dump of the memory from index `k` on: each byte as
/// ` XX ` (two hex digits between single spaces), with a line break after
/// every sixteenth byte.
pub open spec fn memory_dump(mem: Seq<u8>, k: int) -> Seq<char>
    decreases (if k <= mem.len() {
        mem.len() - k
    } else {
        0int
    }),
{
    if k < 0 || k >= mem.len() {
        Seq::empty()
    } else {
        seq![' '] + hex_byte(mem[k]) + seq![' '] + (if (k + 1) % 16 == 0 {
            seq!['\n']
        } else {
            Seq::empty()
        }) + memory_dump(mem, k + 1)
    }
}

/// The full state report: accumulator, virtual program-counter address, and
/// the memory dump.
pub open spec fn state_text(s: State) -> Seq<char> {
    "Interpreter state:\nAC: "@ + decimal_token(s.ac) + "\nPC: "@ + decimal_value(
        if s.pc >= 4 {
            (s.pc - 4) / 2
        } else {
            0int
        },
    ) + "\nMemory:\n"@ + memory_dump(s.memory, 0)
}

/// The one-character string of an upper-case hexadecimal digit.
fn hex_digit_str(d: u8) -> (r: &'static str)
    requires
        d < 16,
    ensures
        r@ == seq![hex_digit(d as int)],
{
    proof {
        reveal_strlit("A");
        reveal_strlit("B");
        reveal_strlit("C");
        reveal_strlit("D");
        reveal_strlit("E");
        reveal_strlit("F");
    }
    if d < 10 {
        digit_str(d)
    } else if d == 10 {
        "A"
    } else if d == 11 {
        "B"
    } else if d == 12 {
        "C"
    } else if d == 13 {
        "D"
    } else if d == 14 {
        "E"
    } else {
        "F"
    }
}

/// The decimal rendering of a `usize` as an owned string.
fn decimal_value_string(n: usize) -> (s: String)
    ensures
        s@ == decimal_value(n as int),
    decreases n,
{
    if n < 10 {
        let s = digit_str(n as u8).to_owned();
        proof {
            assert(s@ =~= decimal_value(n as int));
        }
        s
    } else {
        let mut s = decimal_value_string(n / 10);
        s.append(digit_str((n % 10) as u8));
        proof {
            assert(s@ =~= decimal_value(n as int));
        }
        s
    }
}

impl Interpreter {
    /// The state report as a string: exactly the model's `state_text` of
    /// the current state — registers first, then the memory in hexadecimal,
    /// sixteen bytes to a line.
    pub fn state_string(&self) -> (s: String)
        ensures
            s@ == state_text(self@),
    {
        proof {
            reveal_strlit(" ");
            reveal_strlit("\n");
        }
        let mut s = "Interpreter state:\nAC: ".to_owned();
        s.append(decimal_string(self.ac()).as_str());
        s.append("\nPC: ");
        s.append(decimal_value_string(self.pc_address()).as_str());
        s.append("\nMemory:\n");
        let memory = self.memory();
        let ghost mem = memory@;
        let ghost prefix = s@;
        proof {
            assert(s@ + memory_dump(mem, 0) =~= state_text(self@));
        }
        let mut k: usize = 0;
        while k < memory.len()
            invariant
                k <= memory@.len(),
                mem == memory@,
                s@ + memory_dump(mem, k as int) == state_text(self@),
            decreases memory@.len() - k,
        {
            let ghost old_s = s@;
            let ghost old_k = k as int;
            let b = memory[k];
            s.append(" ");
            s.append(hex_digit_str(b / 16));
            s.append(hex_digit_str(b % 16));
            s.append(" ");
            if (k + 1) % 16 == 0 {
                s.append("\n");
            }
            k = k + 1;
            proof {
                reveal_strlit(" ");
                reveal_strlit("\n");
                assert(memory_dump(mem, old_k) == seq![' '] + hex_byte(mem[old_k]) + seq![' ']
                    + (if (old_k + 1) % 16 == 0 {
                    seq!['\n']
                } else {
                    Seq::<char>::empty()
                }) + memory_dump(mem, old_k + 1));
                assert(s@ + memory_dump(mem, k as int) =~= state_text(self@));
            }
        }
        s
    }
}

} // verus!

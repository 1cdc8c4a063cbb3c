//! The mathematical model of the machine.
//!
//! `State` mirrors every observable field of the engine. `step_spec` is the
//! full transition function for one fetch-decode-execute step; the engine's
//! `step` method is proved to implement it exactly, and `steps` iterates it
//! so that whole runs can be specified.

use vstd::prelude::*;

use crate::instr::{decode, no_operand_fetch, Instruction};

verus! {

/// The abstract machine state: one accumulator, a program counter holding a
/// physical byte offset, the raw memory image, the two status flags, the two
/// ways a run can end, and a count of skipped (unrecognised) opcodes.
#[verifier::ext_equal]
pub ghost struct State {
    pub ac: u8,
    pub pc: int,
    pub memory: Seq<u8>,
    pub zero: bool,
    pub negative: bool,
    pub halted: bool,
    pub out_of_bounds: bool,
    pub skipped: int,
}

/// A byte buffer is a valid memory image exactly when it starts with the
/// 4-byte magic header: the control byte 0x03 followed by ASCII "NDR".
pub open spec fn valid_image(mem: Seq<u8>) -> bool {
    &&& mem.len() >= 4
    &&& mem[0] == 0x03
    &&& mem[1] == 0x4e
    &&& mem[2] == 0x44
    &&& mem[3] == 0x52
}

/// The state the loader hands out: accumulator clear, program counter at the
/// first cell (physical offset 4), zero flag set, nothing halted or skipped.
pub open spec fn initial_state(mem: Seq<u8>) -> State {
    State {
        ac: 0,
        pc: 4,
        memory: mem,
        zero: true,
        negative: false,
        halted: false,
        out_of_bounds: false,
        skipped: 0,
    }
}

/// Virtual-to-physical address translation: cell index `v` lives at byte
/// offset `4 + 2 * v` (past the header, two bytes per cell).
pub open spec fn translate(v: u8) -> int {
    4 + 2 * v
}

/// Saturating 8-bit addition: the accumulator caps at 255, never wraps.
pub open spec fn sat_add(a: u8, b: u8) -> u8 {
    if a + b > 255 {
        255u8
    } else {
        (a + b) as u8
    }
}

/// One +2 advance of the program counter, saturating at the top of `usize`
/// (where any subsequent fetch is out of bounds anyway).
pub open spec fn pc_bump(pc: int) -> int {
    if pc + 2 > usize::MAX {
        usize::MAX as int
    } else {
        pc + 2
    }
}

/// One +1 advance of the skipped-opcode counter, saturating at `u64::MAX`.
pub open spec fn count_bump(n: int) -> int {
    if n + 1 > u64::MAX {
        u64::MAX as int
    } else {
        n + 1
    }
}

/// Recompute both status flags from the accumulator: `zero` iff it is 0,
/// `negative` iff its sign bit is set (value at least 128).
pub open spec fn flags_set(s: State) -> State {
    State { zero: s.ac == 0, negative: s.ac >= 128, ..s }
}

/// The effect of one decoded instruction, given the already-translated
/// physical operand address `addr`. Instructions that touch memory at `addr`
/// first check that it is inside the buffer and otherwise end the run with
/// the out-of-bounds condition; jumps write `addr` into the program counter
/// without touching memory, and `NOT` ignores its operand entirely.
pub open spec fn effect(i: Instruction, addr: int, s: State) -> State {
    match i {
        Instruction::Nop => s,
        Instruction::Hlt => State { halted: true, ..s },
        Instruction::Not => State { ac: !s.ac, ..s },
        Instruction::Jmp => State { pc: addr, ..s },
        Instruction::Jn => if s.negative {
            State { pc: addr, ..s }
        } else {
            s
        },
        Instruction::Jz => if s.zero {
            State { pc: addr, ..s }
        } else {
            s
        },
        Instruction::Sta => if addr < s.memory.len() {
            State { memory: s.memory.update(addr, s.ac), ..s }
        } else {
            State { out_of_bounds: true, ..s }
        },
        Instruction::Lda => if addr < s.memory.len() {
            State { ac: s.memory[addr], ..s }
        } else {
            State { out_of_bounds: true, ..s }
        },
        Instruction::Add => if addr < s.memory.len() {
            State { ac: sat_add(s.ac, s.memory[addr]), ..s }
        } else {
            State { out_of_bounds: true, ..s }
        },
        Instruction::Or => if addr < s.memory.len() {
            State { ac: s.memory[addr] | s.ac, ..s }
        } else {
            State { out_of_bounds: true, ..s }
        },
        Instruction::And => if addr < s.memory.len() {
            State { ac: s.memory[addr] & s.ac, ..s }
        } else {
            State { out_of_bounds: true, ..s }
        },
    }
}

/// One full fetch-decode-execute step.
///
/// A halted or out-of-bounds state is terminal and maps to itself. Otherwise
/// the opcode byte is fetched (advancing the program counter one cell); an
/// unrecognised byte is skipped, counted, and the flags recomputed; `NOP` and
/// `HLT` execute without an operand fetch; every other instruction fetches
/// one operand byte (ending the run if that fetch is out of bounds),
/// translates it to a physical address, executes, and — unless execution
/// itself ran out of bounds — recomputes the flags from the accumulator.
pub open spec fn step_spec(s: State) -> State {
    if s.halted || s.out_of_bounds {
        s
    } else if s.pc >= s.memory.len() {
        State { out_of_bounds: true, ..s }
    } else {
        let opcode = s.memory[s.pc];
        let fetched = State { pc: pc_bump(s.pc), ..s };
        match decode(opcode) {
            None => flags_set(State { skipped: count_bump(fetched.skipped), ..fetched }),
            Some(i) => {
                if no_operand_fetch(i) {
                    flags_set(effect(i, 0, fetched))
                } else if fetched.pc >= s.memory.len() {
                    State { out_of_bounds: true, ..fetched }
                } else {
                    let addr = translate(s.memory[fetched.pc]);
                    let resolved = State { pc: pc_bump(fetched.pc), ..fetched };
                    let done = effect(i, addr, resolved);
                    if done.out_of_bounds {
                        done
                    } else {
                        flags_set(done)
                    }
                }
            },
        }
    }
}

/// `n` iterations of `step_spec`.
pub open spec fn steps(s: State, n: nat) -> State
    decreases n,
{
    if n == 0 {
        s
    } else {
        step_spec(steps(s, (n - 1) as nat))
    }
}

impl State {
    /// Well-formedness: the image keeps its 4-byte header, the program
    /// counter stays a physical offset at or past the first cell and within
    /// machine range, both flags agree with the accumulator, and the skip
    /// counter is in range.
    pub open spec fn wf(self) -> bool {
        &&& self.memory.len() >= 4
        &&& 4 <= self.pc <= usize::MAX
        &&& self.zero == (self.ac == 0)
        &&& self.negative == (self.ac >= 128)
        &&& 0 <= self.skipped <= u64::MAX
    }
}

/// Saturating accumulator addition is exactly the minimum of the true sum
/// and 255, for every pair of byte values.
pub proof fn lemma_sat_add_is_min(a: u8, b: u8)
    ensures
        sat_add(a, b) == if a + b <= 255 {
            a + b
        } else {
            255int
        },
{
}

/// Address translation is injective: distinct virtual cell indices map to
/// distinct physical offsets, so together with `translate(v) == 4 + 2 * v`
/// it is a bijection onto the even offsets past the header.
pub proof fn lemma_translate_injective(v1: u8, v2: u8)
    requires
        translate(v1) == translate(v2),
    ensures
        v1 == v2,
{
}

/// One step from a well-formed state is well-formed again; in particular
/// the flags keep agreeing with the accumulator after every instruction.
pub proof fn lemma_step_preserves_wf(s: State)
    requires
        s.wf(),
    ensures
        step_spec(s).wf(),
{
}

/// Every state reachable from a freshly loaded valid image is well-formed.
pub proof fn lemma_reachable_wf(mem: Seq<u8>, n: nat)
    requires
        valid_image(mem),
    ensures
        steps(initial_state(mem), n).wf(),
    decreases n,
{
    if n > 0 {
        lemma_reachable_wf(mem, (n - 1) as nat);
        lemma_step_preserves_wf(steps(initial_state(mem), (n - 1) as nat));
    }
}

/// In every reachable state the zero flag is set exactly when the
/// accumulator is zero.
pub proof fn lemma_zero_flag_reachable(mem: Seq<u8>, n: nat)
    requires
        valid_image(mem),
    ensures
        steps(initial_state(mem), n).zero == (steps(initial_state(mem), n).ac == 0),
{
    lemma_reachable_wf(mem, n);
}

/// In every reachable state the negative flag is set exactly when the
/// accumulator's sign bit is, that is, when its value is at least 128.
pub proof fn lemma_negative_flag_reachable(mem: Seq<u8>, n: nat)
    requires
        valid_image(mem),
    ensures
        steps(initial_state(mem), n).negative == (steps(initial_state(mem), n).ac >= 128),
{
    lemma_reachable_wf(mem, n);
}

/// A halted state is a fixed point of the transition function: stepping an
/// already-halted machine changes nothing observable.
pub proof fn lemma_step_halted_identity(s: State)
    requires
        s.halted,
    ensures
        step_spec(s) == s,
{
}

/// Fetching `HLT` halts the machine at once: the program counter advances by
/// exactly the one opcode fetch (no operand read follows), and nothing else
/// — accumulator, memory, flags, skip count — changes.
pub proof fn lemma_hlt_halts_immediately(s: State)
    requires
        !s.halted,
        !s.out_of_bounds,
        0 <= s.pc < s.memory.len(),
        s.memory[s.pc] == 0xf0,
    ensures
        step_spec(s) == (State { pc: pc_bump(s.pc), halted: true, zero: s.ac == 0, negative: s.ac >= 128, ..s }),
{
}

} // verus!

//! The execution engine: loader, program counter, and the
//! fetch-decode-execute cycle, each proved against the model in `state`.

use vstd::prelude::*;

use crate::instr::{decode_byte, Instruction};
use crate::state::{
    effect, flags_set, initial_state, pc_bump, step_spec, steps, valid_image, State,
};

verus! {

/// The load-time failure: the buffer did not begin with the magic header.
#[derive(Debug, PartialEq, Eq, Structural)]
pub struct ErrorInvalidFormat;

/// The program counter: a physical byte offset into the memory image.
/// It starts at offset 4 (the first cell past the header) and moves in
/// whole-cell strides of 2, except when a jump lands it on a translated
/// operand address — which is again of the form `4 + 2 * k`.
pub struct ProgramCounter(usize);

impl View for ProgramCounter {
    type V = int;

    closed spec fn view(&self) -> int {
        self.0 as int
    }
}

impl ProgramCounter {
    /// Advance one cell (two bytes), saturating at the top of `usize`.
    fn increment(&mut self)
        ensures
            final(self)@ == pc_bump(old(self)@),
    {
        self.0 = self.0.saturating_add(2);
    }

    /// The physical byte offset this counter holds.
    pub fn pos(&self) -> (r: usize)
        ensures
            r == self@,
    {
        self.0
    }

    /// The virtual cell index this counter points at: `(offset - 4) / 2`,
    /// clamped at 0 below the first cell.
    pub fn address(&self) -> (r: usize)
        ensures
            r == (if self@ >= 4 {
                (self@ - 4) / 2
            } else {
                0int
            }),
    {
        self.0.saturating_sub(4) / 2
    }
}

/// Translate a one-byte virtual cell index into the physical byte offset
/// `4 + 2 * v`. Total on all 256 indices; bounds against the buffer are the
/// caller's concern.
pub fn translate(v: u8) -> (r: usize)
    ensures
        r == crate::state::translate(v),
{
    (v as usize) * 2 + 4
}

/// The machine: a loaded memory image plus all execution state.
pub struct Interpreter {
    ac: u8,
    pc: ProgramCounter,
    memory: Vec<u8>,
    zero: bool,
    negative: bool,
    exit: bool,
    out_of_bounds: bool,
    skipped: u64,
}

impl View for Interpreter {
    type V = State;

    closed spec fn view(&self) -> State {
        State {
            ac: self.ac,
            pc: self.pc.0 as int,
            memory: self.memory@,
            zero: self.zero,
            negative: self.negative,
            halted: self.exit,
            out_of_bounds: self.out_of_bounds,
            skipped: self.skipped as int,
        }
    }
}

impl Interpreter {
    /// The machine is well-formed exactly when its abstract state is.
    pub open spec fn wf(&self) -> bool {
        self@.wf()
    }

    /// Load a raw memory image. Succeeds if and only if the buffer begins
    /// with the 4-byte magic header `[0x03, 'N', 'D', 'R']`; on success the
    /// machine starts in the initial state over the full buffer (header
    /// included, as the baseline of the address arithmetic), and any other
    /// prefix yields `ErrorInvalidFormat` and no machine at all.
    pub fn new(buffer: Vec<u8>) -> (r: Result<Interpreter, ErrorInvalidFormat>)
        ensures
            r is Ok <==> valid_image(buffer@),
            r matches Ok(i) ==> i@ == initial_state(buffer@) && i.wf(),
    {
        if buffer.len() >= 4 && buffer[0] == 0x03 && buffer[1] == 0x4e && buffer[2] == 0x44
            && buffer[3] == 0x52 {
            Ok(
                Interpreter {
                    ac: 0,
                    pc: ProgramCounter(4),
                    memory: buffer,
                    zero: true,
                    negative: false,
                    exit: false,
                    out_of_bounds: false,
                    skipped: 0,
                },
            )
        } else {
            Err(ErrorInvalidFormat)
        }
    }

    /// Read the byte under the program counter and advance one cell.
    fn fetch(&mut self) -> (val: u8)
        requires
            0 <= old(self)@.pc < old(self)@.memory.len(),
        ensures
            val == old(self)@.memory[old(self)@.pc],
            final(self)@ == (State { pc: pc_bump(old(self)@.pc), ..old(self)@ }),
    {
        let val = self.memory[self.pc.pos()];
        self.pc.increment();
        val
    }

    /// Read the operand byte under the program counter, translate it to a
    /// physical address, and advance one cell.
    fn get_next_address(&mut self) -> (addr: usize)
        requires
            0 <= old(self)@.pc < old(self)@.memory.len(),
        ensures
            addr == crate::state::translate(old(self)@.memory[old(self)@.pc]),
            final(self)@ == (State { pc: pc_bump(old(self)@.pc), ..old(self)@ }),
    {
        let address = translate(self.memory[self.pc.pos()]);
        self.pc.increment();
        address
    }

    /// Recompute both status flags from the accumulator.
    fn check_flags(&mut self)
        ensures
            final(self)@ == flags_set(old(self)@),
    {
        if self.ac == 0 {
            self.zero = true;
        } else {
            self.zero = false;
        }
        if self.ac >= 128 {
            self.negative = true;
        } else {
            self.negative = false;
        }
    }

    /// Apply one decoded instruction at the given physical operand address,
    /// exactly as the model's `effect` says.
    fn execute(&mut self, i: Instruction, address: usize)
        ensures
            final(self)@ == effect(i, address as int, old(self)@),
    {
        match i {
            Instruction::Nop => {},
            Instruction::Hlt => {
                self.exit = true;
            },
            Instruction::Not => {
                self.ac = !self.ac;
            },
            Instruction::Jmp => {
                self.pc.0 = address;
            },
            Instruction::Jn => {
                if self.negative {
                    self.pc.0 = address;
                }
            },
            Instruction::Jz => {
                if self.zero {
                    self.pc.0 = address;
                }
            },
            Instruction::Sta => {
                if address < self.memory.len() {
                    self.memory.set(address, self.ac);
                } else {
                    self.out_of_bounds = true;
                }
            },
            Instruction::Lda => {
                if address < self.memory.len() {
                    self.ac = self.memory[address];
                } else {
                    self.out_of_bounds = true;
                }
            },
            Instruction::Add => {
                if address < self.memory.len() {
                    self.ac = self.ac.saturating_add(self.memory[address]);
                } else {
                    self.out_of_bounds = true;
                }
            },
            Instruction::Or => {
                if address < self.memory.len() {
                    self.ac = self.memory[address] | self.ac;
                } else {
                    self.out_of_bounds = true;
                }
            },
            Instruction::And => {
                if address < self.memory.len() {
                    self.ac = self.memory[address] & self.ac;
                } else {
                    self.out_of_bounds = true;
                }
            },
        }
    }

    /// Execute exactly one instruction: one application of the model's
    /// transition function. A halted or out-of-bounds machine is left
    /// untouched.
    pub fn step(&mut self)
        requires
            old(self).wf(),
        ensures
            final(self).wf(),
            final(self)@ == step_spec(old(self)@),
    {
        proof {
            crate::state::lemma_step_preserves_wf(old(self)@);
        }
        if self.exit || self.out_of_bounds {
            return;
        }
        if self.pc.pos() >= self.memory.len() {
            self.out_of_bounds = true;
            return;
        }
        let opcode = self.fetch();
        match decode_byte(opcode) {
            None => {
                self.skipped = self.skipped.saturating_add(1);
                self.check_flags();
            },
            Some(i) => {
                if i == Instruction::Nop || i == Instruction::Hlt {
                    self.execute(i, 0);
                    self.check_flags();
                } else {
                    if self.pc.pos() >= self.memory.len() {
                        self.out_of_bounds = true;
                        return;
                    }
                    let address = self.get_next_address();
                    self.execute(i, address);
                    if !self.out_of_bounds {
                        self.check_flags();
                    }
                }
            },
        }
    }

    /// Run the machine towards its halt: step repeatedly until it halts,
    /// runs out of bounds, or `max_steps` instructions have been executed.
    /// Returns whether the run is over — true exactly when the machine
    /// ended in a terminal state (halted or out of bounds) rather than by
    /// exhausting the step budget. (A program that jumps in a cycle never
    /// reaches a terminal state; the budget keeps this call from looping
    /// forever with it.)
    ///
    /// The final state is some number `n <= max_steps` of transition steps
    /// from the starting one, and when the budget was not the cause of the
    /// stop, that state is terminal.
    pub fn process(&mut self, max_steps: u64) -> (done: bool)
        requires
            old(self).wf(),
        ensures
            final(self).wf(),
            done == (final(self)@.halted || final(self)@.out_of_bounds),
            exists|n: nat|
                n <= max_steps && final(self)@ == steps(old(self)@, n) && (done || n
                    == max_steps) && (forall|m: nat|
                    m < n ==> !(steps(old(self)@, m).halted || steps(
                        old(self)@,
                        m,
                    ).out_of_bounds)),
    {
        let mut executed: u64 = 0;
        proof {
            assert(self@ == steps(old(self)@, 0));
        }
        while !self.exit && !self.out_of_bounds && executed < max_steps
            invariant
                self.wf(),
                executed <= max_steps,
                self@ == steps(old(self)@, executed as nat),
                forall|m: nat|
                    m < executed ==> !(steps(old(self)@, m).halted || steps(
                        old(self)@,
                        m,
                    ).out_of_bounds),
            decreases max_steps - executed,
        {
            let ghost before = executed as nat;
            let ghost prev = self@;
            proof {
                assert(prev == steps(old(self)@, before));
                assert(!prev.halted && !prev.out_of_bounds);
            }
            self.step();
            executed = executed + 1;
            proof {
                assert(steps(old(self)@, executed as nat) == step_spec(
                    steps(old(self)@, before),
                ));
                assert(forall|m: nat|
                    m < executed ==> !(steps(old(self)@, m).halted || steps(
                        old(self)@,
                        m,
                    ).out_of_bounds)) by {
                    assert(!(steps(old(self)@, before).halted || steps(
                        old(self)@,
                        before,
                    ).out_of_bounds));
                }
            }
        }
        self.exit || self.out_of_bounds
    }

    /// The accumulator's current value.
    pub fn ac(&self) -> (r: u8)
        ensures
            r == self@.ac,
    {
        self.ac
    }

    /// The zero flag.
    pub fn zero(&self) -> (r: bool)
        ensures
            r == self@.zero,
    {
        self.zero
    }

    /// The negative flag.
    pub fn negative(&self) -> (r: bool)
        ensures
            r == self@.negative,
    {
        self.negative
    }

    /// Whether the machine has executed `HLT`.
    pub fn halted(&self) -> (r: bool)
        ensures
            r == self@.halted,
    {
        self.exit
    }

    /// Whether the run ended by stepping or reaching past the end of the
    /// memory image — the run boundary distinct from an explicit halt.
    pub fn out_of_bounds(&self) -> (r: bool)
        ensures
            r == self@.out_of_bounds,
    {
        self.out_of_bounds
    }

    /// How many unrecognised opcode bytes the engine has skipped over.
    pub fn skipped(&self) -> (r: u64)
        ensures
            r == self@.skipped,
    {
        self.skipped
    }

    /// The physical byte offset the program counter holds.
    pub fn pc_pos(&self) -> (r: usize)
        ensures
            r == self@.pc,
    {
        self.pc.pos()
    }

    /// The virtual cell index the program counter points at.
    pub fn pc_address(&self) -> (r: usize)
        ensures
            r == (if self@.pc >= 4 {
                (self@.pc - 4) / 2
            } else {
                0int
            }),
    {
        self.pc.address()
    }

    /// The raw memory image, header included.
    pub fn memory(&self) -> (r: &Vec<u8>)
        ensures
            r@ == self@.memory,
    {
        &self.memory
    }
}

} // verus!

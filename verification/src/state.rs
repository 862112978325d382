//! The machine as a mathematical object: its state, and what one operation
//! and one step make of it.

use vstd::prelude::*;
use crate::decoder::{decode, lemma_decode_advances, DecodeError, DecodeResult};
use crate::instructions::{Instr, ISA};
use crate::memory::{MemError, Memory};
use crate::tryte::Tryte;
use crate::word::Word;

verus! {

/// Why the machine stopped without being told to.
#[derive(Clone, Copy, Debug, PartialEq, Eq, Structural)]
pub enum CpuError {
    /// The program could not be decoded.
    Decode(DecodeError),
    /// The operation found too few entries on the stack it pops.
    StackUnderflow(Instr),
    /// The store refused the access that the operation made.
    Memory(Instr, MemError),
    /// The operation is decoded but has no meaning yet.
    Unimplemented(Instr),
}

/// What an operation that succeeded asks of the machine.
#[derive(Clone, Copy, Debug, PartialEq, Eq, Structural)]
pub enum Flow {
    /// Go on with the next operation.
    Continue,
    /// Stop: the program has ended.
    Halt,
}

/// How a step that succeeded ended, with the number of operations executed
/// since the count was last set.
#[derive(Clone, Copy, Debug, PartialEq, Eq, Structural)]
pub enum Step {
    /// Both operations are done and the machine can take another step.
    Running(usize),
    /// The program has ended.
    Halted(usize),
}

/// The state of a machine: its store, its registers and its two stacks.
/// The top of a stack is the last entry of its sequence.
pub struct CpuState<M> {
    pub isa: ISA,
    pub pc: i32,
    pub mem: M,
    pub estack: Seq<Tryte>,
    pub cstack: Seq<i32>,
    pub cy: usize,
}

/// Whether the operation is decoded but has no meaning yet.
pub open spec fn is_unimplemented(op: Instr) -> bool {
    op is MAX || op is INC || op is IST || op is ISU || op is SHL || op is SHR
}

/// Whether the operation is one of the three conditional branches.
pub open spec fn is_branch(op: Instr) -> bool {
    op is BZ || op is BPL || op is BMI
}

/// Whether a branch is taken on a condition that stands for `condition`.
pub open spec fn branch_taken(op: Instr, condition: int) -> bool {
    match op {
        Instr::BZ => condition == 0,
        Instr::BPL => condition > 0,
        Instr::BMI => condition < 0,
        _ => false,
    }
}

/// How many entries of the evaluation stack the operation takes off. `DUP`
/// counts as taking one off and putting two on.
pub open spec fn stack_pops(op: Instr) -> nat {
    match op {
        Instr::DROP | Instr::DUP | Instr::NEG => 1,
        Instr::SWAP | Instr::ADD | Instr::LOAD | Instr::JMP | Instr::CALL => 2,
        Instr::BZ | Instr::BPL | Instr::BMI => 2,
        Instr::ROT | Instr::STOR => 3,
        Instr::NOP | Instr::LIT(_) | Instr::WORD(_) | Instr::RET | Instr::IRQ => 0,
        Instr::MAX | Instr::INC | Instr::IST | Instr::ISU | Instr::SHL | Instr::SHR => 0,
    }
}

/// How many entries the operation puts on the evaluation stack.
pub open spec fn stack_pushes(op: Instr) -> nat {
    match op {
        Instr::LIT(_) | Instr::NEG | Instr::ADD | Instr::LOAD => 1,
        Instr::WORD(_) | Instr::SWAP | Instr::DUP => 2,
        Instr::ROT => 3,
        Instr::NOP | Instr::DROP | Instr::STOR | Instr::IRQ => 0,
        Instr::JMP | Instr::CALL | Instr::RET | Instr::BZ | Instr::BPL | Instr::BMI => 0,
        Instr::MAX | Instr::INC | Instr::IST | Instr::ISU | Instr::SHL | Instr::SHR => 0,
    }
}

/// By how much a sequence of operations that all succeed changes the depth
/// of the evaluation stack: the sum of what each puts on, less what each
/// takes off.
pub open spec fn net_effect(ops: Seq<Instr>) -> int
    decreases ops.len(),
{
    if ops.len() == 0 {
        0
    } else {
        stack_pushes(ops.first()) - stack_pops(ops.first()) + net_effect(ops.drop_first())
    }
}

impl<M: Memory> CpuState<M> {
    /// The entry of the evaluation stack that lies `below` places under the top.
    pub open spec fn peek(self, below: int) -> Tryte {
        self.estack[self.estack.len() - 1 - below]
    }

    /// The state with `count` entries taken off the evaluation stack.
    pub open spec fn popped(self, count: int) -> Self {
        CpuState { estack: self.estack.take(self.estack.len() - count), ..self }
    }

    /// The state with `tryte` put on the evaluation stack.
    pub open spec fn pushed(self, tryte: Tryte) -> Self {
        CpuState { estack: self.estack.push(tryte), ..self }
    }

    /// The state with the program counter at `pc`.
    pub open spec fn jumped(self, pc: int) -> Self {
        CpuState { pc: pc as i32, ..self }
    }

    /// The address that the two topmost entries of the evaluation stack
    /// spell: the low tryte on top, the high tryte under it.
    pub open spec fn address(self) -> int {
        (Word { hi: self.peek(1), lo: self.peek(0) }).value()
    }

    /// What the operation makes of a state that holds the entries it pops.
    /// An operation without meaning fails and leaves the state as it was.
    pub open spec fn effect(self, op: Instr) -> (Self, Result<Flow, CpuError>) {
        match op {
            Instr::IRQ => (self, Ok(Flow::Halt)),
            Instr::NOP => (self, Ok(Flow::Continue)),
            Instr::LIT(tryte) => (self.pushed(tryte), Ok(Flow::Continue)),
            Instr::WORD(word) => (self.pushed(word.hi).pushed(word.lo), Ok(Flow::Continue)),
            Instr::DROP => (self.popped(1), Ok(Flow::Continue)),
            Instr::DUP => (self.pushed(self.peek(0)), Ok(Flow::Continue)),
            Instr::SWAP => (
                self.popped(2).pushed(self.peek(0)).pushed(self.peek(1)),
                Ok(Flow::Continue),
            ),
            Instr::ROT => (
                self.popped(3).pushed(self.peek(1)).pushed(self.peek(2)).pushed(self.peek(0)),
                Ok(Flow::Continue),
            ),
            Instr::ADD => (
                self.popped(2).pushed(Tryte::of_int(self.peek(0).value() + self.peek(1).value())),
                Ok(Flow::Continue),
            ),
            Instr::NEG => (
                self.popped(1).pushed(Tryte::of_int(-self.peek(0).value())),
                Ok(Flow::Continue),
            ),
            Instr::LOAD => match self.mem.load_spec(self.address() as i32) {
                Ok(tryte) => (self.popped(2).pushed(tryte), Ok(Flow::Continue)),
                Err(err) => (self, Err(CpuError::Memory(op, err))),
            },
            Instr::STOR => {
                let written = CpuState {
                    mem: self.mem.after_store(self.address() as i32, self.peek(2)),
                    ..self
                };
                match self.mem.store_spec(self.address() as i32, self.peek(2)) {
                    Ok(()) => (written.popped(3), Ok(Flow::Continue)),
                    Err(err) => (written, Err(CpuError::Memory(op, err))),
                }
            },
            Instr::JMP => (self.popped(2).jumped(self.address()), Ok(Flow::Continue)),
            Instr::CALL => (
                CpuState { cstack: self.cstack.push(self.pc), ..self.popped(2) }.jumped(
                    self.address(),
                ),
                Ok(Flow::Continue),
            ),
            Instr::RET => (
                CpuState { cstack: self.cstack.drop_last(), ..self }.jumped(
                    self.cstack.last() as int,
                ),
                Ok(Flow::Continue),
            ),
            Instr::BZ | Instr::BPL | Instr::BMI => (
                if branch_taken(op, self.peek(1).value()) {
                    self.popped(2).jumped(self.pc + self.peek(0).value())
                } else {
                    self.popped(2)
                },
                Ok(Flow::Continue),
            ),
            Instr::MAX | Instr::INC | Instr::IST | Instr::ISU | Instr::SHL | Instr::SHR => (
                self,
                Err(CpuError::Unimplemented(op)),
            ),
        }
    }

    /// What the operation makes of the state, and what it answers.
    ///
    /// An operation that finds too few entries on the stack it pops fails
    /// and leaves the state as it was. So do an operation without meaning
    /// and a `LOAD` that the store refuses. After a `STOR` that the store
    /// refuses, the store is as the refused write left it, and the rest is
    /// as it was.
    pub open spec fn execute(self, op: Instr) -> (Self, Result<Flow, CpuError>) {
        if self.estack.len() < stack_pops(op) || (op is RET && self.cstack.len() == 0) {
            (self, Err(CpuError::StackUnderflow(op)))
        } else {
            self.effect(op)
        }
    }

    /// What a sequence of operations makes of the state, executed in order
    /// up to the first that fails or halts the machine.
    pub open spec fn run(self, ops: Seq<Instr>) -> (Self, Result<Flow, CpuError>)
        decreases ops.len(),
    {
        if ops.len() == 0 {
            (self, Ok(Flow::Continue))
        } else {
            let (next, flow) = self.execute(ops.first());
            if flow == Ok::<Flow, CpuError>(Flow::Continue) {
                next.run(ops.drop_first())
            } else {
                (next, flow)
            }
        }
    }

    /// The state with one more operation counted.
    pub open spec fn counted(self) -> Self {
        CpuState { cy: (self.cy + 1) as usize, ..self }
    }

    /// What one step makes of the state, and what it answers.
    ///
    /// A step decodes two operations at the program counter. If that fails,
    /// the state stays as it was. Otherwise the program counter moves past
    /// what was decoded, and the operations are counted and executed in
    /// turn, until one fails or halts the machine.
    pub open spec fn step(self) -> (Self, Result<Step, CpuError>) {
        let (decoded, next) = decode(&self.mem, self.pc);
        match decoded {
            Err(err) => (self, Err(CpuError::Decode(err))),
            Ok(DecodeResult(first, second)) => {
                let (after_first, flow) = self.jumped(next).counted().execute(first);
                match flow {
                    Err(err) => (after_first, Err(err)),
                    Ok(Flow::Halt) => (after_first, Ok(Step::Halted(after_first.cy))),
                    Ok(Flow::Continue) => {
                        let (after_second, flow) = after_first.counted().execute(second);
                        match flow {
                            Err(err) => (after_second, Err(err)),
                            Ok(Flow::Halt) => (after_second, Ok(Step::Halted(after_second.cy))),
                            Ok(Flow::Continue) => (
                                after_second,
                                Ok(Step::Running(after_second.cy)),
                            ),
                        }
                    },
                }
            },
        }
    }

    /// Whether the program counter leaves room for a branch in either
    /// direction: a branch moves it by 364 at most.
    pub open spec fn can_branch(self) -> bool {
        i32::MIN + 364 <= self.pc <= i32::MAX - 364
    }

    /// Whether the registers leave room for one step: three trytes decoded,
    /// a branch, and two operations counted.
    pub open spec fn can_step(self) -> bool {
        &&& i32::MIN + 364 <= self.pc
        &&& self.pc + 3 <= i32::MAX - 364
        &&& self.cy + 2 <= usize::MAX
    }
}

/// An operation that can stand first in what is decoded leaves the program
/// counter where it is.
pub proof fn lemma_first_keeps_pc<M: Memory>(state: CpuState<M>, mem: &M, pc: i32)
    ensures
        decode(mem, pc).0 matches Ok(DecodeResult(first, _)) ==> state.execute(first).0.pc
            == state.pc,
{
    lemma_decode_advances(mem, pc);
}

} // verus!

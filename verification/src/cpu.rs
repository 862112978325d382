//! The execution engine: a program counter, an evaluation stack, a call
//! stack and a cycle counter over a store.

use vstd::prelude::*;
use crate::decoder::{decode_instruction, lemma_decode_advances, DecodeResult};
use crate::instructions::{Instr, ISA};
use crate::memory::Memory;
use crate::state::{is_branch, lemma_first_keeps_pc, CpuError, CpuState, Flow, Step};
use crate::tryte::{lemma_tryte_value_range, Tryte};
use crate::word::Word;

verus! {

/// A machine over the store `M`.
pub struct Cpu<M> {
    isa: ISA,
    pc: i32,
    mem: M,
    estack: Vec<Tryte>,
    cstack: Vec<i32>,
    cy: usize,
}

impl<M> View for Cpu<M> {
    type V = CpuState<M>;

    closed spec fn view(&self) -> CpuState<M> {
        CpuState {
            isa: self.isa,
            pc: self.pc,
            mem: self.mem,
            estack: self.estack@,
            cstack: self.cstack@,
            cy: self.cy,
        }
    }
}

impl<M: Memory> Cpu<M> {
    /// Takes the top entry off.
    fn drop_t(&mut self) -> (res: Result<Flow, CpuError>)
        ensures
            (final(self)@, res) == old(self)@.execute(Instr::DROP),
    {
        if self.estack.len() < 1 {
            return Err(CpuError::StackUnderflow(Instr::DROP));
        }
        self.pop();
        Ok(Flow::Continue)
    }

    /// Puts a copy of the top entry on.
    fn dup_t(&mut self) -> (res: Result<Flow, CpuError>)
        ensures
            (final(self)@, res) == old(self)@.execute(Instr::DUP),
    {
        if self.estack.len() < 1 {
            return Err(CpuError::StackUnderflow(Instr::DUP));
        }
        let val = self.estack[self.estack.len() - 1];
        self.estack.push(val);
        Ok(Flow::Continue)
    }

    /// Exchanges the two entries on top.
    fn swap_t(&mut self) -> (res: Result<Flow, CpuError>)
        ensures
            (final(self)@, res) == old(self)@.execute(Instr::SWAP),
    {
        if self.estack.len() < 2 {
            return Err(CpuError::StackUnderflow(Instr::SWAP));
        }
        let (val1, val2) = self.pop2();
        self.estack.push(val1);
        self.estack.push(val2);
        Ok(Flow::Continue)
    }

    /// Exchanges the two entries under the top one.
    fn rot_t(&mut self) -> (res: Result<Flow, CpuError>)
        ensures
            (final(self)@, res) == old(self)@.execute(Instr::ROT),
    {
        if self.estack.len() < 3 {
            return Err(CpuError::StackUnderflow(Instr::ROT));
        }
        let (c, b, a) = self.pop3();
        self.estack.push(b);
        self.estack.push(a);
        self.estack.push(c);
        Ok(Flow::Continue)
    }

    /// Replaces the two entries on top by their sum.
    fn add_t(&mut self) -> (res: Result<Flow, CpuError>)
        ensures
            (final(self)@, res) == old(self)@.execute(Instr::ADD),
    {
        if self.estack.len() < 2 {
            return Err(CpuError::StackUnderflow(Instr::ADD));
        }
        let (val1, val2) = self.pop2();
        let (result, _carry) = Tryte::add(&val1, &val2);
        self.estack.push(result);
        Ok(Flow::Continue)
    }

    /// Replaces the top entry by its negation.
    fn neg_t(&mut self) -> (res: Result<Flow, CpuError>)
        ensures
            (final(self)@, res) == old(self)@.execute(Instr::NEG),
    {
        if self.estack.len() < 1 {
            return Err(CpuError::StackUnderflow(Instr::NEG));
        }
        let val = self.pop();
        proof {
            lemma_tryte_value_range(val);
        }
        let result = Tryte::from_integer(-val.to_integer());
        self.estack.push(result);
        Ok(Flow::Continue)
    }

    /// Reads the address that the two topmost entries spell, and leaves them
    /// where they are.
    fn peek_address(&self) -> (addr: i32)
        requires
            self@.estack.len() >= 2,
        ensures
            addr == self@.address(),
    {
        let lo = self.estack[self.estack.len() - 1];
        let hi = self.estack[self.estack.len() - 2];
        Word::from_trytes(hi, lo).to_integer()
    }

    /// Reads the tryte at the address that the two entries on top spell, and
    /// puts it in their place.
    fn load_abs_t(&mut self) -> (res: Result<Flow, CpuError>)
        ensures
            (final(self)@, res) == old(self)@.execute(Instr::LOAD),
    {
        if self.estack.len() < 2 {
            return Err(CpuError::StackUnderflow(Instr::LOAD));
        }
        let addr = self.peek_address();
        match self.mem.load_tryte(addr) {
            Ok(val) => {
                self.pop2();
                self.estack.push(val);
                Ok(Flow::Continue)
            },
            Err(err) => Err(CpuError::Memory(Instr::LOAD, err)),
        }
    }

    /// Writes the third entry from the top at the address that the two
    /// entries on top spell, and takes all three off.
    fn store_abs_t(&mut self) -> (res: Result<Flow, CpuError>)
        ensures
            (final(self)@, res) == old(self)@.execute(Instr::STOR),
    {
        if self.estack.len() < 3 {
            return Err(CpuError::StackUnderflow(Instr::STOR));
        }
        let addr = self.peek_address();
        let val = self.estack[self.estack.len() - 3];
        match self.mem.store_tryte(addr, val) {
            Ok(()) => {
                self.pop3();
                Ok(Flow::Continue)
            },
            Err(err) => Err(CpuError::Memory(Instr::STOR, err)),
        }
    }

    /// Pops two trytes and jumps to the address they spell.
    fn jmp_abs(&mut self) -> (res: Result<Flow, CpuError>)
        ensures
            (final(self)@, res) == old(self)@.execute(Instr::JMP),
    {
        if self.estack.len() < 2 {
            return Err(CpuError::StackUnderflow(Instr::JMP));
        }
        let (lo, hi) = self.pop2();
        let addr = Word::from_trytes(hi, lo);
        self.jump(addr.to_integer());
        Ok(Flow::Continue)
    }

    /// Pops two trytes, remembers the program counter on the call stack and
    /// jumps to the address they spell.
    fn jsr_abs(&mut self) -> (res: Result<Flow, CpuError>)
        ensures
            (final(self)@, res) == old(self)@.execute(Instr::CALL),
    {
        if self.estack.len() < 2 {
            return Err(CpuError::StackUnderflow(Instr::CALL));
        }
        let (lo, hi) = self.pop2();
        let addr = Word::from_trytes(hi, lo);
        self.cstack.push(self.pc);
        self.jump(addr.to_integer());
        Ok(Flow::Continue)
    }

    /// Jumps back to where the last call came from.
    fn rts(&mut self) -> (res: Result<Flow, CpuError>)
        ensures
            (final(self)@, res) == old(self)@.execute(Instr::RET),
    {
        match self.cstack.pop() {
            Some(addr) => {
                self.jump(addr);
                Ok(Flow::Continue)
            },
            None => Err(CpuError::StackUnderflow(Instr::RET)),
        }
    }

    /// Pops an offset and a condition, and branches where the condition is zero.
    fn bz_t(&mut self) -> (res: Result<Flow, CpuError>)
        requires
            old(self)@.can_branch(),
        ensures
            (final(self)@, res) == old(self)@.execute(Instr::BZ),
    {
        if self.estack.len() < 2 {
            return Err(CpuError::StackUnderflow(Instr::BZ));
        }
        let (offset, val) = self.pop2();
        if val.to_integer() == 0 {
            self.jump_relative(&offset);
        }
        Ok(Flow::Continue)
    }

    /// Pops an offset and a condition, and branches where the condition is
    /// positive.
    fn bpl_t(&mut self) -> (res: Result<Flow, CpuError>)
        requires
            old(self)@.can_branch(),
        ensures
            (final(self)@, res) == old(self)@.execute(Instr::BPL),
    {
        if self.estack.len() < 2 {
            return Err(CpuError::StackUnderflow(Instr::BPL));
        }
        let (offset, val) = self.pop2();
        if val.to_integer() > 0 {
            self.jump_relative(&offset);
        }
        Ok(Flow::Continue)
    }

    /// Pops an offset and a condition, and branches where the condition is
    /// negative.
    fn bmi_t(&mut self) -> (res: Result<Flow, CpuError>)
        requires
            old(self)@.can_branch(),
        ensures
            (final(self)@, res) == old(self)@.execute(Instr::BMI),
    {
        if self.estack.len() < 2 {
            return Err(CpuError::StackUnderflow(Instr::BMI));
        }
        let (offset, val) = self.pop2();
        if val.to_integer() < 0 {
            self.jump_relative(&offset);
        }
        Ok(Flow::Continue)
    }

    //
    // Helpers
    //
    fn push_tryte(&mut self, tryte: Tryte)
        ensures
            final(self)@ == old(self)@.pushed(tryte),
    {
        self.estack.push(tryte);
    }

    fn push_word(&mut self, word: Word)
        ensures
            final(self)@ == old(self)@.pushed(word.hi).pushed(word.lo),
    {
        self.estack.push(*word.hi_tryte());
        self.estack.push(*word.lo_tryte());
    }

    fn jump(&mut self, addr: i32)
        ensures
            final(self)@ == old(self)@.jumped(addr as int),
    {
        self.pc = addr;
    }

    fn jump_relative(&mut self, offset: &Tryte)
        requires
            old(self)@.can_branch(),
        ensures
            final(self)@ == old(self)@.jumped(old(self)@.pc + offset.value()),
    {
        proof {
            lemma_tryte_value_range(*offset);
        }
        self.pc += offset.to_integer() as i32;
    }

    fn pop(&mut self) -> (tryte: Tryte)
        requires
            old(self)@.estack.len() >= 1,
        ensures
            tryte == old(self)@.peek(0),
            final(self)@ == old(self)@.popped(1),
    {
        let tryte = self.estack.pop().unwrap();
        tryte
    }

    fn pop2(&mut self) -> (trytes: (Tryte, Tryte))
        requires
            old(self)@.estack.len() >= 2,
        ensures
            trytes.0 == old(self)@.peek(0),
            trytes.1 == old(self)@.peek(1),
            final(self)@ == old(self)@.popped(2),
    {
        let t1 = self.pop();
        let t2 = self.pop();
        assert(self@.estack =~= old(self)@.popped(2).estack);
        (t1, t2)
    }

    fn pop3(&mut self) -> (trytes: (Tryte, Tryte, Tryte))
        requires
            old(self)@.estack.len() >= 3,
        ensures
            trytes.0 == old(self)@.peek(0),
            trytes.1 == old(self)@.peek(1),
            trytes.2 == old(self)@.peek(2),
            final(self)@ == old(self)@.popped(3),
    {
        let t1 = self.pop();
        let t2 = self.pop();
        let t3 = self.pop();
        assert(self@.estack =~= old(self)@.popped(3).estack);
        (t1, t2, t3)
    }

    /// Executes one operation.
    ///
    /// Returns whether the machine goes on or halts, or the error that the
    /// operation ran into.
    pub fn execute_op(&mut self, op: Instr) -> (res: Result<Flow, CpuError>)
        requires
            is_branch(op) ==> old(self)@.can_branch(),
        ensures
            (final(self)@, res) == old(self)@.execute(op),
    {
        match op {
            Instr::IRQ => Ok(Flow::Halt),
            Instr::NOP => Ok(Flow::Continue),  // do nothing
            Instr::LIT(tryte) => {
                self.push_tryte(tryte);
                Ok(Flow::Continue)
            },
            Instr::WORD(word) => {
                self.push_word(word);
                Ok(Flow::Continue)
            },
            // Tryte stack management
            Instr::DROP => self.drop_t(),
            Instr::DUP => self.dup_t(),
            Instr::SWAP => self.swap_t(),
            Instr::ROT => self.rot_t(),
            // Arithmetics
            Instr::ADD => self.add_t(),
            Instr::NEG => self.neg_t(),
            // Memory management
            Instr::LOAD => self.load_abs_t(),
            Instr::STOR => self.store_abs_t(),
            // Flow control
            Instr::JMP => self.jmp_abs(),
            Instr::CALL => self.jsr_abs(),
            Instr::RET => self.rts(),
            // Conditional branches
            Instr::BZ => self.bz_t(),
            Instr::BMI => self.bmi_t(),
            Instr::BPL => self.bpl_t(),
            // Unimplemented
            Instr::MAX | Instr::INC | Instr::IST | Instr::ISU | Instr::SHL | Instr::SHR => Err(
                CpuError::Unimplemented(op),
            ),
        }
    }

    /// Takes one step: decodes the two operations at the program counter,
    /// moves the program counter past them, and executes them in turn.
    ///
    /// Returns the count of executed operations, and whether the program
    /// has ended, or the error that stopped the step.
    pub fn step(&mut self) -> (res: Result<Step, CpuError>)
        requires
            old(self)@.can_step(),
        ensures
            (final(self)@, res) == old(self)@.step(),
    {
        let (decode_res, pc) = decode_instruction(&self.isa, &self.mem, self.pc);
        let (first, second) = match decode_res {
            Ok(DecodeResult(fst, snd)) => (fst, snd),
            Err(err) => {
                return Err(CpuError::Decode(err));
            },
        };
        proof {
            lemma_decode_advances(&self.mem, self.pc);
            lemma_first_keeps_pc(self@.jumped(pc as int).counted(), &old(self)@.mem, old(self)@.pc);
        }

        self.pc = pc;

        self.cy += 1;
        match self.execute_op(first) {
            Err(err) => {
                return Err(err);
            },
            Ok(Flow::Halt) => {
                return Ok(Step::Halted(self.cy));
            },
            Ok(Flow::Continue) => {},
        }

        self.cy += 1;
        match self.execute_op(second) {
            Err(err) => {
                return Err(err);
            },
            Ok(Flow::Halt) => {
                return Ok(Step::Halted(self.cy));
            },
            Ok(Flow::Continue) => {},
        }

        Ok(Step::Running(self.cy))
    }

    /// The program counter.
    pub fn pc(&self) -> (pc: i32)
        ensures
            pc == self@.pc,
    {
        self.pc
    }

    /// The count of executed operations.
    pub fn cycle_count(&self) -> (cycles: usize)
        ensures
            cycles == self@.cy,
    {
        self.cy
    }

    /// The evaluation stack, its top last.
    pub fn estack(&self) -> (stack: &Vec<Tryte>)
        ensures
            stack@ == self@.estack,
    {
        &self.estack
    }

    /// The call stack, its top last.
    pub fn cstack(&self) -> (stack: &Vec<i32>)
        ensures
            stack@ == self@.cstack,
    {
        &self.cstack
    }

    /// The store.
    pub fn memory(&self) -> (mem: &M)
        ensures
            *mem == self@.mem,
    {
        &self.mem
    }

    /// Whether the program counter leaves room for a branch.
    pub fn can_branch(&self) -> (room: bool)
        ensures
            room == self@.can_branch(),
    {
        i32::MIN + 364 <= self.pc && self.pc <= i32::MAX - 364
    }

    /// Whether the registers leave room for one step.
    pub fn can_step(&self) -> (room: bool)
        ensures
            room == self@.can_step(),
    {
        i32::MIN + 364 <= self.pc && self.pc <= i32::MAX - 367 && self.cy <= usize::MAX - 2
    }

    /// Sets the count of executed operations.
    pub fn set_cycle_count(&mut self, cycles: usize)
        ensures
            final(self)@ == (CpuState { cy: cycles, ..old(self)@ }),
    {
        self.cy = cycles;
    }

    /// A machine over `mem` that starts at `pc` with empty stacks and no
    /// operation counted.
    pub fn new(isa: ISA, mem: M, pc: i32) -> (cpu: Cpu<M>)
        ensures
            cpu@ == (CpuState {
                isa,
                pc,
                mem,
                estack: Seq::<Tryte>::empty(),
                cstack: Seq::<i32>::empty(),
                cy: 0,
            }),
    {
        Cpu { isa, pc, mem, estack: Vec::new(), cstack: Vec::new(), cy: 0 }
    }
}

} // verus!

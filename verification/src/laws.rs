//! What holds of the decoder and of the machine on every input.

use vstd::prelude::*;
use crate::decoder::{
    decode, lemma_decode_advances, simple_instruction, DecodeError, DecodeResult, LITERAL,
    WORD_LITERAL,
};
use crate::instructions::Instr;
use crate::memory::{MemError, Memory};
use crate::state::{
    branch_taken, is_branch, is_unimplemented, lemma_first_keeps_pc, net_effect, stack_pops,
    stack_pushes, CpuError, CpuState, Flow, Step,
};
use crate::tryte::{
    lemma_of_int_in_range, lemma_of_int_out_of_range, lemma_trybble_code_round_trip,
    lemma_tryte_value_range, trybble_code, trybble_value, Tryte,
};
use crate::word::{lemma_word_value_range, Word};

verus! {

/// The inline literal comes back as it went in. A tryte whose high trybble
/// selects the literal and whose low trybble stands for `value` is decoded
/// and executed in one step, which leaves on top of the evaluation stack
/// the tryte that stands for `value`.
pub proof fn law_inline_literal_round_trip<M: Memory>(state: CpuState<M>, value: int)
    requires
        -13 <= value <= 13,
        state.mem.load_spec(state.pc) == Ok::<Tryte, MemError>(
            Tryte { hi: trybble_code(LITERAL as int), lo: trybble_code(value) },
        ),
    ensures
        state.step().1 is Ok,
        state.step().0.estack == state.estack.push(Tryte::of_int(value)),
        state.step().0.estack.last().value() == value,
        state.can_step() ==> state.step().0.pc == state.pc + 1 && state.step().1 == Ok::<
            Step,
            CpuError,
        >(Step::Running((state.cy + 2) as usize)),
{
    lemma_trybble_code_round_trip(value);
    lemma_of_int_in_range(value);
}

/// The literal in the next tryte comes back as it went in. Where the low
/// trybble selects the literal and the store holds `literal` in the next
/// tryte, the second operation decoded is the push of `literal`; and once
/// the first operation has left the machine running, the step ends with
/// exactly `literal` on top of the evaluation stack.
pub proof fn law_literal_round_trip<M: Memory>(state: CpuState<M>, op: Tryte, literal: Tryte)
    requires
        state.mem.load_spec(state.pc) == Ok::<Tryte, MemError>(op),
        state.mem.load_spec((state.pc + 1) as i32) == Ok::<Tryte, MemError>(literal),
        simple_instruction(trybble_value(op.hi) as i8) is Some,
        trybble_value(op.lo) == LITERAL,
    ensures
        decode(&state.mem, state.pc).0 matches Ok(DecodeResult(_, second)) && second
            == Instr::LIT(literal),
        forall|before: CpuState<M>| #[trigger]
            before.execute(Instr::LIT(literal)) == (
                before.pushed(literal),
                Ok::<Flow, CpuError>(Flow::Continue),
            ),
        state.step().1 is Ok ==> state.step().0.estack.last() == literal,
{
}

/// Every operation that succeeds changes the depth of the evaluation stack
/// by what it puts on less what it takes off. One that fails leaves the
/// evaluation stack as it was.
pub proof fn law_stack_effect<M: Memory>(state: CpuState<M>, op: Instr)
    ensures
        state.execute(op).1 is Ok ==> state.execute(op).0.estack.len() == state.estack.len()
            + stack_pushes(op) - stack_pops(op),
        state.execute(op).1 is Ok ==> state.estack.len() >= stack_pops(op),
        state.execute(op).1 is Err ==> state.execute(op).0.estack == state.estack,
{
}

/// A sequence of operations that all succeed changes the depth of the
/// evaluation stack by the sum of what each puts on less what each takes
/// off.
pub proof fn law_stack_discipline<M: Memory>(state: CpuState<M>, ops: Seq<Instr>)
    requires
        state.run(ops).1 is Ok,
        forall|i: int| 0 <= i < ops.len() ==> !(#[trigger] ops[i] is IRQ),
    ensures
        state.run(ops).0.estack.len() == state.estack.len() + net_effect(ops),
    decreases ops.len(),
{
    if ops.len() > 0 {
        law_stack_effect(state, ops.first());
        let (next, flow) = state.execute(ops.first());
        assert(!(ops[0] is IRQ));
        assert(flow == Ok::<Flow, CpuError>(Flow::Continue));
        assert forall|i: int| 0 <= i < ops.drop_first().len() implies !(
        #[trigger] ops.drop_first()[i] is IRQ) by {
            assert(ops.drop_first()[i] == ops[i + 1]);
        }
        law_stack_discipline(next, ops.drop_first());
    }
}

/// The four operations that only rearrange the evaluation stack. With `a`,
/// `b` and `c` on top, `c` topmost: `DROP` leaves `a`, `b`; `DUP` leaves
/// `a`, `b`, `c`, `c`; `SWAP` leaves `a`, `c`, `b`; and `ROT` leaves `b`,
/// `a`, `c`. What lies under them, the store, the program counter and the
/// call stack stay as they were.
pub proof fn law_stack_operations<M: Memory>(state: CpuState<M>, a: Tryte, b: Tryte, c: Tryte)
    ensures
        ({
            let full = state.pushed(a).pushed(b).pushed(c);
            &&& full.execute(Instr::DROP) == (
                state.pushed(a).pushed(b),
                Ok::<Flow, CpuError>(Flow::Continue),
            )
            &&& full.execute(Instr::DUP) == (
                state.pushed(a).pushed(b).pushed(c).pushed(c),
                Ok::<Flow, CpuError>(Flow::Continue),
            )
            &&& full.execute(Instr::SWAP) == (
                state.pushed(a).pushed(c).pushed(b),
                Ok::<Flow, CpuError>(Flow::Continue),
            )
            &&& full.execute(Instr::ROT) == (
                state.pushed(b).pushed(a).pushed(c),
                Ok::<Flow, CpuError>(Flow::Continue),
            )
        }),
{
    let full = state.pushed(a).pushed(b).pushed(c);
    assert(full.popped(1).estack =~= state.pushed(a).pushed(b).estack);
    assert(full.popped(2).estack =~= state.pushed(a).estack);
    assert(full.popped(3).estack =~= state.estack);
}

/// `ADD` replaces the two topmost entries by the tryte of their sum. The
/// tryte stands for the sum where the sum lies between -364 and 364. Beyond
/// that it stands for the low trybble of the sum alone: the number between
/// -13 and 13 that differs from the sum by a multiple of 27.
pub proof fn law_add<M: Memory>(state: CpuState<M>)
    requires
        state.estack.len() >= 2,
    ensures
        ({
            let sum = state.peek(0).value() + state.peek(1).value();
            let (after, flow) = state.execute(Instr::ADD);
            &&& flow == Ok::<Flow, CpuError>(Flow::Continue)
            &&& after == state.popped(2).pushed(Tryte::of_int(sum))
            &&& -364 <= sum <= 364 ==> after.peek(0).value() == sum
            &&& (sum < -364 || 364 < sum) ==> -13 <= after.peek(0).value() <= 13 && (sum
                - after.peek(0).value()) % 27 == 0
        }),
{
    let sum = state.peek(0).value() + state.peek(1).value();
    if -364 <= sum <= 364 {
        lemma_of_int_in_range(sum);
    } else {
        lemma_of_int_out_of_range(sum);
    }
}

/// `NEG` replaces the topmost entry by the tryte that stands for its
/// negation, whatever the entry is.
pub proof fn law_neg<M: Memory>(state: CpuState<M>)
    requires
        state.estack.len() >= 1,
    ensures
        ({
            let (after, flow) = state.execute(Instr::NEG);
            &&& flow == Ok::<Flow, CpuError>(Flow::Continue)
            &&& after == state.popped(1).pushed(Tryte::of_int(-state.peek(0).value()))
            &&& after.peek(0).value() == -state.peek(0).value()
        }),
{
    lemma_tryte_value_range(state.peek(0));
    lemma_of_int_in_range(-state.peek(0).value());
}

/// What an operation leaves alone: only `STOR` touches the store, only
/// `CALL` and `RET` touch the call stack, and only they, `JMP` and the
/// branches move the program counter. No operation counts itself.
pub proof fn law_untouched<M: Memory>(state: CpuState<M>, op: Instr)
    ensures
        !(op is STOR) ==> state.execute(op).0.mem == state.mem,
        !(op is CALL || op is RET) ==> state.execute(op).0.cstack == state.cstack,
        !(op is CALL || op is RET || op is JMP || is_branch(op)) ==> state.execute(op).0.pc
            == state.pc,
        state.execute(op).0.cy == state.cy,
        state.execute(op).0.isa == state.isa,
{
}

/// A step counts each operation that it executes, the one that fails or
/// halts the machine too, and nothing where the decoding fails: the count
/// never goes down, and rises by two at most.
pub proof fn law_cycle_count<M: Memory>(state: CpuState<M>)
    requires
        state.can_step(),
    ensures
        state.cy <= state.step().0.cy <= state.cy + 2,
        state.step().1 matches Ok(Step::Running(cycles)) ==> cycles == state.cy + 2,
        state.step().1 matches Ok(Step::Halted(cycles)) ==> cycles == state.step().0.cy,
        state.step().1 matches Err(CpuError::Decode(_)) ==> state.step().0 == state,
{
}

/// An operation that is decoded but has no meaning yet is an error of its
/// own, never a `NOP`: it fails and leaves the state as it was.
pub proof fn law_unimplemented<M: Memory>(state: CpuState<M>, op: Instr)
    requires
        is_unimplemented(op),
    ensures
        state.execute(op) == (state, Err::<Flow, CpuError>(CpuError::Unimplemented(op))),
{
}

/// An operation that finds too few entries on the evaluation stack is a
/// stack underflow and leaves the state as it was.
pub proof fn law_stack_underflow<M: Memory>(state: CpuState<M>, op: Instr)
    requires
        state.estack.len() < stack_pops(op),
    ensures
        state.execute(op) == (state, Err::<Flow, CpuError>(CpuError::StackUnderflow(op))),
{
}

/// `CALL` puts the program counter on the call stack and jumps to the
/// address that the two topmost entries spell; a `RET` that follows jumps
/// back to where the `CALL` was and leaves the call stack as it was before.
pub proof fn law_call_return<M: Memory>(state: CpuState<M>)
    requires
        state.estack.len() >= 2,
    ensures
        ({
            let (called, flow) = state.execute(Instr::CALL);
            let (returned, back) = called.execute(Instr::RET);
            &&& flow == Ok::<Flow, CpuError>(Flow::Continue)
            &&& called.pc == state.address()
            &&& called.cstack == state.cstack.push(state.pc)
            &&& called.estack == state.popped(2).estack
            &&& back == Ok::<Flow, CpuError>(Flow::Continue)
            &&& returned.pc == state.pc
            &&& returned.cstack == state.cstack
            &&& returned.estack == called.estack
        }),
{
    lemma_word_value_range(Word { hi: state.peek(1), lo: state.peek(0) });
    let (called, flow) = state.execute(Instr::CALL);
    assert(called.cstack.drop_last() =~= state.cstack);
}

/// `RET` jumps to the topmost entry of the call stack and takes it off,
/// whatever happened since it was put there.
pub proof fn law_return<M: Memory>(state: CpuState<M>)
    requires
        state.cstack.len() >= 1,
    ensures
        ({
            let (returned, flow) = state.execute(Instr::RET);
            &&& flow == Ok::<Flow, CpuError>(Flow::Continue)
            &&& returned.pc == state.cstack.last()
            &&& returned.cstack == state.cstack.drop_last()
            &&& returned.estack == state.estack
        }),
{
}

/// `RET` on an empty call stack is a stack underflow and changes nothing.
pub proof fn law_return_underflow<M: Memory>(state: CpuState<M>)
    requires
        state.cstack.len() == 0,
    ensures
        state.execute(Instr::RET) == (
            state,
            Err::<Flow, CpuError>(CpuError::StackUnderflow(Instr::RET)),
        ),
{
}

/// A conditional branch takes the offset from the top of the evaluation
/// stack and the condition from under it. `BZ` is taken where the condition
/// stands for zero, `BPL` where it stands for a positive number, `BMI`
/// where it stands for a negative one. A branch taken adds the offset to
/// the program counter; one not taken leaves the program counter alone.
pub proof fn law_branch<M: Memory>(state: CpuState<M>, op: Instr)
    requires
        is_branch(op),
        state.estack.len() >= 2,
        state.can_branch(),
    ensures
        ({
            let offset = state.peek(0).value();
            let condition = state.peek(1).value();
            let (after, flow) = state.execute(op);
            &&& flow == Ok::<Flow, CpuError>(Flow::Continue)
            &&& after.estack == state.popped(2).estack
            &&& op is BZ ==> (branch_taken(op, condition) <==> condition == 0)
            &&& op is BPL ==> (branch_taken(op, condition) <==> condition > 0)
            &&& op is BMI ==> (branch_taken(op, condition) <==> condition < 0)
            &&& branch_taken(op, condition) ==> after.pc == state.pc + offset
            &&& !branch_taken(op, condition) ==> after.pc == state.pc
        }),
{
    lemma_tryte_value_range(state.peek(0));
}

/// A branch in a step starts from the position after all that the step
/// decoded, not from where the step began.
pub proof fn law_branch_after_decode<M: Memory>(state: CpuState<M>)
    requires
        state.can_step(),
        state.step().1 is Ok,
        decode(&state.mem, state.pc).0 matches Ok(DecodeResult(_, second)) && is_branch(second),
    ensures
        ({
            let next = decode(&state.mem, state.pc).1;
            let DecodeResult(first, second) = decode(&state.mem, state.pc).0->Ok_0;
            let before = state.jumped(next).counted().execute(first).0;
            let taken = branch_taken(second, before.peek(1).value());
            &&& taken ==> state.step().0.pc == next + before.peek(0).value()
            &&& !taken ==> state.step().0.pc == next
        }),
{
    let next = decode(&state.mem, state.pc).1;
    let DecodeResult(first, second) = decode(&state.mem, state.pc).0->Ok_0;
    let started = state.jumped(next).counted();
    let before = started.execute(first).0.counted();
    lemma_decode_advances(&state.mem, state.pc);
    lemma_first_keeps_pc(started, &state.mem, state.pc);
    law_branch(before, second);
}

/// Decoding moves on by one tryte for each tryte it reads: by one where the
/// second operation has no operand, by two where it is a literal from the
/// next tryte, by three where it is a word.
pub proof fn law_decode_consumption<M: Memory + ?Sized>(mem: &M, pc: i32)
    ensures
        match decode(mem, pc).0 {
            Ok(DecodeResult(_, Instr::LIT(_))) => decode(mem, pc).1 == pc + 2,
            Ok(DecodeResult(_, Instr::WORD(_))) => decode(mem, pc).1 == pc + 3,
            Ok(DecodeResult(_, _)) => decode(mem, pc).1 == pc + 1,
            Err(_) => pc + 1 <= decode(mem, pc).1 <= pc + 3,
        },
{
}

/// A literal or a word in the low trybble takes its operand from the store:
/// the position moves on by two for the literal and by three for the word.
pub proof fn law_operand_consumption<M: Memory + ?Sized>(mem: &M, pc: i32, op: Tryte)
    requires
        mem.load_spec(pc) == Ok::<Tryte, MemError>(op),
        simple_instruction(trybble_value(op.hi) as i8) is Some,
    ensures
        trybble_value(op.lo) == LITERAL ==> decode(mem, pc).1 == pc + 2,
        trybble_value(op.lo) == WORD_LITERAL && decode(mem, pc).0 is Ok ==> decode(mem, pc).1 == pc
            + 3,
{
}

/// A high trybble that selects neither the literal nor an operation is
/// reported with its value and with the position it was read at.
pub proof fn law_illegal_high_trybble<M: Memory + ?Sized>(mem: &M, pc: i32, op: Tryte)
    requires
        mem.load_spec(pc) == Ok::<Tryte, MemError>(op),
        trybble_value(op.hi) != LITERAL,
        simple_instruction(trybble_value(op.hi) as i8) is None,
    ensures
        decode(mem, pc).0 == Err::<DecodeResult, DecodeError>(
            DecodeError::IllegalInstruction { pos: pc, op: trybble_value(op.hi) as i8 },
        ),
{
}

} // verus!

//! The instruction decoder.
//!
//! One tryte of program holds two operations, one in each trybble. The high
//! trybble is decoded first. Where it selects the inline literal, the low
//! trybble is that literal's value and the second operation is `NOP`.
//! Otherwise the low trybble is an operation of its own, which may take one
//! or two more trytes from the store as its operand.

use vstd::prelude::*;
use crate::instructions::{Instr, ISA};
use crate::memory::{MemError, Memory};
use crate::tryte::{i8_trybble_to_bct, trybble_code, trybble_value, Tryte};
use crate::word::Word;

verus! {

/// Why a tryte of program could not be decoded.
#[derive(Clone, Copy, Debug, PartialEq, Eq, Structural)]
pub enum DecodeError {
    /// The trybble `op`, read at `pos`, selects no operation.
    IllegalInstruction { pos: i32, op: i8 },
    /// The store refused a read.
    MemoryError(MemError),
    /// Anything else.
    Unknown,
}

/// The two operations that one decoding step gives.
#[derive(Clone, Copy, Debug, PartialEq, Eq, Structural)]
pub struct DecodeResult(pub Instr, pub Instr);

/// The trybble value that selects the inline literal in the high trybble,
/// and the literal from the next tryte in the low one.
pub const LITERAL: i8 = -12;

/// The trybble value that, in the low trybble, selects the word from the
/// next two trytes.
pub const WORD_LITERAL: i8 = -11;

/// The operation without operand that a trybble value selects in either
/// trybble, if there is one.
pub open spec fn simple_instruction(value: i8) -> Option<Instr> {
    if value == -10 {
        Some(Instr::STOR)
    } else if value == -9 {
        Some(Instr::ISU)
    } else if value == -8 {
        Some(Instr::LOAD)
    } else if value == -7 {
        Some(Instr::INC)
    } else if value == -6 {
        Some(Instr::MAX)
    } else if value == -5 {
        Some(Instr::IST)
    } else if value == -1 {
        Some(Instr::NEG)
    } else if value == 0 {
        Some(Instr::NOP)
    } else if value == 1 {
        Some(Instr::ADD)
    } else if value == 2 {
        Some(Instr::ROT)
    } else if value == 3 {
        Some(Instr::SWAP)
    } else if value == 4 {
        Some(Instr::DUP)
    } else if value == 5 {
        Some(Instr::SHL)
    } else if value == 6 {
        Some(Instr::DROP)
    } else if value == 7 {
        Some(Instr::SHR)
    } else {
        None
    }
}

/// The operation without operand that a trybble value selects in the low
/// trybble only, if there is one.
pub open spec fn control_instruction(value: i8) -> Option<Instr> {
    if value == -13 {
        Some(Instr::IRQ)
    } else if value == 8 {
        Some(Instr::RET)
    } else if value == 9 {
        Some(Instr::JMP)
    } else if value == 10 {
        Some(Instr::CALL)
    } else if value == 11 {
        Some(Instr::BMI)
    } else if value == 12 {
        Some(Instr::BZ)
    } else if value == 13 {
        Some(Instr::BPL)
    } else {
        None
    }
}

/// What a trybble value decodes to where only the operations without operand
/// are left: the operation, or the error of a trybble read at `pos` that
/// selects none.
pub open spec fn simple_or_illegal(value: i8, pos: i32) -> Result<Instr, DecodeError> {
    match simple_instruction(value) {
        Some(instr) => Ok(instr),
        None => Err(DecodeError::IllegalInstruction { pos, op: value }),
    }
}

/// The inline literal: a tryte with a zero high trybble and the low trybble
/// of the tryte being decoded.
pub open spec fn inline_literal(next: i8) -> Tryte {
    Tryte { hi: 0, lo: trybble_code(next as int) }
}

/// What the high trybble `value` of the tryte at `pos` decodes to, where
/// `next` is the value of its low trybble.
pub open spec fn first_instruction(value: i8, next: i8, pos: i32) -> Result<Instr, DecodeError> {
    if value == LITERAL {
        Ok(Instr::LIT(inline_literal(next)))
    } else {
        simple_or_illegal(value, pos)
    }
}

/// How many trytes after the one being decoded the low trybble `value` asks
/// the store for. A word whose first tryte the store refuses asks for one.
pub open spec fn operand_reads<M: Memory + ?Sized>(value: i8, mem: &M, pos: i32) -> int {
    if value == LITERAL {
        1
    } else if value == WORD_LITERAL {
        if mem.load_spec((pos + 1) as i32) is Ok {
            2
        } else {
            1
        }
    } else {
        0
    }
}

/// What the low trybble `value` of the tryte at `pos` decodes to.
pub open spec fn second_instruction<M: Memory + ?Sized>(value: i8, mem: &M, pos: i32) -> Result<
    Instr,
    DecodeError,
> {
    if value == LITERAL {
        match mem.load_spec((pos + 1) as i32) {
            Ok(tryte) => Ok(Instr::LIT(tryte)),
            Err(err) => Err(DecodeError::MemoryError(err)),
        }
    } else if value == WORD_LITERAL {
        match mem.load_spec((pos + 1) as i32) {
            Ok(hi) => match mem.load_spec((pos + 2) as i32) {
                Ok(lo) => Ok(Instr::WORD(Word { hi, lo })),
                Err(err) => Err(DecodeError::MemoryError(err)),
            },
            Err(err) => Err(DecodeError::MemoryError(err)),
        }
    } else {
        match control_instruction(value) {
            Some(instr) => Ok(instr),
            None => simple_or_illegal(value, pos),
        }
    }
}

/// What the tryte `op`, read at `pos`, decodes to, and the position after
/// all that was read for it.
pub open spec fn decode_tryte<M: Memory + ?Sized>(op: Tryte, mem: &M, pos: i32) -> (
    Result<DecodeResult, DecodeError>,
    int,
) {
    let hi = trybble_value(op.hi) as i8;
    let lo = trybble_value(op.lo) as i8;
    match first_instruction(hi, lo, pos) {
        Err(err) => (Err(err), pos + 1),
        Ok(Instr::LIT(tryte)) => (Ok(DecodeResult(Instr::LIT(tryte), Instr::NOP)), pos + 1),
        Ok(first) => (
            match second_instruction(lo, mem, pos) {
                Err(err) => Err(err),
                Ok(second) => Ok(DecodeResult(first, second)),
            },
            pos + operand_reads(lo, mem, pos) + 1,
        ),
    }
}

/// What decoding at `pc` gives: the two operations or the error, and the
/// position after all that was read. A refused read counts as read.
pub open spec fn decode<M: Memory + ?Sized>(mem: &M, pc: i32) -> (
    Result<DecodeResult, DecodeError>,
    int,
) {
    match mem.load_spec(pc) {
        Err(err) => (Err(DecodeError::MemoryError(err)), pc + 1),
        Ok(op) => decode_tryte(op, mem, pc),
    }
}

/// Whether the operation can stand first in what is decoded: an operation
/// that either trybble may hold, or the inline literal.
pub open spec fn fits_first(instr: Instr) -> bool {
    instr is LIT || exists|value: i8| simple_instruction(value) == Some(instr)
}

/// Decoding moves the position on by one to three trytes, and the first
/// operation decoded is one that the high trybble may hold.
pub proof fn lemma_decode_advances<M: Memory + ?Sized>(mem: &M, pc: i32)
    ensures
        pc + 1 <= decode(mem, pc).1 <= pc + 3,
        decode(mem, pc).0 matches Ok(DecodeResult(first, _)) ==> fits_first(first),
{
    if let Ok(op) = mem.load_spec(pc) {
        let hi = trybble_value(op.hi) as i8;
        if hi != LITERAL {
            assert(simple_instruction(hi) is Some ==> fits_first(simple_instruction(hi)->Some_0));
        }
    }
}

/// Decodes a trybble value that is left to the operations without operand.
/// Returns `err` where the value selects none.
pub fn decode_simple_instruction_trybble(value: i8, err: DecodeError) -> (res: Result<
    Instr,
    DecodeError,
>)
    ensures
        res == match simple_instruction(value) {
            Some(instr) => Ok::<Instr, DecodeError>(instr),
            None => Err(err),
        },
{
    match value {
        -10 => Ok(Instr::STOR),
        -9 => Ok(Instr::ISU),
        -8 => Ok(Instr::LOAD),
        -7 => Ok(Instr::INC),
        -6 => Ok(Instr::MAX),
        -5 => Ok(Instr::IST),
        -1 => Ok(Instr::NEG),
        0 => Ok(Instr::NOP),
        1 => Ok(Instr::ADD),
        2 => Ok(Instr::ROT),
        3 => Ok(Instr::SWAP),
        4 => Ok(Instr::DUP),
        5 => Ok(Instr::SHL),
        6 => Ok(Instr::DROP),
        7 => Ok(Instr::SHR),
        _ => Err(err),
    }
}

/// Decodes the high trybble `value` of the tryte at `pc`, whose low trybble
/// has the value `next`.
pub fn decode_first_trybble(value: i8, next: i8, pc: i32) -> (res: Result<Instr, DecodeError>)
    ensures
        res == first_instruction(value, next, pc),
{
    match value {
        // Load immediate trybble
        -12 => Ok(Instr::LIT(Tryte::from_bct_trybbles(0, i8_trybble_to_bct(next)))),
        _ => decode_simple_instruction_trybble(
            value,
            DecodeError::IllegalInstruction { pos: pc, op: value },
        ),
    }
}

/// Decodes the low trybble `value` of the tryte at `pc`, and moves `pc` on
/// to the last tryte that it asked the store for.
pub fn decode_second_trybble<M: Memory + ?Sized>(value: i8, mem: &M, pc: &mut i32) -> (res: Result<
    Instr,
    DecodeError,
>)
    requires
        *old(pc) + 2 <= i32::MAX,
    ensures
        res == second_instruction(value, mem, *old(pc)),
        *final(pc) == *old(pc) + operand_reads(value, mem, *old(pc)),
{
    match value {
        // Load next tryte
        -12 => {
            *pc += 1;
            match mem.load_tryte(*pc) {
                Ok(tryte) => Ok(Instr::LIT(tryte)),
                Err(err) => Err(DecodeError::MemoryError(err)),
            }
        },
        // Load next word
        -11 => {
            *pc += 1;
            match mem.load_tryte(*pc) {
                Ok(hi) => {
                    *pc += 1;
                    match mem.load_tryte(*pc) {
                        Ok(lo) => Ok(Instr::WORD(Word::from_trytes(hi, lo))),
                        Err(err) => Err(DecodeError::MemoryError(err)),
                    }
                },
                Err(err) => Err(DecodeError::MemoryError(err)),
            }
        },
        // Support-only instructions
        -13 => Ok(Instr::IRQ),
        8 => Ok(Instr::RET),
        9 => Ok(Instr::JMP),
        10 => Ok(Instr::CALL),
        11 => Ok(Instr::BMI),
        12 => Ok(Instr::BZ),
        13 => Ok(Instr::BPL),
        _ => decode_simple_instruction_trybble(
            value,
            DecodeError::IllegalInstruction { pos: *pc, op: value },
        ),
    }
}

/// Decodes the two operations held at `pc`.
///
/// Returns them, or the error that stopped the decoding, together with the
/// position after all the trytes that were asked of the store.
pub fn decode_instruction<M: Memory + ?Sized>(_isa: &ISA, mem: &M, pc: i32) -> (res: (
    Result<DecodeResult, DecodeError>,
    i32,
))
    requires
        pc + 3 <= i32::MAX,
    ensures
        res.0 == decode(mem, pc).0,
        res.1 == decode(mem, pc).1,
{
    let mut next_pc = pc;
    let val = mem.load_tryte(next_pc);

    let res = match val {
        Err(err) => Err(DecodeError::MemoryError(err)),
        Ok(op) => {
            match decode_first_trybble(op.hi_value(), op.lo_value(), next_pc) {
                Err(err) => Err(err),
                Ok(Instr::LIT(x)) => Ok(DecodeResult(Instr::LIT(x), Instr::NOP)),
                Ok(first) => {
                    match decode_second_trybble(op.lo_value(), mem, &mut next_pc) {
                        Err(err) => Err(err),
                        Ok(second) => Ok(DecodeResult(first, second)),
                    }
                },
            }
        },
    };
    (res, next_pc + 1)
}

} // verus!

//! The operations of the machine.

use vstd::prelude::*;
use crate::tryte::Tryte;
use crate::word::Word;

verus! {

/// The instruction set architectures that the machine knows.
#[derive(Clone, Copy, Debug, PartialEq, Eq, Structural)]
pub enum ISA {
    /// Six-trit instructions over a ten-trit address space.
    T6010,
}

/// One operation, with its operand where it has one.
#[derive(Clone, Copy, Debug, PartialEq, Eq, Structural)]
pub enum Instr {
    /// Does nothing.
    NOP,
    // Push
    /// Pushes the tryte.
    LIT(Tryte),
    /// Pushes the high tryte of the word, then the low one.
    WORD(Word),
    // Stack operations
    /// Takes the top entry off.
    DROP,
    /// Pushes a copy of the top entry.
    DUP,
    /// Exchanges the two entries on top.
    SWAP,
    /// Exchanges the two entries under the top one.
    ROT,
    // Arithmetics
    /// Replaces the two entries on top by their sum.
    ADD,
    /// Replaces the top entry by its negation.
    NEG,
    // Logical: decoded, without meaning yet
    MAX,
    INC,
    IST,
    ISU,
    SHL,
    SHR,
    // Memory management
    /// Replaces the address on top by the tryte that the store holds there.
    LOAD,
    /// Writes the entry under the address on top to the store at that address.
    STOR,
    // Flow control
    /// Jumps to the address on top.
    JMP,
    /// Jumps to the address on top and remembers where from.
    CALL,
    /// Jumps back to where the last `CALL` came from.
    RET,
    /// Halts the machine.
    IRQ,
    // Conditional branches
    /// Moves the program counter by the offset on top where the condition
    /// under it is zero.
    BZ,
    /// As `BZ`, where the condition is positive.
    BPL,
    /// As `BZ`, where the condition is negative.
    BMI,
}

} // verus!

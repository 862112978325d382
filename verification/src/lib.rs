//! An emulator for a balanced-ternary stack machine: an instruction decoder
//! and a fetch-decode-execute engine over a tryte-addressed memory.

pub mod tryte;
pub mod word;
pub mod memory;
pub mod instructions;
pub mod decoder;
pub mod state;
pub mod cpu;
pub mod laws;
pub mod trace;

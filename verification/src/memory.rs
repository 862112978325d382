//! The addressable store that the machine reads and writes.

use vstd::prelude::*;
use crate::tryte::Tryte;

verus! {

/// Why a store refused an access.
#[derive(Clone, Copy, Debug, PartialEq, Eq, Structural)]
pub enum MemError {
    /// The store does not say why.
    Unknown,
}

/// A store of trytes at integer addresses. The store alone decides which
/// addresses it serves.
///
/// The three spec functions give names to what the store answers, so that
/// contracts can speak of it: a read and a write are functions of the store
/// and their arguments, and nothing else. An implementation that is verified
/// defines them; one that is not leaves them as they are.
pub trait Memory {
    /// What a read at `addr` answers.
    open spec fn load_spec(&self, addr: i32) -> Result<Tryte, MemError> {
        arbitrary()
    }

    /// What a write of `val` at `addr` answers.
    open spec fn store_spec(&self, addr: i32, val: Tryte) -> Result<(), MemError> {
        arbitrary()
    }

    /// The store as a write of `val` at `addr` leaves it.
    open spec fn after_store(&self, addr: i32, val: Tryte) -> Self where Self: Sized {
        arbitrary()
    }

    /// Reads the tryte at `addr`.
    fn load_tryte(&self, addr: i32) -> (res: Result<Tryte, MemError>)
        ensures
            res == self.load_spec(addr),
    ;

    /// Writes `val` at `addr`.
    fn store_tryte(&mut self, addr: i32, val: Tryte) -> (res: Result<(), MemError>) where
        Self: Sized,

        ensures
            res == old(self).store_spec(addr, val),
            *final(self) == old(self).after_store(addr, val),
    ;
}

} // verus!

//! The faults an instruction can raise.

use vstd::prelude::*;

verus! {

/// A condition that ends the current instruction without carrying it out.
///
/// Every fault is reported to the caller; none is recovered from internally
/// and nothing is retried.
#[derive(Clone, Copy, Debug, PartialEq, Eq, Structural)]
pub enum Chip8Error {
    /// A call was made with sixteen return addresses already on the stack.
    StackOverflow,
    /// A return was made with no return address on the stack.
    StackUnderflow,
    /// The fetched word matches no entry of the instruction table.
    UnknownOpcode,
    /// A fetch, sprite read, decimal store, bulk transfer or index increment
    /// would reach beyond the last byte of memory.
    AddressOutOfBounds,
    /// The program image cannot be placed in memory.
    RomLoadFailure,
}

} // verus!

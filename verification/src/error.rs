//! The fatal conditions a machine run can end in. None is recovered
//! internally: every fallible operation surfaces its error unchanged.
use vstd::prelude::*;

verus! {

/// Everything that can abort a cycle or a program load.
#[derive(Clone, Copy, Debug, PartialEq, Eq, Structural)]
pub enum EmulationError {
    /// Decode found no matching opcode pattern; carries the raw 16-bit word.
    UnknownInstruction(u16),
    /// A 0NNN machine-code call other than 00E0/00EE: intentionally unimplemented.
    UnsupportedNativeCall,
    /// A call would push a seventeenth return address.
    StackOverflow,
    /// A return was executed with no call outstanding.
    StackUnderflow,
    /// A memory access outside the 4096-byte space.
    MemoryOutOfBounds,
    /// Load-time only: the program does not fit above the program start.
    ProgramTooLarge,
}

} // verus!

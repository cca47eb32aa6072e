//! A CHIP-8 virtual machine: a 4 KiB memory space, sixteen 8-bit registers,
//! a monochrome 64x32 display, a bounded call stack, two countdown timers and
//! a hexadecimal keypad, driven by a fetch/decode/execute cycle over the
//! classic 35-opcode instruction set.
use vstd::prelude::*;

pub mod display;
pub mod error;
pub mod laws;
pub mod machine;
pub mod memory;
pub mod model;
pub mod ops;
pub mod registers;

verus! {

/// Sum of two machine words; the caller guarantees the sum fits.
pub fn add(left: usize, right: usize) -> (r: usize)
    requires
        left + right <= usize::MAX,
    ensures
        r == left + right,
{
    left + right
}

} // verus!

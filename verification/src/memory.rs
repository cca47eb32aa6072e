//! The 4 KiB address space. Font glyphs live at 0x050, program bytes at
//! 0x200; every access is bounds-checked and an out-of-range access is a
//! fatal error, never wrapped or clamped.
use vstd::prelude::*;

use crate::error::EmulationError;

verus! {

/// Number of addressable bytes.
pub const MEMORY_SIZE: usize = 4096;

/// First byte of the font table.
pub const FONT_START: usize = 0x50;

/// First byte of a loaded program; also the reset program counter.
pub const PROGRAM_START: usize = 0x200;

/// The 4096-byte address space.
#[derive(Debug)]
pub struct Memory {
    raw: Vec<u8>,
}

impl View for Memory {
    type V = Seq<u8>;

    closed spec fn view(&self) -> Seq<u8> {
        self.raw@
    }
}

/// What a fresh space loaded with an optional program and an optional font
/// holds at `addr`: font bytes over 0x050..0x0A0, program bytes from 0x200,
/// zero everywhere else.
pub open spec fn loaded_byte(program: Option<Seq<u8>>, font: Option<Seq<u8>>, addr: int) -> u8 {
    match font {
        Some(f) if FONT_START <= addr < FONT_START + f.len() => f[addr - FONT_START],
        _ => match program {
            Some(p) if PROGRAM_START <= addr < PROGRAM_START + p.len() => p[addr - PROGRAM_START],
            _ => 0u8,
        },
    }
}

impl Memory {
    /// The space is always exactly 4096 bytes.
    pub open spec fn wf(&self) -> bool {
        self@.len() == MEMORY_SIZE
    }

    /// A zero-filled 4096-byte space.
    pub fn new() -> (r: Memory)
        ensures
            r.wf(),
            forall|a: int| 0 <= a < MEMORY_SIZE ==> r@[a] == 0u8,
    {
        let mut raw: Vec<u8> = Vec::new();
        let mut i: usize = 0;
        while i < MEMORY_SIZE
            invariant
                i <= MEMORY_SIZE,
                raw@.len() == i,
                forall|a: int| 0 <= a < i ==> raw@[a] == 0u8,
            decreases MEMORY_SIZE - i,
        {
            raw.push(0u8);
            i = i + 1;
        }
        Memory { raw }
    }

    /// A space with the font copied in at 0x050 and the program at 0x200.
    /// Fails with `ProgramTooLarge` exactly when the program does not fit
    /// between 0x200 and the end of memory. The font table must be the
    /// standard 80-byte shape.
    pub fn new_with_program_and_font(program: Option<&[u8]>, font: Option<&[u8]>) -> (r: Result<
        Memory,
        EmulationError,
    >)
        requires
            font matches Some(f) ==> f@.len() == 80,
        ensures
            (r is Ok) <==> (program matches Some(p) ==> p@.len() <= MEMORY_SIZE - PROGRAM_START),
            r !is Ok ==> r == Err::<Memory, EmulationError>(EmulationError::ProgramTooLarge),
            r matches Ok(m) ==> m.wf() && forall|a: int|
                0 <= a < MEMORY_SIZE ==> m@[a] == loaded_byte(
                    match program {
                        Some(p) => Some(p@),
                        None => None,
                    },
                    match font {
                        Some(f) => Some(f@),
                        None => None,
                    },
                    a,
                ),
    {
        let mut base = Memory::new();
        match program {
            Some(p) => {
                if p.len() > MEMORY_SIZE - PROGRAM_START {
                    return Err(EmulationError::ProgramTooLarge);
                }
                let mut i: usize = 0;
                while i < p.len()
                    invariant
                        i <= p@.len(),
                        p@.len() <= MEMORY_SIZE - PROGRAM_START,
                        base.wf(),
                        forall|a: int|
                            PROGRAM_START <= a < PROGRAM_START + i ==> base@[a] == p@[a
                                - PROGRAM_START],
                        forall|a: int|
                            (0 <= a < PROGRAM_START || PROGRAM_START + i <= a < MEMORY_SIZE)
                                ==> base@[a] == 0u8,
                    decreases p@.len() - i,
                {
                    base.raw.set(PROGRAM_START + i, p[i]);
                    i = i + 1;
                }
            },
            None => {},
        }
        match font {
            Some(f) => {
                let mut i: usize = 0;
                while i < 80
                    invariant
                        i <= 80,
                        f@.len() == 80,
                        base.wf(),
                        forall|a: int|
                            FONT_START <= a < FONT_START + i ==> base@[a] == f@[a - FONT_START],
                        forall|a: int|
                            (0 <= a < FONT_START || FONT_START + i <= a < MEMORY_SIZE) ==> base@[a]
                                == (match program {
                                Some(p) => if PROGRAM_START <= a < PROGRAM_START + p@.len() {
                                    p@[a - PROGRAM_START]
                                } else {
                                    0u8
                                },
                                None => 0u8,
                            }),
                    decreases 80 - i,
                {
                    base.raw.set(FONT_START + i, f[i]);
                    i = i + 1;
                }
            },
            None => {},
        }
        Ok(base)
    }

    /// Bounds-checked read: the byte at `addr`, or `MemoryOutOfBounds`.
    pub fn read(&self, addr: usize) -> (r: Result<u8, EmulationError>)
        requires
            self.wf(),
        ensures
            addr < MEMORY_SIZE ==> r == Ok::<u8, EmulationError>(self@[addr as int]),
            addr >= MEMORY_SIZE ==> r == Err::<u8, EmulationError>(
                EmulationError::MemoryOutOfBounds,
            ),
    {
        if addr < MEMORY_SIZE {
            Ok(self.raw[addr])
        } else {
            Err(EmulationError::MemoryOutOfBounds)
        }
    }

    /// Bounds-checked write: stores `value` at `addr`, or reports
    /// `MemoryOutOfBounds` leaving the space unchanged.
    pub fn write(&mut self, addr: usize, value: u8) -> (r: Result<(), EmulationError>)
        requires
            old(self).wf(),
        ensures
            final(self).wf(),
            addr < MEMORY_SIZE ==> r is Ok && final(self)@ == old(self)@.update(addr as int, value),
            addr >= MEMORY_SIZE ==> r == Err::<(), EmulationError>(
                EmulationError::MemoryOutOfBounds,
            ) && final(self)@ == old(self)@,
    {
        if addr < MEMORY_SIZE {
            self.raw.set(addr, value);
            Ok(())
        } else {
            Err(EmulationError::MemoryOutOfBounds)
        }
    }

    /// Unchecked read for callers that have proved the bound.
    pub fn read_at(&self, addr: usize) -> (r: u8)
        requires
            self.wf(),
            addr < MEMORY_SIZE,
        ensures
            r == self@[addr as int],
    {
        self.raw[addr]
    }

    /// Unchecked write for callers that have proved the bound.
    pub fn set_at(&mut self, addr: usize, value: u8)
        requires
            old(self).wf(),
            addr < MEMORY_SIZE,
        ensures
            final(self).wf(),
            final(self)@ == old(self)@.update(addr as int, value),
    {
        self.raw.set(addr, value);
    }

    /// A byte-for-byte copy of the space.
    pub fn duplicate(&self) -> (r: Memory)
        requires
            self.wf(),
        ensures
            r@ == self@,
            r.wf(),
    {
        let mut raw: Vec<u8> = Vec::new();
        let mut i: usize = 0;
        while i < MEMORY_SIZE
            invariant
                i <= MEMORY_SIZE,
                self.wf(),
                raw@.len() == i,
                forall|a: int| 0 <= a < i ==> raw@[a] == self@[a],
            decreases MEMORY_SIZE - i,
        {
            raw.push(self.raw[i]);
            i = i + 1;
        }
        let r = Memory { raw };
        proof {
            assert(r@ =~= self@);
        }
        r
    }
}

} // verus!

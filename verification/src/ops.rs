//! The opcode decoder: a pure, total map from a raw 16-bit instruction word
//! to one structured `Operation` or one of the two decode errors. A word is
//! read big-endian: high byte first. Ties are broken by nibble specificity:
//! the exact words 00E0/00EE take precedence over the 0NNN family.
use vstd::prelude::*;

use crate::error::EmulationError;

verus! {

/// Highest nibble of a raw instruction word.
pub open spec fn nib1(raw: u16) -> int {
    raw as int / 4096
}

/// Second nibble: the X register field.
pub open spec fn nib2(raw: u16) -> int {
    (raw as int / 256) % 16
}

/// Third nibble: the Y register field.
pub open spec fn nib3(raw: u16) -> int {
    (raw as int / 16) % 16
}

/// Lowest nibble: the N field.
pub open spec fn nib4(raw: u16) -> int {
    raw as int % 16
}

/// Low byte: the NN immediate.
pub open spec fn low_byte(raw: u16) -> int {
    raw as int % 256
}

/// Low 12 bits: the NNN address.
pub open spec fn low_tribble(raw: u16) -> int {
    raw as int % 4096
}

/// One decoded instruction of the 35-opcode set. Register fields are
/// nibbles (0..16), immediates are bytes, addresses are 12 bits.
#[derive(Clone, Copy, Debug, PartialEq, Eq, Structural)]
pub enum Operation {
    /// 00E0: all pixels to black.
    ClearScreen,
    /// 00EE: pop the stack into the program counter.
    Return,
    /// 1NNN: jump.
    Jump(u16),
    /// 2NNN: push the return address, jump.
    Call(u16),
    /// 3XNN: skip next instruction if Vx == NN.
    SkipEqImm(u8, u8),
    /// 4XNN: skip next instruction if Vx != NN.
    SkipNeqImm(u8, u8),
    /// 5XY0: skip next instruction if Vx == Vy.
    SkipEqReg(u8, u8),
    /// 6XNN: Vx <- NN.
    LoadImm(u8, u8),
    /// 7XNN: Vx <- Vx + NN, wrapping, no flag.
    AddImm(u8, u8),
    /// 8XY0: Vx <- Vy.
    Move(u8, u8),
    /// 8XY1: Vx <- Vx | Vy.
    Or(u8, u8),
    /// 8XY2: Vx <- Vx & Vy.
    And(u8, u8),
    /// 8XY3: Vx <- Vx ^ Vy.
    Xor(u8, u8),
    /// 8XY4: Vx <- Vx + Vy; VF <- carry.
    AddReg(u8, u8),
    /// 8XY5: Vx <- Vx - Vy; VF <- not borrow.
    SubReg(u8, u8),
    /// 8XY6: shift right; VF <- bit shifted out.
    ShiftRight(u8, u8),
    /// 8XY7: Vx <- Vy - Vx; VF <- not borrow.
    SubnReg(u8, u8),
    /// 8XYE: shift left; VF <- bit shifted out.
    ShiftLeft(u8, u8),
    /// 9XY0: skip next instruction if Vx != Vy.
    SkipNeqReg(u8, u8),
    /// ANNN: I <- NNN.
    LoadIndex(u16),
    /// BNNN: jump to NNN + V0 (or NNN + Vx under the BXNN quirk).
    JumpOffset(u8, u16),
    /// CXNN: Vx <- random byte & NN.
    Random(u8, u8),
    /// DXYN: XOR-blit an N-byte sprite at (Vx, Vy); VF <- collision.
    Draw(u8, u8, u8),
    /// EX9E: skip next instruction if key Vx is pressed.
    SkipIfKeyDown(u8),
    /// EXA1: skip next instruction if key Vx is not pressed.
    SkipIfKeyUp(u8),
    /// FX07: Vx <- delay timer.
    ReadDelay(u8),
    /// FX0A: suspend until a key event arrives; Vx <- that key.
    WaitKey(u8),
    /// FX15: delay timer <- Vx.
    SetDelay(u8),
    /// FX18: sound timer <- Vx.
    SetSound(u8),
    /// FX1E: I <- I + Vx.
    AddIndex(u8),
    /// FX29: I <- font glyph address for digit Vx.
    LoadFontAddr(u8),
    /// FX33: three decimal digits of Vx to memory at I, I+1, I+2.
    StoreBcd(u8),
    /// FX55: memory[I..=I+X] <- V0..=Vx.
    StoreRegisters(u8),
    /// FX65: V0..=Vx <- memory[I..=I+X].
    LoadRegisters(u8),
}

/// Register and address fields of a decoded operation are in range.
pub open spec fn op_wf(op: Operation) -> bool {
    match op {
        Operation::ClearScreen => true,
        Operation::Return => true,
        Operation::Jump(nnn) => nnn < 4096,
        Operation::Call(nnn) => nnn < 4096,
        Operation::SkipEqImm(x, _) => x < 16,
        Operation::SkipNeqImm(x, _) => x < 16,
        Operation::SkipEqReg(x, y) => x < 16 && y < 16,
        Operation::LoadImm(x, _) => x < 16,
        Operation::AddImm(x, _) => x < 16,
        Operation::Move(x, y) => x < 16 && y < 16,
        Operation::Or(x, y) => x < 16 && y < 16,
        Operation::And(x, y) => x < 16 && y < 16,
        Operation::Xor(x, y) => x < 16 && y < 16,
        Operation::AddReg(x, y) => x < 16 && y < 16,
        Operation::SubReg(x, y) => x < 16 && y < 16,
        Operation::ShiftRight(x, y) => x < 16 && y < 16,
        Operation::SubnReg(x, y) => x < 16 && y < 16,
        Operation::ShiftLeft(x, y) => x < 16 && y < 16,
        Operation::SkipNeqReg(x, y) => x < 16 && y < 16,
        Operation::LoadIndex(nnn) => nnn < 4096,
        Operation::JumpOffset(x, nnn) => x < 16 && nnn < 4096,
        Operation::Random(x, _) => x < 16,
        Operation::Draw(x, y, n) => x < 16 && y < 16 && n < 16,
        Operation::SkipIfKeyDown(x) => x < 16,
        Operation::SkipIfKeyUp(x) => x < 16,
        Operation::ReadDelay(x) => x < 16,
        Operation::WaitKey(x) => x < 16,
        Operation::SetDelay(x) => x < 16,
        Operation::SetSound(x) => x < 16,
        Operation::AddIndex(x) => x < 16,
        Operation::LoadFontAddr(x) => x < 16,
        Operation::StoreBcd(x) => x < 16,
        Operation::StoreRegisters(x) => x < 16,
        Operation::LoadRegisters(x) => x < 16,
    }
}

/// The decode table of the instruction set: every raw word maps to
/// exactly one operation, or to `UnsupportedNativeCall` for a 0NNN other
/// than 00E0/00EE, or to `UnknownInstruction` when no pattern matches.
pub open spec fn spec_decode(raw: u16) -> Result<Operation, EmulationError> {
    let x = nib2(raw) as u8;
    let y = nib3(raw) as u8;
    let n = nib4(raw) as u8;
    let kk = low_byte(raw) as u8;
    let nnn = low_tribble(raw) as u16;
    if raw == 0x00E0 {
        Ok(Operation::ClearScreen)
    } else if raw == 0x00EE {
        Ok(Operation::Return)
    } else if nib1(raw) == 0x0 {
        Err(EmulationError::UnsupportedNativeCall)
    } else if nib1(raw) == 0x1 {
        Ok(Operation::Jump(nnn))
    } else if nib1(raw) == 0x2 {
        Ok(Operation::Call(nnn))
    } else if nib1(raw) == 0x3 {
        Ok(Operation::SkipEqImm(x, kk))
    } else if nib1(raw) == 0x4 {
        Ok(Operation::SkipNeqImm(x, kk))
    } else if nib1(raw) == 0x5 {
        if nib4(raw) == 0 {
            Ok(Operation::SkipEqReg(x, y))
        } else {
            Err(EmulationError::UnknownInstruction(raw))
        }
    } else if nib1(raw) == 0x6 {
        Ok(Operation::LoadImm(x, kk))
    } else if nib1(raw) == 0x7 {
        Ok(Operation::AddImm(x, kk))
    } else if nib1(raw) == 0x8 {
        if nib4(raw) == 0x0 {
            Ok(Operation::Move(x, y))
        } else if nib4(raw) == 0x1 {
            Ok(Operation::Or(x, y))
        } else if nib4(raw) == 0x2 {
            Ok(Operation::And(x, y))
        } else if nib4(raw) == 0x3 {
            Ok(Operation::Xor(x, y))
        } else if nib4(raw) == 0x4 {
            Ok(Operation::AddReg(x, y))
        } else if nib4(raw) == 0x5 {
            Ok(Operation::SubReg(x, y))
        } else if nib4(raw) == 0x6 {
            Ok(Operation::ShiftRight(x, y))
        } else if nib4(raw) == 0x7 {
            Ok(Operation::SubnReg(x, y))
        } else if nib4(raw) == 0xE {
            Ok(Operation::ShiftLeft(x, y))
        } else {
            Err(EmulationError::UnknownInstruction(raw))
        }
    } else if nib1(raw) == 0x9 {
        if nib4(raw) == 0 {
            Ok(Operation::SkipNeqReg(x, y))
        } else {
            Err(EmulationError::UnknownInstruction(raw))
        }
    } else if nib1(raw) == 0xA {
        Ok(Operation::LoadIndex(nnn))
    } else if nib1(raw) == 0xB {
        Ok(Operation::JumpOffset(x, nnn))
    } else if nib1(raw) == 0xC {
        Ok(Operation::Random(x, kk))
    } else if nib1(raw) == 0xD {
        Ok(Operation::Draw(x, y, n))
    } else if nib1(raw) == 0xE {
        if low_byte(raw) == 0x9E {
            Ok(Operation::SkipIfKeyDown(x))
        } else if low_byte(raw) == 0xA1 {
            Ok(Operation::SkipIfKeyUp(x))
        } else {
            Err(EmulationError::UnknownInstruction(raw))
        }
    } else {
        if low_byte(raw) == 0x07 {
            Ok(Operation::ReadDelay(x))
        } else if low_byte(raw) == 0x0A {
            Ok(Operation::WaitKey(x))
        } else if low_byte(raw) == 0x15 {
            Ok(Operation::SetDelay(x))
        } else if low_byte(raw) == 0x18 {
            Ok(Operation::SetSound(x))
        } else if low_byte(raw) == 0x1E {
            Ok(Operation::AddIndex(x))
        } else if low_byte(raw) == 0x29 {
            Ok(Operation::LoadFontAddr(x))
        } else if low_byte(raw) == 0x33 {
            Ok(Operation::StoreBcd(x))
        } else if low_byte(raw) == 0x55 {
            Ok(Operation::StoreRegisters(x))
        } else if low_byte(raw) == 0x65 {
            Ok(Operation::LoadRegisters(x))
        } else {
            Err(EmulationError::UnknownInstruction(raw))
        }
    }
}

/// Decodes one raw instruction word. Pure and total: every raw value yields
/// exactly the operation or error of the decode table.
pub fn decode(raw: u16) -> (r: Result<Operation, EmulationError>)
    ensures
        r == spec_decode(raw),
        r matches Ok(op) ==> op_wf(op),
{
    proof {
        lemma_decode_wf(raw);
    }
    let x = ((raw / 256) % 16) as u8;
    let y = ((raw / 16) % 16) as u8;
    let n = (raw % 16) as u8;
    let kk = (raw % 256) as u8;
    let nnn = raw % 4096;
    if raw == 0x00E0 {
        Ok(Operation::ClearScreen)
    } else if raw == 0x00EE {
        Ok(Operation::Return)
    } else if raw / 4096 == 0x0 {
        Err(EmulationError::UnsupportedNativeCall)
    } else if raw / 4096 == 0x1 {
        Ok(Operation::Jump(nnn))
    } else if raw / 4096 == 0x2 {
        Ok(Operation::Call(nnn))
    } else if raw / 4096 == 0x3 {
        Ok(Operation::SkipEqImm(x, kk))
    } else if raw / 4096 == 0x4 {
        Ok(Operation::SkipNeqImm(x, kk))
    } else if raw / 4096 == 0x5 {
        if n == 0 {
            Ok(Operation::SkipEqReg(x, y))
        } else {
            Err(EmulationError::UnknownInstruction(raw))
        }
    } else if raw / 4096 == 0x6 {
        Ok(Operation::LoadImm(x, kk))
    } else if raw / 4096 == 0x7 {
        Ok(Operation::AddImm(x, kk))
    } else if raw / 4096 == 0x8 {
        if n == 0x0 {
            Ok(Operation::Move(x, y))
        } else if n == 0x1 {
            Ok(Operation::Or(x, y))
        } else if n == 0x2 {
            Ok(Operation::And(x, y))
        } else if n == 0x3 {
            Ok(Operation::Xor(x, y))
        } else if n == 0x4 {
            Ok(Operation::AddReg(x, y))
        } else if n == 0x5 {
            Ok(Operation::SubReg(x, y))
        } else if n == 0x6 {
            Ok(Operation::ShiftRight(x, y))
        } else if n == 0x7 {
            Ok(Operation::SubnReg(x, y))
        } else if n == 0xE {
            Ok(Operation::ShiftLeft(x, y))
        } else {
            Err(EmulationError::UnknownInstruction(raw))
        }
    } else if raw / 4096 == 0x9 {
        if n == 0 {
            Ok(Operation::SkipNeqReg(x, y))
        } else {
            Err(EmulationError::UnknownInstruction(raw))
        }
    } else if raw / 4096 == 0xA {
        Ok(Operation::LoadIndex(nnn))
    } else if raw / 4096 == 0xB {
        Ok(Operation::JumpOffset(x, nnn))
    } else if raw / 4096 == 0xC {
        Ok(Operation::Random(x, kk))
    } else if raw / 4096 == 0xD {
        Ok(Operation::Draw(x, y, n))
    } else if raw / 4096 == 0xE {
        if kk == 0x9E {
            Ok(Operation::SkipIfKeyDown(x))
        } else if kk == 0xA1 {
            Ok(Operation::SkipIfKeyUp(x))
        } else {
            Err(EmulationError::UnknownInstruction(raw))
        }
    } else {
        if kk == 0x07 {
            Ok(Operation::ReadDelay(x))
        } else if kk == 0x0A {
            Ok(Operation::WaitKey(x))
        } else if kk == 0x15 {
            Ok(Operation::SetDelay(x))
        } else if kk == 0x18 {
            Ok(Operation::SetSound(x))
        } else if kk == 0x1E {
            Ok(Operation::AddIndex(x))
        } else if kk == 0x29 {
            Ok(Operation::LoadFontAddr(x))
        } else if kk == 0x33 {
            Ok(Operation::StoreBcd(x))
        } else if kk == 0x55 {
            Ok(Operation::StoreRegisters(x))
        } else if kk == 0x65 {
            Ok(Operation::LoadRegisters(x))
        } else {
            Err(EmulationError::UnknownInstruction(raw))
        }
    }
}

/// A raw instruction word together with its four nibbles, the shape the
/// decoder's patterns match on.
pub struct OpCode {
    raw: u16,
    destructured: (u8, u8, u8, u8),
}

impl OpCode {
    /// The raw 16-bit word.
    pub closed spec fn raw_spec(&self) -> u16 {
        self.raw
    }

    /// Builds the word big-endian from its high and low bytes and splits
    /// it into its four nibbles.
    pub fn build(high: u8, low: u8) -> (r: OpCode)
        ensures
            r.raw_spec() == high as int * 256 + low as int,
            r.destructured_spec() == (
                nib1(r.raw_spec()) as u8,
                nib2(r.raw_spec()) as u8,
                nib3(r.raw_spec()) as u8,
                nib4(r.raw_spec()) as u8,
            ),
    {
        let raw: u16 = (high as u16) * 256 + (low as u16);
        OpCode {
            raw,
            destructured: (
                (raw / 4096) as u8,
                ((raw / 256) % 16) as u8,
                ((raw / 16) % 16) as u8,
                (raw % 16) as u8,
            ),
        }
    }

    /// The four nibbles, highest first.
    pub closed spec fn destructured_spec(&self) -> (u8, u8, u8, u8) {
        self.destructured
    }

    /// The four nibbles, highest first.
    pub fn nibbles(&self) -> (r: (u8, u8, u8, u8))
        ensures
            r == self.destructured_spec(),
    {
        self.destructured
    }

    /// The low 12 bits: the NNN address field.
    pub fn get_nnn(&self) -> (r: u16)
        ensures
            r as int == low_tribble(self.raw_spec()),
    {
        self.raw % 4096
    }

    /// Decodes this word; see `decode`.
    pub fn operation(&self) -> (r: Result<Operation, EmulationError>)
        ensures
            r == spec_decode(self.raw_spec()),
            r matches Ok(op) ==> op_wf(op),
    {
        decode(self.raw)
    }
}

/// Every operation the decode table yields has its register fields below 16
/// and its address fields below 4096.
pub proof fn lemma_decode_wf(raw: u16)
    ensures
        spec_decode(raw) matches Ok(op) ==> op_wf(op),
{
}

/// Decode never yields an error other than the two named decode errors:
/// together with `decode`'s contract, every one of the 65536 raw words
/// maps to a defined operation, `UnsupportedNativeCall`, or
/// `UnknownInstruction`.
pub proof fn lemma_decode_total(raw: u16)
    ensures
        spec_decode(raw) matches Err(e) ==> e == EmulationError::UnsupportedNativeCall || e
            == EmulationError::UnknownInstruction(raw),
{
}

} // verus!

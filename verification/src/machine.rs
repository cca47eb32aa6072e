//! The machine itself: the components wired together and the executable
//! fetch/decode/execute cycle, verified against the model transition
//! function `spec_cycle`.
use vstd::prelude::*;

use crate::display::{Display, MonochromePixel, COLUMNS, PIXEL_COUNT, ROWS};
use crate::error::EmulationError;
use crate::memory::{loaded_byte, Memory, MEMORY_SIZE, PROGRAM_START};
use crate::model::{
    model_wf, spec_cycle, spec_execute, spec_key_event, spec_tick, MachineModel, StepModel,
};
use crate::ops::{decode, op_wf, Operation};
use crate::registers::Registers;

verus! {

/// The standard hexadecimal font: 16 glyphs of 5 bytes, digits 0..F.
pub const DEFAULT_FONT: [u8; 80] = [
    0xF0, 0x90, 0x90, 0x90, 0xF0,
    0x20, 0x60, 0x20, 0x20, 0x70,
    0xF0, 0x10, 0xF0, 0x80, 0xF0,
    0xF0, 0x10, 0xF0, 0x10, 0xF0,
    0x90, 0x90, 0xF0, 0x10, 0x10,
    0xF0, 0x80, 0xF0, 0x10, 0xF0,
    0xF0, 0x80, 0xF0, 0x90, 0xF0,
    0xF0, 0x10, 0x20, 0x40, 0x40,
    0xF0, 0x90, 0xF0, 0x90, 0xF0,
    0xF0, 0x90, 0xF0, 0x10, 0xF0,
    0xF0, 0x90, 0xF0, 0x90, 0x90,
    0xE0, 0x90, 0xE0, 0x90, 0xE0,
    0xF0, 0x80, 0x80, 0x80, 0xF0,
    0xE0, 0x90, 0x90, 0x90, 0xE0,
    0xF0, 0x80, 0xF0, 0x80, 0xF0,
    0xF0, 0x80, 0xF0, 0x80, 0x80,
];

/// Default seed for the randomness source when the caller supplies none.
pub const DEFAULT_SEED: u64 = 0x2A6B1D;

/// The two historical quirk toggles, fixed for the life of a machine.
#[derive(Clone, Copy, Debug, PartialEq, Eq, Structural)]
pub struct Configuration {
    /// If true, 8XY6/8XYE shift register Y into X before shifting.
    pub shift_operations_sets_ry_into_rx: bool,
    /// If true, BNNN is read as BXNN: jump to NNN + Vx rather than NNN + V0.
    pub bnnn_is_bxnn: bool,
}

/// A complete CHIP-8 machine snapshot.
#[derive(Debug)]
pub struct Chip8Machine {
    memory: Memory,
    display: Display,
    program_counter: usize,
    index_register: u16,
    stack: Vec<u16>,
    delay_timer: u8,
    sound_timer: u8,
    registers: Registers,
    pressed_keys: u16,
    waiting_key_register: Option<u8>,
    rng_state: u64,
    configuration: Configuration,
}

/// What one call of `cycle` yields: the machine after the cycle and the
/// two flags the host acts on.
#[derive(Debug)]
pub struct CycleOutcome {
    /// The machine state after this cycle.
    pub new_state: Chip8Machine,
    /// True only for the clear-screen and draw operations.
    pub display_dirty: bool,
    /// True only while an unresolved key wait is pending.
    pub waiting_for_key: bool,
}

impl View for Chip8Machine {
    type V = MachineModel;

    closed spec fn view(&self) -> MachineModel {
        MachineModel {
            mem: self.memory@,
            pixels: self.display@,
            pc: self.program_counter as int,
            index: self.index_register,
            stack: self.stack@,
            delay: self.delay_timer,
            sound: self.sound_timer,
            regs: self.registers@,
            keys: self.pressed_keys,
            waiting: self.waiting_key_register,
            rng: self.rng_state,
            shift_quirk: self.configuration.shift_operations_sets_ry_into_rx,
            jump_quirk: self.configuration.bnnn_is_bxnn,
        }
    }
}

/// An element-for-element copy of a return-address stack.
fn duplicate_stack(v: &Vec<u16>) -> (r: Vec<u16>)
    ensures
        r@ == v@,
{
    let mut r: Vec<u16> = Vec::new();
    let mut i: usize = 0;
    while i < v.len()
        invariant
            i <= v@.len(),
            r@.len() == i,
            forall|k: int| 0 <= k < i ==> r@[k] == v@[k],
        decreases v@.len() - i,
    {
        r.push(v[i]);
        i = i + 1;
    }
    proof {
        assert(r@ =~= v@);
    }
    r
}

impl Chip8Machine {
    /// Validity of the machine: exactly the model invariant.
    pub open spec fn wf(&self) -> bool {
        model_wf(self@)
    }

    /// A value-for-value copy of the whole machine.
    fn snapshot(&self) -> (r: Chip8Machine)
        requires
            self.wf(),
        ensures
            r@ == self@,
            r.wf(),
    {
        Chip8Machine {
            memory: self.memory.duplicate(),
            display: self.display.duplicate(),
            program_counter: self.program_counter,
            index_register: self.index_register,
            stack: duplicate_stack(&self.stack),
            delay_timer: self.delay_timer,
            sound_timer: self.sound_timer,
            registers: self.registers.duplicate(),
            pressed_keys: self.pressed_keys,
            waiting_key_register: self.waiting_key_register,
            rng_state: self.rng_state,
            configuration: self.configuration,
        }
    }

    /// A machine with the chosen quirk configuration and randomness seed
    /// (any value below the 2^31 modulus of the randomness source), the
    /// standard font at 0x050, the program (if any) at 0x200, and the
    /// program counter at the standard 0x200 entry point. Fails with
    /// `ProgramTooLarge` exactly when the program does not fit.
    pub fn with_configuration(
        program: Option<&[u8]>,
        configuration: Configuration,
        seed: u64,
    ) -> (r: Result<Chip8Machine, EmulationError>)
        requires
            seed < 0x8000_0000,
        ensures
            (r is Ok) <==> (program matches Some(p) ==> p@.len() <= MEMORY_SIZE - PROGRAM_START),
            r !is Ok ==> r == Err::<Chip8Machine, EmulationError>(EmulationError::ProgramTooLarge),
            r matches Ok(m) ==> {
                &&& m.wf()
                &&& forall|a: int|
                    0 <= a < MEMORY_SIZE ==> m@.mem[a] == loaded_byte(
                        match program {
                            Some(p) => Some(p@),
                            None => None,
                        },
                        Some(DEFAULT_FONT@),
                        a,
                    )
                &&& forall|i: int| 0 <= i < PIXEL_COUNT ==> !m@.pixels[i]
                &&& m@.pc == PROGRAM_START
                &&& m@.index == 0
                &&& m@.stack.len() == 0
                &&& m@.delay == 0
                &&& m@.sound == 0
                &&& forall|i: int| 0 <= i < 16 ==> m@.regs[i] == 0u8
                &&& m@.keys == 0
                &&& m@.waiting is None
                &&& m@.rng == seed
                &&& m@.shift_quirk == configuration.shift_operations_sets_ry_into_rx
                &&& m@.jump_quirk == configuration.bnnn_is_bxnn
            },
    {
        let memory = match Memory::new_with_program_and_font(
            program,
            Some(DEFAULT_FONT.as_slice()),
        ) {
            Ok(mem) => mem,
            Err(e) => {
                return Err(e);
            },
        };
        Ok(
            Chip8Machine {
                memory,
                display: Display::new(),
                program_counter: PROGRAM_START,
                index_register: 0,
                stack: Vec::new(),
                delay_timer: 0,
                sound_timer: 0,
                registers: Registers::new(),
                pressed_keys: 0,
                waiting_key_register: None,
                rng_state: seed,
                configuration,
            },
        )
    }
}

/// Two to the power `k`, executable: the divisor for key and sprite bit
/// lookups.
fn pow2_u16(k: u16) -> (r: u16)
    requires
        k < 16,
    ensures
        r as int == crate::model::pow2n(k as int),
        r >= 1,
{
    if k == 0 {
        1
    } else if k == 1 {
        2
    } else if k == 2 {
        4
    } else if k == 3 {
        8
    } else if k == 4 {
        16
    } else if k == 5 {
        32
    } else if k == 6 {
        64
    } else if k == 7 {
        128
    } else if k == 8 {
        256
    } else if k == 9 {
        512
    } else if k == 10 {
        1024
    } else if k == 11 {
        2048
    } else if k == 12 {
        4096
    } else if k == 13 {
        8192
    } else if k == 14 {
        16384
    } else {
        32768
    }
}

impl Chip8Machine {
    /// Whether key `k` is in the pressed set.
    fn key_is_down(&self, k: u8) -> (r: bool)
        requires
            k < 16,
        ensures
            r == crate::model::key_down(self@.keys, k as int),
    {
        (self.pressed_keys / pow2_u16(k as u16)) % 2 == 1
    }

    /// The XOR blit of DXYN: the new pixel vector and the collision flag,
    /// computed pixel by pixel over the whole raster.
    fn blit(&self, vx: u8, vy: u8, n: u8) -> (r: (Vec<MonochromePixel>, bool))
        requires
            self.wf(),
            n < 16,
            n > 0 ==> self@.index + n <= 4096,
        ensures
            r.0@.len() == PIXEL_COUNT,
            forall|k: int|
                0 <= k < PIXEL_COUNT ==> crate::display::is_white(r.0@[k])
                    == crate::model::draw_pixels(
                    self@.pixels,
                    self@.mem,
                    self@.index as int,
                    vx as int,
                    vy as int,
                    n as int,
                )[k],
            r.1 == crate::model::draw_collision(
                self@.pixels,
                self@.mem,
                self@.index as int,
                vx as int,
                vy as int,
                n as int,
            ),
    {
        let ghost dm = self@;
        let ghost gi = self@.index as int;
        let mut out: Vec<MonochromePixel> = Vec::new();
        let mut coll = false;
        let vxm: usize = (vx as usize) % 64;
        let vym: usize = (vy as usize) % 32;
        let mut idx: usize = 0;
        while idx < PIXEL_COUNT
            invariant
                self.wf(),
                n < 16,
                n > 0 ==> gi + n <= 4096,
                dm == self@,
                gi == dm.index as int,
                vxm == vx as int % 64,
                vym == vy as int % 32,
                idx <= PIXEL_COUNT,
                out@.len() == idx,
                forall|k: int|
                    0 <= k < idx ==> crate::display::is_white(out@[k]) == (dm.pixels[k]
                        != crate::model::draw_hit(dm.mem, gi, vx as int, vy as int, n as int, k)),
                coll == exists|k: int|
                    0 <= k < idx && crate::model::draw_hit(
                        dm.mem,
                        gi,
                        vx as int,
                        vy as int,
                        n as int,
                        k,
                    ) && dm.pixels[k],
            decreases PIXEL_COUNT - idx,
        {
            let row: usize = idx / 64;
            let col: usize = idx % 64;
            let i: usize = (row + 32 - vym) % 32;
            let j: usize = (col + 64 - vxm) % 64;
            proof {
                crate::model::lemma_wrap_index(row as int, vy as int, 32);
                crate::model::lemma_wrap_index(col as int, vx as int, 64);
            }
            let hit: bool = if i < n as usize {
                let byte = self.memory.read_at(self.index_register as usize + i);
                if j < 8 {
                    let p = pow2_u16((7 - j) as u16) as usize;
                    (byte as usize / p) % 2 == 1
                } else {
                    false
                }
            } else {
                false
            };
            proof {
                assert(hit == crate::model::draw_hit(
                    dm.mem,
                    gi,
                    vx as int,
                    vy as int,
                    n as int,
                    idx as int,
                ));
            }
            let lit = self.display.is_lit(idx);
            if hit && lit {
                coll = true;
            }
            out.push(
                if lit != hit {
                    MonochromePixel::White
                } else {
                    MonochromePixel::Black
                },
            );
            idx = idx + 1;
        }
        (out, coll)
    }

    /// Fetches and decodes the instruction at the program counter.
    pub fn fetch(&self) -> (r: Result<Operation, EmulationError>)
        requires
            self.wf(),
        ensures
            r == crate::model::spec_fetch(self@),
            r matches Ok(op) ==> op_wf(op),
    {
        if self.program_counter + 1 >= MEMORY_SIZE {
            return Err(EmulationError::MemoryOutOfBounds);
        }
        let high = self.memory.read_at(self.program_counter);
        let low = self.memory.read_at(self.program_counter + 1);
        let raw: u16 = (high as u16) * 256 + (low as u16);
        decode(raw)
    }

    /// Control-flow operations: clear, return, jumps, calls, skips
    /// and the key wait.
    #[verifier::rlimit(100)]
    fn execute_flow(&self, op: Operation) -> (r: Result<CycleOutcome, EmulationError>)
        requires
            self.wf(),
            op_wf(op),
            self@.pc + 1 < 4096,
            op is ClearScreen || op is Return || op is Jump || op is Call || op is SkipEqImm ||
                op is SkipNeqImm || op is SkipEqReg || op is SkipNeqReg || op is JumpOffset ||
                op is SkipIfKeyDown || op is SkipIfKeyUp || op is WaitKey,
        ensures
            match r {
                Ok(out) => spec_execute(self@, op) == Ok::<StepModel, EmulationError>(
                    StepModel {
                        state: out.new_state@,
                        display_dirty: out.display_dirty,
                        waiting_for_key: out.waiting_for_key,
                    },
                ) && out.new_state.wf(),
                Err(e) => spec_execute(self@, op) == Err::<StepModel, EmulationError>(e),
            },
    {
        match op {
            Operation::ClearScreen => {
                let mut nm = self.snapshot();
                nm.display = Display::new();
                nm.program_counter = self.program_counter + 2;
                proof {
                    assert(nm@.pixels =~= Seq::new(2048, |i: int| false));
                }
                Ok(CycleOutcome { new_state: nm, display_dirty: true, waiting_for_key: false })
            },
            Operation::Return => {
                let mut nm = self.snapshot();
                match nm.stack.pop() {
                    Some(addr) => {
                        nm.program_counter = addr as usize;
                        proof {
                            assert(nm@.stack =~= self@.stack.drop_last());
                        }
                        Ok(
                            CycleOutcome {
                                new_state: nm,
                                display_dirty: false,
                                waiting_for_key: false,
                            },
                        )
                    },
                    None => Err(EmulationError::StackUnderflow),
                }
            },
            Operation::Jump(nnn) => {
                let mut nm = self.snapshot();
                nm.program_counter = nnn as usize;
                Ok(CycleOutcome { new_state: nm, display_dirty: false, waiting_for_key: false })
            },
            Operation::Call(nnn) => {
                if self.stack.len() >= 16 {
                    return Err(EmulationError::StackOverflow);
                }
                let mut nm = self.snapshot();
                nm.stack.push((self.program_counter + 2) as u16);
                nm.program_counter = nnn as usize;
                Ok(CycleOutcome { new_state: nm, display_dirty: false, waiting_for_key: false })
            },
            Operation::SkipEqImm(x, kk) => {
                let mut nm = self.snapshot();
                nm.program_counter = self.program_counter + (
                if self.registers.get(x as usize) == kk {
                    4
                } else {
                    2
                });
                Ok(CycleOutcome { new_state: nm, display_dirty: false, waiting_for_key: false })
            },
            Operation::SkipNeqImm(x, kk) => {
                let mut nm = self.snapshot();
                nm.program_counter = self.program_counter + (
                if self.registers.get(x as usize) != kk {
                    4
                } else {
                    2
                });
                Ok(CycleOutcome { new_state: nm, display_dirty: false, waiting_for_key: false })
            },
            Operation::SkipEqReg(x, y) => {
                let mut nm = self.snapshot();
                nm.program_counter = self.program_counter + (
                if self.registers.get(x as usize) == self.registers.get(y as usize) {
                    4
                } else {
                    2
                });
                Ok(CycleOutcome { new_state: nm, display_dirty: false, waiting_for_key: false })
            },
            Operation::SkipNeqReg(x, y) => {
                let mut nm = self.snapshot();
                nm.program_counter = self.program_counter + (
                if self.registers.get(x as usize) != self.registers.get(y as usize) {
                    4
                } else {
                    2
                });
                Ok(CycleOutcome { new_state: nm, display_dirty: false, waiting_for_key: false })
            },
            Operation::JumpOffset(x, nnn) => {
                let mut nm = self.snapshot();
                let off = if self.configuration.bnnn_is_bxnn {
                    self.registers.get(x as usize)
                } else {
                    self.registers.get(0)
                };
                nm.program_counter = nnn as usize + off as usize;
                Ok(CycleOutcome { new_state: nm, display_dirty: false, waiting_for_key: false })
            },
            Operation::SkipIfKeyDown(x) => {
                let mut nm = self.snapshot();
                let key = self.registers.get(x as usize) % 16;
                nm.program_counter = self.program_counter + (
                if self.key_is_down(key) {
                    4
                } else {
                    2
                });
                Ok(CycleOutcome { new_state: nm, display_dirty: false, waiting_for_key: false })
            },
            Operation::SkipIfKeyUp(x) => {
                let mut nm = self.snapshot();
                let key = self.registers.get(x as usize) % 16;
                nm.program_counter = self.program_counter + (
                if !self.key_is_down(key) {
                    4
                } else {
                    2
                });
                Ok(CycleOutcome { new_state: nm, display_dirty: false, waiting_for_key: false })
            },
            Operation::WaitKey(x) => {
                let mut nm = self.snapshot();
                nm.waiting_key_register = Some(x);
                nm.program_counter = self.program_counter + 2;
                Ok(CycleOutcome { new_state: nm, display_dirty: false, waiting_for_key: true })
            },
            // Unreachable: the dispatch in `execute` sends only the
            // operations listed above here.
            _ => {
                proof {
                    assert(false);
                }
                Err(EmulationError::UnsupportedNativeCall)
            },
        }
    }

    /// Register operations: loads, arithmetic, logic, shifts, the
    /// randomness draw and the timer transfers.
    #[verifier::rlimit(100)]
    fn execute_alu(&self, op: Operation) -> (r: Result<CycleOutcome, EmulationError>)
        requires
            self.wf(),
            op_wf(op),
            self@.pc + 1 < 4096,
            op is LoadImm || op is AddImm || op is Move || op is Or || op is And ||
                op is Xor || op is AddReg || op is SubReg || op is ShiftRight ||
                op is SubnReg || op is ShiftLeft || op is Random || op is ReadDelay ||
                op is SetDelay || op is SetSound,
        ensures
            match r {
                Ok(out) => spec_execute(self@, op) == Ok::<StepModel, EmulationError>(
                    StepModel {
                        state: out.new_state@,
                        display_dirty: out.display_dirty,
                        waiting_for_key: out.waiting_for_key,
                    },
                ) && out.new_state.wf(),
                Err(e) => spec_execute(self@, op) == Err::<StepModel, EmulationError>(e),
            },
    {
        match op {
            Operation::LoadImm(x, kk) => {
                let mut nm = self.snapshot();
                nm.registers = self.registers.update(x as usize, kk);
                nm.program_counter = self.program_counter + 2;
                Ok(CycleOutcome { new_state: nm, display_dirty: false, waiting_for_key: false })
            },
            Operation::AddImm(x, kk) => {
                let mut nm = self.snapshot();
                let vx = self.registers.get(x as usize);
                let sum = ((vx as u16 + kk as u16) % 256) as u8;
                nm.registers = self.registers.update(x as usize, sum);
                nm.program_counter = self.program_counter + 2;
                Ok(CycleOutcome { new_state: nm, display_dirty: false, waiting_for_key: false })
            },
            Operation::Move(x, y) => {
                let mut nm = self.snapshot();
                nm.registers = self.registers.update(x as usize, self.registers.get(y as usize));
                nm.program_counter = self.program_counter + 2;
                Ok(CycleOutcome { new_state: nm, display_dirty: false, waiting_for_key: false })
            },
            Operation::Or(x, y) => {
                let mut nm = self.snapshot();
                let v = self.registers.get(x as usize) | self.registers.get(y as usize);
                nm.registers = self.registers.update(x as usize, v);
                nm.program_counter = self.program_counter + 2;
                Ok(CycleOutcome { new_state: nm, display_dirty: false, waiting_for_key: false })
            },
            Operation::And(x, y) => {
                let mut nm = self.snapshot();
                let v = self.registers.get(x as usize) & self.registers.get(y as usize);
                nm.registers = self.registers.update(x as usize, v);
                nm.program_counter = self.program_counter + 2;
                Ok(CycleOutcome { new_state: nm, display_dirty: false, waiting_for_key: false })
            },
            Operation::Xor(x, y) => {
                let mut nm = self.snapshot();
                let v = self.registers.get(x as usize) ^ self.registers.get(y as usize);
                nm.registers = self.registers.update(x as usize, v);
                nm.program_counter = self.program_counter + 2;
                Ok(CycleOutcome { new_state: nm, display_dirty: false, waiting_for_key: false })
            },
            Operation::AddReg(x, y) => {
                let mut nm = self.snapshot();
                let vx = self.registers.get(x as usize);
                let vy = self.registers.get(y as usize);
                let sum: u16 = vx as u16 + vy as u16;
                let flag: u8 = if sum > 255 {
                    1
                } else {
                    0
                };
                nm.registers = self.registers.update(x as usize, (sum % 256) as u8).update(
                    15,
                    flag,
                );
                nm.program_counter = self.program_counter + 2;
                Ok(CycleOutcome { new_state: nm, display_dirty: false, waiting_for_key: false })
            },
            Operation::SubReg(x, y) => {
                let mut nm = self.snapshot();
                let vx = self.registers.get(x as usize);
                let vy = self.registers.get(y as usize);
                let diff = ((vx as u16 + 256 - vy as u16) % 256) as u8;
                let flag: u8 = if vx >= vy {
                    1
                } else {
                    0
                };
                nm.registers = self.registers.update(x as usize, diff).update(15, flag);
                nm.program_counter = self.program_counter + 2;
                Ok(CycleOutcome { new_state: nm, display_dirty: false, waiting_for_key: false })
            },
            Operation::ShiftRight(x, y) => {
                let mut nm = self.snapshot();
                let src = if self.configuration.shift_operations_sets_ry_into_rx {
                    self.registers.get(y as usize)
                } else {
                    self.registers.get(x as usize)
                };
                nm.registers = self.registers.update(x as usize, src / 2).update(15, src % 2);
                nm.program_counter = self.program_counter + 2;
                Ok(CycleOutcome { new_state: nm, display_dirty: false, waiting_for_key: false })
            },
            Operation::SubnReg(x, y) => {
                let mut nm = self.snapshot();
                let vx = self.registers.get(x as usize);
                let vy = self.registers.get(y as usize);
                let diff = ((vy as u16 + 256 - vx as u16) % 256) as u8;
                let flag: u8 = if vy >= vx {
                    1
                } else {
                    0
                };
                nm.registers = self.registers.update(x as usize, diff).update(15, flag);
                nm.program_counter = self.program_counter + 2;
                Ok(CycleOutcome { new_state: nm, display_dirty: false, waiting_for_key: false })
            },
            Operation::ShiftLeft(x, y) => {
                let mut nm = self.snapshot();
                let src = if self.configuration.shift_operations_sets_ry_into_rx {
                    self.registers.get(y as usize)
                } else {
                    self.registers.get(x as usize)
                };
                let val = ((src as u16 * 2) % 256) as u8;
                nm.registers = self.registers.update(x as usize, val).update(15, src / 128);
                nm.program_counter = self.program_counter + 2;
                Ok(CycleOutcome { new_state: nm, display_dirty: false, waiting_for_key: false })
            },
            Operation::Random(x, kk) => {
                let mut nm = self.snapshot();
                let s = self.rng_state;
                proof {
                    assert(s * 1103515245 + 12345 <= 0x7FFF_FFFFu64 * 1103515245 + 12345)
                        by (nonlinear_arith)
                        requires
                            s <= 0x7FFF_FFFFu64,
                    ;
                }
                let s2: u64 = (s * 1103515245 + 12345) % 0x8000_0000;
                let byte: u8 = ((s2 / 65536) % 256) as u8;
                nm.rng_state = s2;
                nm.registers = self.registers.update(x as usize, byte & kk);
                nm.program_counter = self.program_counter + 2;
                Ok(CycleOutcome { new_state: nm, display_dirty: false, waiting_for_key: false })
            },
            Operation::ReadDelay(x) => {
                let mut nm = self.snapshot();
                nm.registers = self.registers.update(x as usize, self.delay_timer);
                nm.program_counter = self.program_counter + 2;
                Ok(CycleOutcome { new_state: nm, display_dirty: false, waiting_for_key: false })
            },
            Operation::SetDelay(x) => {
                let mut nm = self.snapshot();
                nm.delay_timer = self.registers.get(x as usize);
                nm.program_counter = self.program_counter + 2;
                Ok(CycleOutcome { new_state: nm, display_dirty: false, waiting_for_key: false })
            },
            Operation::SetSound(x) => {
                let mut nm = self.snapshot();
                nm.sound_timer = self.registers.get(x as usize);
                nm.program_counter = self.program_counter + 2;
                Ok(CycleOutcome { new_state: nm, display_dirty: false, waiting_for_key: false })
            },
            // Unreachable: the dispatch in `execute` sends only the
            // operations listed above here.
            _ => {
                proof {
                    assert(false);
                }
                Err(EmulationError::UnsupportedNativeCall)
            },
        }
    }

    /// Index-register and memory operations, and the sprite draw.
    #[verifier::rlimit(100)]
    fn execute_mem(&self, op: Operation) -> (r: Result<CycleOutcome, EmulationError>)
        requires
            self.wf(),
            op_wf(op),
            self@.pc + 1 < 4096,
            op is LoadIndex || op is AddIndex || op is LoadFontAddr || op is StoreBcd ||
                op is StoreRegisters || op is LoadRegisters || op is Draw,
        ensures
            match r {
                Ok(out) => spec_execute(self@, op) == Ok::<StepModel, EmulationError>(
                    StepModel {
                        state: out.new_state@,
                        display_dirty: out.display_dirty,
                        waiting_for_key: out.waiting_for_key,
                    },
                ) && out.new_state.wf(),
                Err(e) => spec_execute(self@, op) == Err::<StepModel, EmulationError>(e),
            },
    {
        match op {
            Operation::LoadIndex(nnn) => {
                let mut nm = self.snapshot();
                nm.index_register = nnn;
                nm.program_counter = self.program_counter + 2;
                Ok(CycleOutcome { new_state: nm, display_dirty: false, waiting_for_key: false })
            },
            Operation::AddIndex(x) => {
                let mut nm = self.snapshot();
                let vx = self.registers.get(x as usize);
                nm.index_register = ((self.index_register as u32 + vx as u32) % 0x10000) as u16;
                nm.program_counter = self.program_counter + 2;
                Ok(CycleOutcome { new_state: nm, display_dirty: false, waiting_for_key: false })
            },
            Operation::LoadFontAddr(x) => {
                let mut nm = self.snapshot();
                let digit = self.registers.get(x as usize) % 16;
                nm.index_register = 0x50 + (digit as u16) * 5;
                nm.program_counter = self.program_counter + 2;
                Ok(CycleOutcome { new_state: nm, display_dirty: false, waiting_for_key: false })
            },
            Operation::StoreBcd(x) => {
                let i = self.index_register as usize;
                if i + 2 >= MEMORY_SIZE {
                    return Err(EmulationError::MemoryOutOfBounds);
                }
                let v = self.registers.get(x as usize);
                let mut nm = self.snapshot();
                nm.memory.set_at(i, v / 100);
                nm.memory.set_at(i + 1, (v / 10) % 10);
                nm.memory.set_at(i + 2, v % 10);
                nm.program_counter = self.program_counter + 2;
                Ok(CycleOutcome { new_state: nm, display_dirty: false, waiting_for_key: false })
            },
            Operation::StoreRegisters(x) => {
                let i = self.index_register as usize;
                if i + x as usize >= MEMORY_SIZE {
                    return Err(EmulationError::MemoryOutOfBounds);
                }
                let mut mem2 = self.memory.duplicate();
                let mut k: usize = 0;
                while k < x as usize + 1
                    invariant
                        self.wf(),
                        x < 16,
                        i == self@.index,
                        i + x < 4096,
                        k <= x + 1,
                        mem2.wf(),
                        forall|a: int|
                            0 <= a < 4096 ==> mem2@[a] == (if i <= a < i + k {
                                self@.regs[a - i]
                            } else {
                                self@.mem[a]
                            }),
                    decreases x + 1 - k,
                {
                    mem2.set_at(i + k, self.registers.get(k));
                    k = k + 1;
                }
                let mut nm = self.snapshot();
                nm.memory = mem2;
                nm.program_counter = self.program_counter + 2;
                proof {
                    assert(nm@.mem =~= Seq::new(
                        4096,
                        |a: int|
                            if i <= a <= i + x {
                                self@.regs[a - i]
                            } else {
                                self@.mem[a]
                            },
                    ));
                }
                Ok(CycleOutcome { new_state: nm, display_dirty: false, waiting_for_key: false })
            },
            Operation::LoadRegisters(x) => {
                let i = self.index_register as usize;
                if i + x as usize >= MEMORY_SIZE {
                    return Err(EmulationError::MemoryOutOfBounds);
                }
                let mut regs2 = self.registers.duplicate();
                let mut k: usize = 0;
                while k < x as usize + 1
                    invariant
                        self.wf(),
                        x < 16,
                        i == self@.index,
                        i + x < 4096,
                        k <= x + 1,
                        regs2.wf(),
                        forall|t: int|
                            0 <= t < 16 ==> regs2@[t] == (if 0 <= t < k {
                                self@.mem[i + t]
                            } else {
                                self@.regs[t]
                            }),
                    decreases x + 1 - k,
                {
                    regs2 = regs2.update(k, self.memory.read_at(i + k));
                    k = k + 1;
                }
                let mut nm = self.snapshot();
                nm.registers = regs2;
                nm.program_counter = self.program_counter + 2;
                proof {
                    assert(nm@.regs =~= Seq::new(
                        16,
                        |t: int|
                            if t <= x {
                                self@.mem[i + t]
                            } else {
                                self@.regs[t]
                            },
                    ));
                }
                Ok(CycleOutcome { new_state: nm, display_dirty: false, waiting_for_key: false })
            },
            Operation::Draw(x, y, n) => {
                if n > 0 && self.index_register as usize + n as usize > MEMORY_SIZE {
                    return Err(EmulationError::MemoryOutOfBounds);
                }
                let vx = self.registers.get(x as usize);
                let vy = self.registers.get(y as usize);
                let (pixels, coll) = self.blit(vx, vy, n);
                let mut nm = self.snapshot();
                nm.display = Display::from_pixels(pixels);
                nm.registers = self.registers.update(
                    15,
                    if coll {
                        1
                    } else {
                        0
                    },
                );
                nm.program_counter = self.program_counter + 2;
                proof {
                    assert(nm@.pixels =~= crate::model::draw_pixels(
                        self@.pixels,
                        self@.mem,
                        self@.index as int,
                        vx as int,
                        vy as int,
                        n as int,
                    ));
                }
                Ok(CycleOutcome { new_state: nm, display_dirty: true, waiting_for_key: false })
            },
            // Unreachable: the dispatch in `execute` sends only the
            // operations listed above here.
            _ => {
                proof {
                    assert(false);
                }
                Err(EmulationError::UnsupportedNativeCall)
            },
        }
    }

    /// Applies one decoded operation: the semantics of the instruction
    /// table, verified equal to `spec_execute` on this snapshot.
    fn execute(&self, op: Operation) -> (r: Result<CycleOutcome, EmulationError>)
        requires
            self.wf(),
            op_wf(op),
            self@.pc + 1 < 4096,
        ensures
            match r {
                Ok(out) => spec_execute(self@, op) == Ok::<StepModel, EmulationError>(
                    StepModel {
                        state: out.new_state@,
                        display_dirty: out.display_dirty,
                        waiting_for_key: out.waiting_for_key,
                    },
                ) && out.new_state.wf(),
                Err(e) => spec_execute(self@, op) == Err::<StepModel, EmulationError>(e),
            },
    {
        match op {
            Operation::ClearScreen
            | Operation::Return
            | Operation::Jump(..)
            | Operation::Call(..)
            | Operation::SkipEqImm(..)
            | Operation::SkipNeqImm(..)
            | Operation::SkipEqReg(..)
            | Operation::SkipNeqReg(..)
            | Operation::JumpOffset(..)
            | Operation::SkipIfKeyDown(..)
            | Operation::SkipIfKeyUp(..)
            | Operation::WaitKey(..) => self.execute_flow(op),
            Operation::LoadImm(..)
            | Operation::AddImm(..)
            | Operation::Move(..)
            | Operation::Or(..)
            | Operation::And(..)
            | Operation::Xor(..)
            | Operation::AddReg(..)
            | Operation::SubReg(..)
            | Operation::ShiftRight(..)
            | Operation::SubnReg(..)
            | Operation::ShiftLeft(..)
            | Operation::Random(..)
            | Operation::ReadDelay(..)
            | Operation::SetDelay(..)
            | Operation::SetSound(..) => self.execute_alu(op),
            Operation::LoadIndex(..)
            | Operation::AddIndex(..)
            | Operation::LoadFontAddr(..)
            | Operation::StoreBcd(..)
            | Operation::StoreRegisters(..)
            | Operation::LoadRegisters(..)
            | Operation::Draw(..) => self.execute_mem(op),
        }
    }

    /// One fetch/decode/execute cycle as a pure transition: the machine
    /// itself is left untouched, the outcome holds the next snapshot. A
    /// suspended machine reports its pending key wait and changes nothing.
    /// On an error no new state is produced: the prior snapshot remains
    /// the last valid state.
    pub fn cycle(&self) -> (r: Result<CycleOutcome, EmulationError>)
        requires
            self.wf(),
        ensures
            match r {
                Ok(out) => spec_cycle(self@) == Ok::<StepModel, EmulationError>(
                    StepModel {
                        state: out.new_state@,
                        display_dirty: out.display_dirty,
                        waiting_for_key: out.waiting_for_key,
                    },
                ) && out.new_state.wf(),
                Err(e) => spec_cycle(self@) == Err::<StepModel, EmulationError>(e),
            },
    {
        if self.waiting_key_register.is_some() {
            return Ok(
                CycleOutcome {
                    new_state: self.snapshot(),
                    display_dirty: false,
                    waiting_for_key: true,
                },
            );
        }
        match self.fetch() {
            Err(e) => Err(e),
            Ok(op) => self.execute(op),
        }
    }

    /// One 60 Hz timer tick: each nonzero timer counts down by one.
    pub fn tick_timers(&mut self)
        requires
            old(self).wf(),
        ensures
            final(self).wf(),
            final(self)@ == spec_tick(old(self)@),
    {
        if self.delay_timer > 0 {
            self.delay_timer = self.delay_timer - 1;
        }
        if self.sound_timer > 0 {
            self.sound_timer = self.sound_timer - 1;
        }
    }

    /// Replaces the pressed-key set: bit k of `keys` is key k, so any
    /// number of keys can be down at once.
    pub fn set_pressed_keys(&mut self, keys: u16)
        requires
            old(self).wf(),
        ensures
            final(self).wf(),
            final(self)@ == (MachineModel { keys: keys, ..old(self)@ }),
    {
        self.pressed_keys = keys;
    }

    /// The program counter.
    pub fn pc(&self) -> (r: usize)
        ensures
            r == self@.pc,
    {
        self.program_counter
    }

    /// The index register I.
    pub fn index(&self) -> (r: u16)
        ensures
            r == self@.index,
    {
        self.index_register
    }

    /// The value of general register `i`.
    pub fn register(&self, i: usize) -> (r: u8)
        requires
            self.wf(),
            i < 16,
        ensures
            r == self@.regs[i as int],
    {
        self.registers.get(i)
    }

    /// The delay timer.
    pub fn delay(&self) -> (r: u8)
        ensures
            r == self@.delay,
    {
        self.delay_timer
    }

    /// The sound timer; the host emits a tone while it is nonzero.
    pub fn sound(&self) -> (r: u8)
        ensures
            r == self@.sound,
    {
        self.sound_timer
    }

    /// How many return addresses are on the call stack.
    pub fn stack_depth(&self) -> (r: usize)
        ensures
            r == self@.stack.len(),
    {
        self.stack.len()
    }

    /// Whether an FX0A key wait is pending.
    pub fn is_waiting_for_key(&self) -> (r: bool)
        ensures
            r == (self@.waiting is Some),
    {
        self.waiting_key_register.is_some()
    }

    /// The pixel at `row`, `col`, for the renderer.
    pub fn pixel(&self, row: usize, col: usize) -> (r: MonochromePixel)
        requires
            self.wf(),
            row < ROWS,
            col < COLUMNS,
        ensures
            crate::display::is_white(r) == self@.pixels[row * COLUMNS + col],
    {
        self.display.pixel_at(row, col)
    }

    /// Bounds-checked read of a memory byte.
    pub fn memory_byte(&self, addr: usize) -> (r: Result<u8, EmulationError>)
        requires
            self.wf(),
        ensures
            addr < MEMORY_SIZE ==> r == Ok::<u8, EmulationError>(self@.mem[addr as int]),
            addr >= MEMORY_SIZE ==> r == Err::<u8, EmulationError>(
                EmulationError::MemoryOutOfBounds,
            ),
    {
        self.memory.read(addr)
    }

    /// The quirk configuration the machine was built with.
    pub fn configuration(&self) -> (r: Configuration)
        ensures
            r.shift_operations_sets_ry_into_rx == self@.shift_quirk,
            r.bnnn_is_bxnn == self@.jump_quirk,
    {
        self.configuration
    }

    /// A discrete key-press event: resolves a pending key wait by storing
    /// the key in the awaited register; on a running machine it changes
    /// nothing.
    pub fn key_event(&mut self, key: u8)
        requires
            old(self).wf(),
            key < 16,
        ensures
            final(self).wf(),
            final(self)@ == spec_key_event(old(self)@, key),
    {
        match self.waiting_key_register {
            Some(x) => {
                self.registers = self.registers.update(x as usize, key);
                self.waiting_key_register = None;
            },
            None => {},
        }
    }
}

/// A machine with both quirks off and the default seed; see
/// `Chip8Machine::with_configuration` for the exact layout.
pub fn init_chip8machine(program: Option<&[u8]>) -> (r: Result<Chip8Machine, EmulationError>)
    ensures
        (r is Ok) <==> (program matches Some(p) ==> p@.len() <= MEMORY_SIZE - PROGRAM_START),
        r !is Ok ==> r == Err::<Chip8Machine, EmulationError>(EmulationError::ProgramTooLarge),
        r matches Ok(m) ==> {
            &&& m.wf()
            &&& forall|a: int|
                0 <= a < MEMORY_SIZE ==> m@.mem[a] == loaded_byte(
                    match program {
                        Some(p) => Some(p@),
                        None => None,
                    },
                    Some(DEFAULT_FONT@),
                    a,
                )
            &&& forall|i: int| 0 <= i < PIXEL_COUNT ==> !m@.pixels[i]
            &&& m@.pc == PROGRAM_START
            &&& m@.index == 0
            &&& m@.stack.len() == 0
            &&& m@.delay == 0
            &&& m@.sound == 0
            &&& forall|i: int| 0 <= i < 16 ==> m@.regs[i] == 0u8
            &&& m@.keys == 0
            &&& m@.waiting is None
            &&& m@.rng == DEFAULT_SEED
            &&& !m@.shift_quirk
            &&& !m@.jump_quirk
        },
{
    Chip8Machine::with_configuration(
        program,
        Configuration { shift_operations_sets_ry_into_rx: false, bnnn_is_bxnn: false },
        DEFAULT_SEED,
    )
}

} // verus!

//! The mathematical model of the machine and the specification-level
//! transition function. `spec_cycle` says exactly what one call of
//! `Chip8Machine::cycle` computes: the executable interpreter is verified
//! against it, and the machine-wide laws (determinism, stack bounds, skip
//! distances) are proved about it.
use vstd::prelude::*;

use crate::error::EmulationError;
use crate::ops::{spec_decode, Operation};

verus! {

/// One machine snapshot, as mathematics: every register, pixel and byte as
/// a plain value.
#[verifier::ext_equal]
pub ghost struct MachineModel {
    /// The 4096 memory bytes.
    pub mem: Seq<u8>,
    /// The 2048 pixels, row-major, true = lit.
    pub pixels: Seq<bool>,
    /// Program counter.
    pub pc: int,
    /// 16-bit index register I.
    pub index: u16,
    /// Return addresses, oldest first; at most 16 deep.
    pub stack: Seq<u16>,
    /// Delay timer.
    pub delay: u8,
    /// Sound timer.
    pub sound: u8,
    /// The sixteen general registers V0..VF.
    pub regs: Seq<u8>,
    /// Pressed-key set: bit k is key k, so several keys can be down at once.
    pub keys: u16,
    /// `Some(x)` while an FX0A waits for a key destined for Vx.
    pub waiting: Option<u8>,
    /// State of the deterministic randomness source.
    pub rng: u64,
    /// Quirk: 8XY6/8XYE shift Vy into Vx rather than shifting Vx in place.
    pub shift_quirk: bool,
    /// Quirk: BNNN jumps to NNN + Vx rather than NNN + V0.
    pub jump_quirk: bool,
}

/// What one cycle yields: the next snapshot plus the two host flags.
#[verifier::ext_equal]
pub ghost struct StepModel {
    /// The machine after the cycle.
    pub state: MachineModel,
    /// True only for the clear and draw operations.
    pub display_dirty: bool,
    /// True only while an unresolved key wait is pending.
    pub waiting_for_key: bool,
}

/// Validity of a snapshot: the fixed component sizes, the bounded stack,
/// a program counter inside the 16-bit range, a register index in any
/// pending key wait, and a randomness state inside its modulus.
pub open spec fn model_wf(m: MachineModel) -> bool {
    &&& m.mem.len() == 4096
    &&& m.pixels.len() == 2048
    &&& m.regs.len() == 16
    &&& m.stack.len() <= 16
    &&& 0 <= m.pc <= 0xFFFF
    &&& (m.waiting matches Some(x) ==> x < 16)
    &&& m.rng < 0x8000_0000
}

/// Two to the power `k` for the nibble-and-byte range used by key lookup
/// and sprite bits.
pub open spec fn pow2n(k: int) -> int {
    if k <= 0 {
        1
    } else if k == 1 {
        2
    } else if k == 2 {
        4
    } else if k == 3 {
        8
    } else if k == 4 {
        16
    } else if k == 5 {
        32
    } else if k == 6 {
        64
    } else if k == 7 {
        128
    } else if k == 8 {
        256
    } else if k == 9 {
        512
    } else if k == 10 {
        1024
    } else if k == 11 {
        2048
    } else if k == 12 {
        4096
    } else if k == 13 {
        8192
    } else if k == 14 {
        16384
    } else {
        32768
    }
}

/// Whether key `k` (0..16) is in the pressed set.
pub open spec fn key_down(keys: u16, k: int) -> bool {
    (keys as int / pow2n(k)) % 2 == 1
}

/// Bit `j` of a sprite byte, counted from the most significant bit, so
/// that bit 0 is the leftmost pixel of the sprite row.
pub open spec fn sprite_bit(b: u8, j: int) -> bool {
    (b as int / pow2n(7 - j)) % 2 == 1
}

/// An 8-bit wrap of a nonnegative value.
pub open spec fn wrap8(v: int) -> u8 {
    (v % 256) as u8
}

/// The next state of the randomness source: a linear congruential step
/// modulo 2^31. Purely a function of the previous state, so identically
/// seeded machines draw identical bytes.
pub open spec fn rng_next(s: u64) -> u64 {
    ((s as int * 1103515245 + 12345) % 0x8000_0000) as u64
}

/// The byte drawn from a randomness state.
pub open spec fn rand_byte(s: u64) -> u8 {
    ((rng_next(s) as int / 65536) % 256) as u8
}

/// Whether the sprite blit of `n` rows at column `vx`, row `vy` (each
/// wrapped modulo the display dimensions) covers flat pixel `idx` with a
/// set sprite bit. The sprite row is `(row - vy) mod 32`, the sprite
/// column `(col - vx) mod 64`; the pixel is hit when both fall inside the
/// 8 x n sprite box and the corresponding bit of the sprite byte is set.
pub open spec fn draw_hit(mem: Seq<u8>, index: int, vx: int, vy: int, n: int, idx: int) -> bool {
    let row = idx / 64;
    let col = idx % 64;
    let i = (row - vy) % 32;
    let j = (col - vx) % 64;
    i < n && j < 8 && sprite_bit(mem[index + i], j)
}

/// The display after the blit: every hit pixel toggles, the rest stay.
pub open spec fn draw_pixels(
    pixels: Seq<bool>,
    mem: Seq<u8>,
    index: int,
    vx: int,
    vy: int,
    n: int,
) -> Seq<bool> {
    Seq::new(2048, |idx: int| pixels[idx] != draw_hit(mem, index, vx, vy, n, idx))
}

/// Whether the blit turns at least one lit pixel off: some hit pixel was
/// already lit.
pub open spec fn draw_collision(
    pixels: Seq<bool>,
    mem: Seq<u8>,
    index: int,
    vx: int,
    vy: int,
    n: int,
) -> bool {
    exists|idx: int| 0 <= idx < 2048 && draw_hit(mem, index, vx, vy, n, idx) && pixels[idx]
}

/// Computing a wrapped offset without negative numbers: for a position
/// `r` already inside `[0, m)`, adding `m` and subtracting `v mod m` then
/// reducing is the same as the mathematical `(r - v) mod m`.
pub proof fn lemma_wrap_index(r: int, v: int, m: int)
    requires
        0 <= r < m,
        0 <= v,
        0 < m,
    ensures
        (r + m - v % m) % m == (r - v) % m,
{
    vstd::arithmetic::div_mod::lemma_fundamental_div_mod(v, m);
    vstd::arithmetic::mul::lemma_mul_is_distributive_add(m, 1, v / m);
    assert(r + m - v % m == m * (1 + v / m) + (r - v));
    vstd::arithmetic::div_mod::lemma_mod_multiples_vanish(1 + v / m, r - v, m);
}

/// A step that only moved state: no display change, no key wait.
pub open spec fn plain_step(m: MachineModel) -> StepModel {
    StepModel { state: m, display_dirty: false, waiting_for_key: false }
}

/// The semantics of one decoded operation applied to snapshot `m`, as
/// tabulated in the instruction table. Non-branching operations advance
/// the program counter by exactly 2; jumps, calls, returns and skips set
/// it themselves.
pub open spec fn spec_execute(m: MachineModel, op: Operation) -> Result<
    StepModel,
    EmulationError,
> {
    match op {
        Operation::ClearScreen => Ok(
            StepModel {
                state: MachineModel {
                    pixels: Seq::new(2048, |i: int| false),
                    pc: m.pc + 2,
                    ..m
                },
                display_dirty: true,
                waiting_for_key: false,
            },
        ),
        Operation::Return => if m.stack.len() == 0 {
            Err(EmulationError::StackUnderflow)
        } else {
            Ok(
                plain_step(
                    MachineModel { pc: m.stack.last() as int, stack: m.stack.drop_last(), ..m },
                ),
            )
        },
        Operation::Jump(nnn) => Ok(plain_step(MachineModel { pc: nnn as int, ..m })),
        Operation::Call(nnn) => if m.stack.len() >= 16 {
            Err(EmulationError::StackOverflow)
        } else {
            Ok(
                plain_step(
                    MachineModel {
                        stack: m.stack.push((m.pc + 2) as u16),
                        pc: nnn as int,
                        ..m
                    },
                ),
            )
        },
        Operation::SkipEqImm(x, kk) => Ok(
            plain_step(
                MachineModel {
                    pc: m.pc + (if m.regs[x as int] == kk {
                        4int
                    } else {
                        2int
                    }),
                    ..m
                },
            ),
        ),
        Operation::SkipNeqImm(x, kk) => Ok(
            plain_step(
                MachineModel {
                    pc: m.pc + (if m.regs[x as int] != kk {
                        4int
                    } else {
                        2int
                    }),
                    ..m
                },
            ),
        ),
        Operation::SkipEqReg(x, y) => Ok(
            plain_step(
                MachineModel {
                    pc: m.pc + (if m.regs[x as int] == m.regs[y as int] {
                        4int
                    } else {
                        2int
                    }),
                    ..m
                },
            ),
        ),
        Operation::LoadImm(x, kk) => Ok(
            plain_step(MachineModel { regs: m.regs.update(x as int, kk), pc: m.pc + 2, ..m }),
        ),
        Operation::AddImm(x, kk) => Ok(
            plain_step(
                MachineModel {
                    regs: m.regs.update(x as int, wrap8(m.regs[x as int] + kk)),
                    pc: m.pc + 2,
                    ..m
                },
            ),
        ),
        Operation::Move(x, y) => Ok(
            plain_step(
                MachineModel { regs: m.regs.update(x as int, m.regs[y as int]), pc: m.pc + 2, ..m },
            ),
        ),
        Operation::Or(x, y) => Ok(
            plain_step(
                MachineModel {
                    regs: m.regs.update(x as int, m.regs[x as int] | m.regs[y as int]),
                    pc: m.pc + 2,
                    ..m
                },
            ),
        ),
        Operation::And(x, y) => Ok(
            plain_step(
                MachineModel {
                    regs: m.regs.update(x as int, m.regs[x as int] & m.regs[y as int]),
                    pc: m.pc + 2,
                    ..m
                },
            ),
        ),
        Operation::Xor(x, y) => Ok(
            plain_step(
                MachineModel {
                    regs: m.regs.update(x as int, m.regs[x as int] ^ m.regs[y as int]),
                    pc: m.pc + 2,
                    ..m
                },
            ),
        ),
        Operation::AddReg(x, y) => {
            let sum = m.regs[x as int] + m.regs[y as int];
            Ok(
                plain_step(
                    MachineModel {
                        regs: m.regs.update(x as int, wrap8(sum)).update(
                            15,
                            if sum > 255 {
                                1u8
                            } else {
                                0u8
                            },
                        ),
                        pc: m.pc + 2,
                        ..m
                    },
                ),
            )
        },
        Operation::SubReg(x, y) => {
            let vx = m.regs[x as int];
            let vy = m.regs[y as int];
            Ok(
                plain_step(
                    MachineModel {
                        regs: m.regs.update(x as int, wrap8(vx - vy + 256)).update(
                            15,
                            if vx >= vy {
                                1u8
                            } else {
                                0u8
                            },
                        ),
                        pc: m.pc + 2,
                        ..m
                    },
                ),
            )
        },
        Operation::ShiftRight(x, y) => {
            let src = if m.shift_quirk {
                m.regs[y as int]
            } else {
                m.regs[x as int]
            };
            Ok(
                plain_step(
                    MachineModel {
                        regs: m.regs.update(x as int, (src as int / 2) as u8).update(
                            15,
                            (src as int % 2) as u8,
                        ),
                        pc: m.pc + 2,
                        ..m
                    },
                ),
            )
        },
        Operation::SubnReg(x, y) => {
            let vx = m.regs[x as int];
            let vy = m.regs[y as int];
            Ok(
                plain_step(
                    MachineModel {
                        regs: m.regs.update(x as int, wrap8(vy - vx + 256)).update(
                            15,
                            if vy >= vx {
                                1u8
                            } else {
                                0u8
                            },
                        ),
                        pc: m.pc + 2,
                        ..m
                    },
                ),
            )
        },
        Operation::ShiftLeft(x, y) => {
            let src = if m.shift_quirk {
                m.regs[y as int]
            } else {
                m.regs[x as int]
            };
            Ok(
                plain_step(
                    MachineModel {
                        regs: m.regs.update(x as int, wrap8(src as int * 2)).update(
                            15,
                            (src as int / 128) as u8,
                        ),
                        pc: m.pc + 2,
                        ..m
                    },
                ),
            )
        },
        Operation::SkipNeqReg(x, y) => Ok(
            plain_step(
                MachineModel {
                    pc: m.pc + (if m.regs[x as int] != m.regs[y as int] {
                        4int
                    } else {
                        2int
                    }),
                    ..m
                },
            ),
        ),
        Operation::LoadIndex(nnn) => Ok(
            plain_step(MachineModel { index: nnn, pc: m.pc + 2, ..m }),
        ),
        Operation::JumpOffset(x, nnn) => {
            let off = if m.jump_quirk {
                m.regs[x as int]
            } else {
                m.regs[0]
            };
            Ok(plain_step(MachineModel { pc: nnn + off, ..m }))
        },
        Operation::Random(x, kk) => Ok(
            plain_step(
                MachineModel {
                    regs: m.regs.update(x as int, rand_byte(m.rng) & kk),
                    rng: rng_next(m.rng),
                    pc: m.pc + 2,
                    ..m
                },
            ),
        ),
        Operation::Draw(x, y, n) => {
            if n > 0 && m.index + n > 4096 {
                Err(EmulationError::MemoryOutOfBounds)
            } else {
                let vx = m.regs[x as int] as int;
                let vy = m.regs[y as int] as int;
                let coll = draw_collision(m.pixels, m.mem, m.index as int, vx, vy, n as int);
                Ok(
                    StepModel {
                        state: MachineModel {
                            pixels: draw_pixels(m.pixels, m.mem, m.index as int, vx, vy, n as int),
                            regs: m.regs.update(
                                15,
                                if coll {
                                    1u8
                                } else {
                                    0u8
                                },
                            ),
                            pc: m.pc + 2,
                            ..m
                        },
                        display_dirty: true,
                        waiting_for_key: false,
                    },
                )
            }
        },
        Operation::SkipIfKeyDown(x) => Ok(
            plain_step(
                MachineModel {
                    pc: m.pc + (if key_down(m.keys, m.regs[x as int] as int % 16) {
                        4int
                    } else {
                        2int
                    }),
                    ..m
                },
            ),
        ),
        Operation::SkipIfKeyUp(x) => Ok(
            plain_step(
                MachineModel {
                    pc: m.pc + (if !key_down(m.keys, m.regs[x as int] as int % 16) {
                        4int
                    } else {
                        2int
                    }),
                    ..m
                },
            ),
        ),
        Operation::ReadDelay(x) => Ok(
            plain_step(MachineModel { regs: m.regs.update(x as int, m.delay), pc: m.pc + 2, ..m }),
        ),
        Operation::WaitKey(x) => Ok(
            StepModel {
                state: MachineModel { waiting: Some(x), pc: m.pc + 2, ..m },
                display_dirty: false,
                waiting_for_key: true,
            },
        ),
        Operation::SetDelay(x) => Ok(
            plain_step(MachineModel { delay: m.regs[x as int], pc: m.pc + 2, ..m }),
        ),
        Operation::SetSound(x) => Ok(
            plain_step(MachineModel { sound: m.regs[x as int], pc: m.pc + 2, ..m }),
        ),
        Operation::AddIndex(x) => Ok(
            plain_step(
                MachineModel {
                    index: ((m.index + m.regs[x as int]) % 0x10000) as u16,
                    pc: m.pc + 2,
                    ..m
                },
            ),
        ),
        Operation::LoadFontAddr(x) => Ok(
            plain_step(
                MachineModel {
                    index: (0x50 + (m.regs[x as int] as int % 16) * 5) as u16,
                    pc: m.pc + 2,
                    ..m
                },
            ),
        ),
        Operation::StoreBcd(x) => {
            if m.index + 2 >= 4096 {
                Err(EmulationError::MemoryOutOfBounds)
            } else {
                let v = m.regs[x as int] as int;
                let i = m.index as int;
                Ok(
                    plain_step(
                        MachineModel {
                            mem: m.mem.update(i, (v / 100) as u8).update(
                                i + 1,
                                ((v / 10) % 10) as u8,
                            ).update(i + 2, (v % 10) as u8),
                            pc: m.pc + 2,
                            ..m
                        },
                    ),
                )
            }
        },
        Operation::StoreRegisters(x) => {
            if m.index + x >= 4096 {
                Err(EmulationError::MemoryOutOfBounds)
            } else {
                let i = m.index as int;
                Ok(
                    plain_step(
                        MachineModel {
                            mem: Seq::new(
                                4096,
                                |a: int|
                                    if i <= a <= i + x {
                                        m.regs[a - i]
                                    } else {
                                        m.mem[a]
                                    },
                            ),
                            pc: m.pc + 2,
                            ..m
                        },
                    ),
                )
            }
        },
        Operation::LoadRegisters(x) => {
            if m.index + x >= 4096 {
                Err(EmulationError::MemoryOutOfBounds)
            } else {
                let i = m.index as int;
                Ok(
                    plain_step(
                        MachineModel {
                            regs: Seq::new(
                                16,
                                |k: int|
                                    if k <= x {
                                        m.mem[i + k]
                                    } else {
                                        m.regs[k]
                                    },
                            ),
                            pc: m.pc + 2,
                            ..m
                        },
                    ),
                )
            }
        },
    }
}

/// The raw big-endian instruction word at the program counter.
pub open spec fn raw_at_pc(m: MachineModel) -> u16 {
    (m.mem[m.pc] as int * 256 + m.mem[m.pc + 1] as int) as u16
}

/// The fetch-and-decode step: the two bytes at the program counter form
/// the big-endian instruction word, which is decoded; a program counter
/// whose two bytes do not both lie in memory is a fatal memory error.
pub open spec fn spec_fetch(m: MachineModel) -> Result<Operation, EmulationError> {
    if m.pc + 1 >= 4096 {
        Err(EmulationError::MemoryOutOfBounds)
    } else {
        spec_decode(raw_at_pc(m))
    }
}

/// One whole cycle: a suspended machine reports the pending key wait and
/// does nothing else; otherwise the instruction at the program counter is
/// fetched, decoded and executed. An error leaves the snapshot exactly
/// as it was.
pub open spec fn spec_cycle(m: MachineModel) -> Result<StepModel, EmulationError> {
    if m.waiting is Some {
        Ok(StepModel { state: m, display_dirty: false, waiting_for_key: true })
    } else {
        match spec_fetch(m) {
            Err(e) => Err(e),
            Ok(op) => spec_execute(m, op),
        }
    }
}

/// `fuel` cycles in a row, stopping at the first error: the state an
/// uninterrupted run reaches.
pub open spec fn spec_run(m: MachineModel, fuel: nat) -> Result<MachineModel, EmulationError>
    decreases fuel,
{
    if fuel == 0 {
        Ok(m)
    } else {
        match spec_cycle(m) {
            Err(e) => Err(e),
            Ok(st) => spec_run(st.state, (fuel - 1) as nat),
        }
    }
}

/// One 60 Hz timer tick: each nonzero timer counts down by one, never
/// below zero.
pub open spec fn spec_tick(m: MachineModel) -> MachineModel {
    MachineModel {
        delay: if m.delay > 0 {
            (m.delay - 1) as u8
        } else {
            0u8
        },
        sound: if m.sound > 0 {
            (m.sound - 1) as u8
        } else {
            0u8
        },
        ..m
    }
}

/// A discrete key-press event: it resolves a pending key wait by storing
/// the key in the awaited register; on a running machine it changes
/// nothing.
pub open spec fn spec_key_event(m: MachineModel, key: u8) -> MachineModel {
    match m.waiting {
        Some(x) => MachineModel { regs: m.regs.update(x as int, key), waiting: None, ..m },
        None => m,
    }
}

} // verus!

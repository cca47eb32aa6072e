//! Machine-wide laws, proved once about the model transition function that
//! `Chip8Machine::cycle` is verified to implement: program-counter
//! discipline, call/return symmetry, stack bounds, arithmetic flags, the
//! wrap-around draw, and determinism.
use vstd::prelude::*;

use vstd::arithmetic::div_mod::{
    lemma_fundamental_div_mod, lemma_fundamental_div_mod_converse, lemma_mod_division_less_than_divisor,
    lemma_mod_multiples_vanish, lemma_small_mod,
};
use vstd::arithmetic::mul::lemma_mul_unary_negation;

use crate::error::EmulationError;
use crate::model::{
    draw_hit, model_wf, spec_cycle, spec_execute, spec_run, sprite_bit, wrap8, MachineModel,
};
use crate::ops::{lemma_decode_wf, Operation};

verus! {

/// Operations that set the program counter themselves; every other
/// operation advances it by exactly 2.
pub open spec fn is_branching(op: Operation) -> bool {
    match op {
        Operation::Return => true,
        Operation::Jump(..) => true,
        Operation::Call(..) => true,
        Operation::JumpOffset(..) => true,
        Operation::SkipEqImm(..) => true,
        Operation::SkipNeqImm(..) => true,
        Operation::SkipEqReg(..) => true,
        Operation::SkipNeqReg(..) => true,
        Operation::SkipIfKeyDown(..) => true,
        Operation::SkipIfKeyUp(..) => true,
        _ => false,
    }
}

/// For every non-branching operation that executes successfully, the
/// program counter advances by exactly 2.
pub proof fn lemma_nonbranching_advances_pc_by_two(m: MachineModel, op: Operation)
    requires
        !is_branching(op),
        spec_execute(m, op) is Ok,
    ensures
        spec_execute(m, op)->Ok_0.state.pc == m.pc + 2,
{
}

/// The same discipline at whole-cycle level: a successful cycle whose
/// fetched operation is non-branching leaves the program counter exactly
/// 2 past where it was.
pub proof fn lemma_nonbranching_cycle_advances_pc_by_two(m: MachineModel)
    requires
        m.waiting is None,
        spec_cycle(m) is Ok,
        crate::model::spec_fetch(m) matches Ok(op) && !is_branching(op),
    ensures
        spec_cycle(m)->Ok_0.state.pc == m.pc + 2,
{
}

/// 1NNN sets the program counter to NNN exactly, and changes nothing else
/// about registers, memory or display.
pub proof fn lemma_jump_sets_pc(m: MachineModel, nnn: u16)
    ensures
        spec_execute(m, Operation::Jump(nnn)) matches Ok(st) && st.state == (MachineModel {
            pc: nnn as int,
            ..m
        }),
{
}

/// 00E0 resets every pixel to black regardless of prior content.
pub proof fn lemma_clear_screen_blanks(m: MachineModel)
    ensures
        spec_execute(m, Operation::ClearScreen) matches Ok(st) && forall|idx: int|
            0 <= idx < 2048 ==> !st.state.pixels[idx],
{
}

/// Call/return symmetry: a 2NNN pushed the address of the instruction
/// after the call; any later snapshot whose stack is still that pushed
/// stack returns, through 00EE, to exactly that address, with the stack
/// depth back at its pre-call value.
pub proof fn lemma_call_return_round_trip(m1: MachineModel, m2: MachineModel, nnn: u16)
    requires
        m1.stack.len() < 16,
        0 <= m1.pc,
        m1.pc + 2 < 0x10000,
        spec_execute(m1, Operation::Call(nnn)) matches Ok(s1) && m2.stack == s1.state.stack,
    ensures
        spec_execute(m2, Operation::Return) matches Ok(s2) && s2.state.pc == m1.pc + 2
            && s2.state.stack == m1.stack,
{
    let s1 = spec_execute(m1, Operation::Call(nnn))->Ok_0;
    assert(s1.state.stack == m1.stack.push((m1.pc + 2) as u16));
    assert(m2.stack.len() == m1.stack.len() + 1);
    let s2 = spec_execute(m2, Operation::Return)->Ok_0;
    assert(s2.state.stack =~= m1.stack);
}

/// The bounded stack: a call with 16 addresses outstanding fails with
/// StackOverflow (so a 17th nested call can never push), a call below the
/// bound pushes exactly one address, a return on an empty stack fails
/// with StackUnderflow, and a return otherwise pops exactly one.
pub proof fn lemma_stack_bounds(m: MachineModel, nnn: u16)
    ensures
        m.stack.len() >= 16 ==> spec_execute(m, Operation::Call(nnn)) == Err::<
            crate::model::StepModel,
            EmulationError,
        >(EmulationError::StackOverflow),
        m.stack.len() < 16 ==> (spec_execute(m, Operation::Call(nnn)) matches Ok(st)
            && st.state.stack.len() == m.stack.len() + 1),
        m.stack.len() == 0 ==> spec_execute(m, Operation::Return) == Err::<
            crate::model::StepModel,
            EmulationError,
        >(EmulationError::StackUnderflow),
        m.stack.len() > 0 ==> (spec_execute(m, Operation::Return) matches Ok(st)
            && st.state.stack.len() == m.stack.len() - 1),
{
}

/// Every successful cycle preserves the machine invariant; in particular
/// the stack depth never exceeds 16.
pub proof fn lemma_cycle_preserves_wf(m: MachineModel)
    requires
        model_wf(m),
        spec_cycle(m) is Ok,
    ensures
        model_wf(spec_cycle(m)->Ok_0.state),
        spec_cycle(m)->Ok_0.state.stack.len() <= 16,
{
    if m.waiting is None && m.pc + 1 < 4096 {
        lemma_decode_wf(crate::model::raw_at_pc(m));
    }
}

/// 7XNN wraps on overflow and touches no other register: VF in
/// particular keeps its value whenever X is not VF itself.
pub proof fn lemma_add_imm_wraps(m: MachineModel, x: u8, kk: u8)
    requires
        model_wf(m),
        x < 16,
    ensures
        spec_execute(m, Operation::AddImm(x, kk)) matches Ok(st) && {
            &&& st.state.regs[x as int] == wrap8(m.regs[x as int] + kk)
            &&& forall|i: int| 0 <= i < 16 && i != x ==> st.state.regs[i] == m.regs[i]
        },
{
}

/// 8XY4 sets VF to 1 exactly when the unsigned sum of Vx and Vy exceeds
/// 255, and to 0 otherwise; the sum itself is stored wrapped.
pub proof fn lemma_add_reg_carry(m: MachineModel, x: u8, y: u8)
    requires
        model_wf(m),
        x < 16,
        y < 16,
    ensures
        spec_execute(m, Operation::AddReg(x, y)) matches Ok(st) && {
            &&& st.state.regs[15] == (if m.regs[x as int] + m.regs[y as int] > 255 {
                1u8
            } else {
                0u8
            })
            &&& x != 15 ==> st.state.regs[x as int] == wrap8(m.regs[x as int] + m.regs[y as int])
        },
{
}

/// The four conditional skips advance the program counter by 4 exactly
/// when their condition holds and by 2 otherwise.
pub proof fn lemma_skips(m: MachineModel, x: u8, y: u8, kk: u8)
    requires
        model_wf(m),
        x < 16,
        y < 16,
    ensures
        spec_execute(m, Operation::SkipEqImm(x, kk)) matches Ok(st) && st.state.pc == m.pc + (
        if m.regs[x as int] == kk {
            4int
        } else {
            2int
        }),
        spec_execute(m, Operation::SkipNeqImm(x, kk)) matches Ok(st) && st.state.pc == m.pc + (
        if m.regs[x as int] != kk {
            4int
        } else {
            2int
        }),
        spec_execute(m, Operation::SkipEqReg(x, y)) matches Ok(st) && st.state.pc == m.pc + (
        if m.regs[x as int] == m.regs[y as int] {
            4int
        } else {
            2int
        }),
        spec_execute(m, Operation::SkipNeqReg(x, y)) matches Ok(st) && st.state.pc == m.pc + (
        if m.regs[x as int] != m.regs[y as int] {
            4int
        } else {
            2int
        }),
{
}

/// The flat index of the display pixel that sprite row `i`, bit `j` of a
/// sprite drawn at `(vx, vy)` lands on: both coordinates wrap modulo the
/// display dimensions.
pub open spec fn sprite_target(vx: int, vy: int, i: int, j: int) -> int {
    ((vy + i) % 32) * 64 + ((vx + j) % 64)
}

/// Inverting a wrapped offset: `(v + i) mod m` moved back by `v` is `i`
/// again.
proof fn lemma_mod_inverse(v: int, i: int, m: int)
    requires
        0 <= v,
        0 <= i < m,
        0 < m,
    ensures
        ((v + i) % m - v) % m == i,
{
    let q = (v + i) / m;
    lemma_fundamental_div_mod(v + i, m);
    lemma_mul_unary_negation(m, q);
    lemma_mod_multiples_vanish(-q, i, m);
    lemma_small_mod(i as nat, m as nat);
}

/// Completing a wrapped offset: moving `v` forward by `(r - v) mod m`
/// reaches `r` again.
proof fn lemma_mod_complement(v: int, r: int, m: int)
    requires
        0 <= v,
        0 <= r < m,
        0 < m,
    ensures
        (v + (r - v) % m) % m == r,
{
    let q = (r - v) / m;
    lemma_fundamental_div_mod(r - v, m);
    lemma_mul_unary_negation(m, q);
    lemma_mod_multiples_vanish(-q, r, m);
    lemma_small_mod(r as nat, m as nat);
}

/// DXYN wraps coordinates modulo 64 (columns) and 32 (rows): sprite row
/// `i`, bit `j` lands exactly at `sprite_target`, toggling that pixel
/// when the bit is set; pixels the sprite does not hit keep their value;
/// and VF is 1 exactly when some set sprite bit lands on an already-lit
/// pixel, else 0.
pub proof fn lemma_draw_wraps_and_collides(m: MachineModel, x: u8, y: u8, n: u8)
    requires
        model_wf(m),
        x < 16,
        y < 16,
        n < 16,
        n > 0 ==> m.index + n <= 4096,
    ensures
        spec_execute(m, Operation::Draw(x, y, n)) matches Ok(st) && {
            let vx = m.regs[x as int] as int;
            let vy = m.regs[y as int] as int;
            &&& forall|i: int, j: int|
                0 <= i < n && 0 <= j < 8 ==> #[trigger] st.state.pixels[sprite_target(vx, vy, i, j)]
                    == (m.pixels[sprite_target(vx, vy, i, j)] != sprite_bit(m.mem[m.index + i], j))
            &&& forall|idx: int|
                0 <= idx < 2048 && !draw_hit(m.mem, m.index as int, vx, vy, n as int, idx)
                    ==> st.state.pixels[idx] == m.pixels[idx]
            &&& (st.state.regs[15] == 1 <==> exists|i: int, j: int|
                0 <= i < n && 0 <= j < 8 && #[trigger] sprite_bit(m.mem[m.index + i], j)
                    && m.pixels[sprite_target(vx, vy, i, j)])
            &&& (st.state.regs[15] == 0 || st.state.regs[15] == 1)
        },
{
    let vx = m.regs[x as int] as int;
    let vy = m.regs[y as int] as int;
    let gi = m.index as int;
    let gn = n as int;
    let st = spec_execute(m, Operation::Draw(x, y, n))->Ok_0;
    assert forall|i: int, j: int| 0 <= i < gn && 0 <= j < 8 implies {
        &&& 0 <= sprite_target(vx, vy, i, j) < 2048
        &&& draw_hit(m.mem, gi, vx, vy, gn, sprite_target(vx, vy, i, j)) == sprite_bit(
            m.mem[gi + i],
            j,
        )
    } by {
        lemma_mod_division_less_than_divisor(vy + i, 32);
        lemma_mod_division_less_than_divisor(vx + j, 64);
        let r = (vy + i) % 32;
        let c = (vx + j) % 64;
        let idx = r * 64 + c;
        lemma_fundamental_div_mod_converse(idx, 64, r, c);
        lemma_mod_inverse(vy, i, 32);
        lemma_mod_inverse(vx, j, 64);
    }
    assert forall|i: int, j: int| 0 <= i < gn && 0 <= j < 8 implies #[trigger] st.state.pixels[sprite_target(
        vx,
        vy,
        i,
        j,
    )] == (m.pixels[sprite_target(vx, vy, i, j)] != sprite_bit(m.mem[m.index + i], j)) by {
        assert(draw_hit(m.mem, gi, vx, vy, gn, sprite_target(vx, vy, i, j)) == sprite_bit(
            m.mem[gi + i],
            j,
        ));
    }
    if st.state.regs[15] == 1 {
        let idx = choose|idx: int|
            0 <= idx < 2048 && draw_hit(m.mem, gi, vx, vy, gn, idx) && m.pixels[idx];
        let r = idx / 64;
        let c = idx % 64;
        lemma_fundamental_div_mod(idx, 64);
        lemma_mod_division_less_than_divisor(idx, 64);
        let i = (r - vy) % 32;
        let j = (c - vx) % 64;
        lemma_mod_division_less_than_divisor(r - vy, 32);
        lemma_mod_division_less_than_divisor(c - vx, 64);
        lemma_mod_complement(vy, r, 32);
        lemma_mod_complement(vx, c, 64);
        assert(sprite_target(vx, vy, i, j) == idx);
        assert(0 <= i < gn && 0 <= j < 8 && sprite_bit(m.mem[m.index + i], j) && m.pixels[sprite_target(
            vx,
            vy,
            i,
            j,
        )]);
    }
    if exists|i: int, j: int|
        0 <= i < gn && 0 <= j < 8 && #[trigger] sprite_bit(m.mem[m.index + i], j)
            && m.pixels[sprite_target(vx, vy, i, j)] {
        let (i, j) = choose|i: int, j: int|
            0 <= i < gn && 0 <= j < 8 && #[trigger] sprite_bit(m.mem[m.index + i], j)
                && m.pixels[sprite_target(vx, vy, i, j)];
        assert(draw_hit(m.mem, gi, vx, vy, gn, sprite_target(vx, vy, i, j)) == sprite_bit(
            m.mem[gi + i],
            j,
        ));
        assert(crate::model::draw_collision(m.pixels, m.mem, gi, vx, vy, gn));
    }
}

/// Determinism of one cycle: the outcome is a function of the snapshot
/// alone, so two machines in identical states — same program bytes, same
/// configuration, same randomness state, same input state — step to
/// identical outcomes.
pub proof fn lemma_cycle_deterministic(a: MachineModel, b: MachineModel)
    requires
        a == b,
    ensures
        spec_cycle(a) == spec_cycle(b),
{
}

/// Determinism of a whole run: identically-seeded machines stepped the
/// same number of cycles, with no input in between, pass through
/// identical state sequences.
pub proof fn lemma_run_deterministic(a: MachineModel, b: MachineModel, fuel: nat)
    requires
        a == b,
    ensures
        spec_run(a, fuel) == spec_run(b, fuel),
{
}

/// Determinism of the host inputs too: a timer tick or a key event
/// applied to identical states yields identical states, so interleaving
/// identical input-event sequences between cycles keeps two machines
/// identical.
pub proof fn lemma_inputs_deterministic(a: MachineModel, b: MachineModel, key: u8)
    requires
        a == b,
    ensures
        crate::model::spec_tick(a) == crate::model::spec_tick(b),
        crate::model::spec_key_event(a, key) == crate::model::spec_key_event(b, key),
{
}

} // verus!

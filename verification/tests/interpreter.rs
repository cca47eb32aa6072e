use chipr_lib::display::MonochromePixel;
use chipr_lib::error::EmulationError;
use chipr_lib::machine::{init_chip8machine, Chip8Machine, Configuration, DEFAULT_SEED};

fn boot(program: &[u8]) -> Chip8Machine {
    init_chip8machine(Some(program)).unwrap()
}

fn step(m: Chip8Machine) -> Chip8Machine {
    m.cycle().unwrap().new_state
}

fn lit(m: &Chip8Machine, row: usize, col: usize) -> bool {
    m.pixel(row, col) == MonochromePixel::White
}

#[test]
fn load_imm_advances_pc_by_two() {
    let m = boot(&[0x60, 0x2A]);
    let m = step(m);
    assert_eq!(m.pc(), 0x202);
    assert_eq!(m.register(0), 0x2A);
}

#[test]
fn jump_sets_pc_exactly() {
    let m = boot(&[0x12, 0x24]);
    let m = step(m);
    assert_eq!(m.pc(), 0x224);
}

#[test]
fn clear_screen_blanks_every_pixel() {
    // Draw glyph 0 somewhere, then clear.
    let m = boot(&[0xA0, 0x50, 0xD0, 0x15, 0x00, 0xE0]);
    let m = step(step(m));
    assert!(lit(&m, 0, 0));
    let out = m.cycle().unwrap();
    assert!(out.display_dirty);
    let m = out.new_state;
    for row in 0..32 {
        for col in 0..64 {
            assert!(!lit(&m, row, col));
        }
    }
}

#[test]
fn call_and_return_round_trip() {
    // 0x200: call 0x204; 0x202: anything; 0x204: return.
    let m = boot(&[0x22, 0x04, 0x60, 0x00, 0x00, 0xEE]);
    assert_eq!(m.stack_depth(), 0);
    let m = step(m);
    assert_eq!(m.pc(), 0x204);
    assert_eq!(m.stack_depth(), 1);
    let m = step(m);
    assert_eq!(m.pc(), 0x202);
    assert_eq!(m.stack_depth(), 0);
}

#[test]
fn seventeenth_nested_call_overflows() {
    // 0x200: call 0x200, forever.
    let mut m = boot(&[0x22, 0x00]);
    for depth in 1..=16 {
        m = step(m);
        assert_eq!(m.stack_depth(), depth);
    }
    assert_eq!(m.cycle().unwrap_err(), EmulationError::StackOverflow);
    // The failing cycle left the machine untouched.
    assert_eq!(m.stack_depth(), 16);
}

#[test]
fn return_on_empty_stack_underflows() {
    let m = boot(&[0x00, 0xEE]);
    assert_eq!(m.cycle().unwrap_err(), EmulationError::StackUnderflow);
}

#[test]
fn add_imm_wraps_without_flag() {
    let m = boot(&[0x60, 0xFF, 0x70, 0x02]);
    let m = step(step(m));
    assert_eq!(m.register(0), 0x01);
    assert_eq!(m.register(0xF), 0x00);
}

#[test]
fn add_reg_sets_carry_exactly_on_overflow() {
    let m = boot(&[0x60, 0xFF, 0x61, 0x02, 0x80, 0x14]);
    let m = step(step(step(m)));
    assert_eq!(m.register(0), 0x01);
    assert_eq!(m.register(0xF), 1);

    let m = boot(&[0x60, 0x10, 0x61, 0x02, 0x80, 0x14]);
    let m = step(step(step(m)));
    assert_eq!(m.register(0), 0x12);
    assert_eq!(m.register(0xF), 0);
}

#[test]
fn sub_reg_sets_not_borrow() {
    let m = boot(&[0x60, 0x05, 0x61, 0x03, 0x80, 0x15]);
    let m = step(step(step(m)));
    assert_eq!(m.register(0), 0x02);
    assert_eq!(m.register(0xF), 1);

    let m = boot(&[0x60, 0x03, 0x61, 0x05, 0x80, 0x15]);
    let m = step(step(step(m)));
    assert_eq!(m.register(0), 0xFE);
    assert_eq!(m.register(0xF), 0);
}

#[test]
fn subn_reg_is_the_mirror() {
    let m = boot(&[0x60, 0x03, 0x61, 0x05, 0x80, 0x17]);
    let m = step(step(step(m)));
    assert_eq!(m.register(0), 0x02);
    assert_eq!(m.register(0xF), 1);
}

#[test]
fn logic_ops() {
    let m = boot(&[0x60, 0x0C, 0x61, 0x0A, 0x80, 0x11]);
    let m = step(step(step(m)));
    assert_eq!(m.register(0), 0x0E);

    let m = boot(&[0x60, 0x0C, 0x61, 0x0A, 0x80, 0x12]);
    let m = step(step(step(m)));
    assert_eq!(m.register(0), 0x08);

    let m = boot(&[0x60, 0x0C, 0x61, 0x0A, 0x80, 0x13]);
    let m = step(step(step(m)));
    assert_eq!(m.register(0), 0x06);
}

#[test]
fn skip_family_advances_by_four_exactly_when_condition_holds() {
    // 3XNN taken.
    let m = step(step(boot(&[0x60, 0x05, 0x30, 0x05])));
    assert_eq!(m.pc(), 0x206);
    // 3XNN not taken.
    let m = step(step(boot(&[0x60, 0x05, 0x30, 0x06])));
    assert_eq!(m.pc(), 0x204);
    // 4XNN taken.
    let m = step(step(boot(&[0x60, 0x05, 0x40, 0x06])));
    assert_eq!(m.pc(), 0x206);
    // 4XNN not taken.
    let m = step(step(boot(&[0x60, 0x05, 0x40, 0x05])));
    assert_eq!(m.pc(), 0x204);
    // 5XY0 taken (V0 == V1 == 5).
    let m = step(step(step(boot(&[0x60, 0x05, 0x61, 0x05, 0x50, 0x10]))));
    assert_eq!(m.pc(), 0x208);
    // 9XY0 taken (V0 != V1).
    let m = step(step(step(boot(&[0x60, 0x05, 0x61, 0x06, 0x90, 0x10]))));
    assert_eq!(m.pc(), 0x208);
    // 9XY0 not taken.
    let m = step(step(step(boot(&[0x60, 0x05, 0x61, 0x05, 0x90, 0x10]))));
    assert_eq!(m.pc(), 0x206);
}

#[test]
fn move_copies_register() {
    let m = step(step(boot(&[0x61, 0x7E, 0x80, 0x10])));
    assert_eq!(m.register(0), 0x7E);
}

#[test]
fn shift_right_default_shifts_vx() {
    let m = step(step(boot(&[0x60, 0x05, 0x80, 0x16])));
    assert_eq!(m.register(0), 0x02);
    assert_eq!(m.register(0xF), 1);
}

#[test]
fn shift_left_default_shifts_vx() {
    let m = step(step(boot(&[0x60, 0x81, 0x80, 0x1E])));
    assert_eq!(m.register(0), 0x02);
    assert_eq!(m.register(0xF), 1);
}

#[test]
fn shift_quirk_moves_vy_into_vx() {
    let config = Configuration { shift_operations_sets_ry_into_rx: true, bnnn_is_bxnn: false };
    let m = Chip8Machine::with_configuration(
        Some(&[0x60, 0x05, 0x61, 0x02, 0x80, 0x16]),
        config,
        DEFAULT_SEED,
    )
    .unwrap();
    let m = step(step(step(m)));
    assert_eq!(m.register(0), 0x01);
    assert_eq!(m.register(0xF), 0);
}

#[test]
fn jump_offset_uses_v0_by_default() {
    let m = step(step(boot(&[0x60, 0x04, 0xB2, 0x30])));
    assert_eq!(m.pc(), 0x234);
}

#[test]
fn jump_offset_quirk_uses_vx() {
    let config = Configuration { shift_operations_sets_ry_into_rx: false, bnnn_is_bxnn: true };
    let m = Chip8Machine::with_configuration(
        Some(&[0x62, 0x08, 0xB2, 0x30]),
        config,
        DEFAULT_SEED,
    )
    .unwrap();
    let m = step(step(m));
    assert_eq!(m.pc(), 0x238);
}

#[test]
fn load_index_and_add_index() {
    let m = step(step(step(boot(&[0xA1, 0x00, 0x60, 0x05, 0xF0, 0x1E]))));
    assert_eq!(m.index(), 0x105);
}

#[test]
fn font_address_for_digit() {
    let m = step(step(boot(&[0x60, 0x0A, 0xF0, 0x29])));
    assert_eq!(m.index(), 0x50 + 10 * 5);
}

#[test]
fn bcd_decomposes_into_three_digits() {
    let m = step(step(step(boot(&[0x60, 0xEA, 0xA3, 0x00, 0xF0, 0x33]))));
    assert_eq!(m.memory_byte(0x300).unwrap(), 2);
    assert_eq!(m.memory_byte(0x301).unwrap(), 3);
    assert_eq!(m.memory_byte(0x302).unwrap(), 4);
}

#[test]
fn store_and_load_registers() {
    let m = boot(&[
        0x60, 0x0A, 0x61, 0x0B, 0x62, 0x0C, 0xA3, 0x00, 0xF2, 0x55, 0x60, 0x00, 0x61, 0x00, 0x62,
        0x00, 0xF2, 0x65,
    ]);
    let mut m = m;
    for _ in 0..5 {
        m = step(m);
    }
    assert_eq!(m.memory_byte(0x300).unwrap(), 0x0A);
    assert_eq!(m.memory_byte(0x301).unwrap(), 0x0B);
    assert_eq!(m.memory_byte(0x302).unwrap(), 0x0C);
    for _ in 0..4 {
        m = step(m);
    }
    assert_eq!(m.register(0), 0x0A);
    assert_eq!(m.register(1), 0x0B);
    assert_eq!(m.register(2), 0x0C);
}

#[test]
fn draw_wraps_both_coordinates_and_reports_collision() {
    // Glyph 0 (F0 90 90 90 F0) drawn at column 60, row 30: it wraps.
    let m = boot(&[0x60, 0x3C, 0x61, 0x1E, 0xA0, 0x50, 0xD0, 0x15, 0xD0, 0x15]);
    let m = step(step(step(m)));
    let out = m.cycle().unwrap();
    assert!(out.display_dirty);
    let m = out.new_state;
    // Row 30, byte 0xF0: leftmost four sprite bits lit at columns 60..63.
    for col in 60..64 {
        assert!(lit(&m, 30, col));
    }
    // Bits 4..7 of 0xF0 are clear: wrapped columns 0..3 stay dark.
    for col in 0..4 {
        assert!(!lit(&m, 30, col));
    }
    // Row 31, byte 0x90: bits 0 and 3.
    assert!(lit(&m, 31, 60));
    assert!(!lit(&m, 31, 61));
    assert!(!lit(&m, 31, 62));
    assert!(lit(&m, 31, 63));
    // Rows 32 and 33 wrap to rows 0 and 1 (bytes 0x90).
    assert!(lit(&m, 0, 60));
    assert!(lit(&m, 0, 63));
    assert!(lit(&m, 1, 60));
    assert!(lit(&m, 1, 63));
    // Row 34 wraps to row 2, byte 0xF0.
    for col in 60..64 {
        assert!(lit(&m, 2, col));
    }
    // No lit pixel was overdrawn on a blank screen.
    assert_eq!(m.register(0xF), 0);
    // Drawing the same sprite again erases it and reports the collision.
    let m = step(m);
    assert_eq!(m.register(0xF), 1);
    for row in 0..32 {
        for col in 0..64 {
            assert!(!lit(&m, row, col));
        }
    }
}

#[test]
fn draw_of_zero_rows_changes_nothing() {
    let m = step(step(boot(&[0xA0, 0x50, 0xD0, 0x10])));
    assert_eq!(m.register(0xF), 0);
    for row in 0..32 {
        for col in 0..64 {
            assert!(!lit(&m, row, col));
        }
    }
}

#[test]
fn skip_if_key_down_and_up() {
    // V0 = 7; EX9E skips when key 7 is pressed.
    let mut m = boot(&[0x60, 0x07, 0xE0, 0x9E]);
    m.set_pressed_keys(1 << 7);
    let m = step(step(m));
    assert_eq!(m.pc(), 0x206);

    let mut m = boot(&[0x60, 0x07, 0xE0, 0x9E]);
    m.set_pressed_keys(1 << 6);
    let m = step(step(m));
    assert_eq!(m.pc(), 0x204);

    // EXA1 skips when the key is not pressed.
    let mut m = boot(&[0x60, 0x07, 0xE0, 0xA1]);
    m.set_pressed_keys(0);
    let m = step(step(m));
    assert_eq!(m.pc(), 0x206);
}

#[test]
fn wait_key_suspends_until_a_key_event() {
    let m = boot(&[0xF5, 0x0A, 0x60, 0x01]);
    let out = m.cycle().unwrap();
    assert!(out.waiting_for_key);
    let m = out.new_state;
    assert!(m.is_waiting_for_key());
    // Further cycles report the wait and change nothing.
    let out = m.cycle().unwrap();
    assert!(out.waiting_for_key);
    let m = out.new_state;
    assert_eq!(m.pc(), 0x202);
    // The key event resolves the wait into V5.
    let mut m = m;
    m.key_event(0xB);
    assert!(!m.is_waiting_for_key());
    assert_eq!(m.register(5), 0xB);
    // Execution resumes.
    let m = step(m);
    assert_eq!(m.register(0), 1);
}

#[test]
fn timers_count_down_to_zero_and_stop() {
    let mut m = step(step(step(boot(&[0x60, 0x03, 0xF0, 0x15, 0xF0, 0x18]))));
    assert_eq!(m.delay(), 3);
    assert_eq!(m.sound(), 3);
    for expected in [2u8, 1, 0, 0] {
        m.tick_timers();
        assert_eq!(m.delay(), expected);
        assert_eq!(m.sound(), expected);
    }
}

#[test]
fn read_delay_into_register() {
    let mut m = step(step(boot(&[0x60, 0x09, 0xF0, 0x15, 0xF1, 0x07])));
    m.tick_timers();
    let m = step(m);
    assert_eq!(m.register(1), 8);
}

#[test]
fn unknown_instruction_is_fatal_with_the_raw_word() {
    let m = boot(&[0xFF, 0xFF]);
    assert_eq!(
        m.cycle().unwrap_err(),
        EmulationError::UnknownInstruction(0xFFFF)
    );
    // The machine itself is untouched.
    assert_eq!(m.pc(), 0x200);
}

#[test]
fn native_call_is_unsupported() {
    let m = boot(&[0x01, 0x23]);
    assert_eq!(m.cycle().unwrap_err(), EmulationError::UnsupportedNativeCall);
}

#[test]
fn bcd_past_the_end_of_memory_is_fatal() {
    let m = step(boot(&[0xAF, 0xFF, 0xF0, 0x33]));
    assert_eq!(m.cycle().unwrap_err(), EmulationError::MemoryOutOfBounds);
}

#[test]
fn draw_past_the_end_of_memory_is_fatal() {
    let m = step(boot(&[0xAF, 0xFF, 0xD0, 0x15]));
    assert_eq!(m.cycle().unwrap_err(), EmulationError::MemoryOutOfBounds);
}

#[test]
fn fetch_at_the_last_byte_is_fatal() {
    let m = step(boot(&[0x1F, 0xFF]));
    assert_eq!(m.pc(), 0xFFF);
    assert_eq!(m.cycle().unwrap_err(), EmulationError::MemoryOutOfBounds);
}

#[test]
fn program_too_large_is_rejected_at_load() {
    let too_big = vec![0u8; 4096 - 0x200 + 1];
    assert_eq!(
        init_chip8machine(Some(&too_big)).unwrap_err(),
        EmulationError::ProgramTooLarge
    );
    let just_fits = vec![0u8; 4096 - 0x200];
    assert!(init_chip8machine(Some(&just_fits)).is_ok());
}

#[test]
fn machine_without_program_starts_at_the_entry_point() {
    let m = init_chip8machine(None).unwrap();
    assert_eq!(m.pc(), 0x200);
    // The font is still loaded: glyph 0 begins with 0xF0 at 0x050.
    assert_eq!(m.memory_byte(0x50).unwrap(), 0xF0);
}

#[test]
fn random_masks_with_nn() {
    // CXNN with NN = 0x0F leaves only the low nibble.
    let m = step(boot(&[0xC0, 0x0F]));
    assert!(m.register(0) <= 0x0F);
}

fn same_observable_state(a: &Chip8Machine, b: &Chip8Machine) -> bool {
    if a.pc() != b.pc() || a.index() != b.index() || a.stack_depth() != b.stack_depth() {
        return false;
    }
    if a.delay() != b.delay() || a.sound() != b.sound() {
        return false;
    }
    for i in 0..16 {
        if a.register(i) != b.register(i) {
            return false;
        }
    }
    for row in 0..32 {
        for col in 0..64 {
            if a.pixel(row, col) != b.pixel(row, col) {
                return false;
            }
        }
    }
    true
}

#[test]
fn identical_machines_stay_identical() {
    // A loop that draws randomness onto the screen: random byte, draw,
    // jump back.
    let program = [0xC0, 0x3F, 0xC1, 0x1F, 0xA0, 0x55, 0xD0, 0x13, 0x12, 0x00];
    let mut a = boot(&program);
    let mut b = boot(&program);
    a.set_pressed_keys(0x0042);
    b.set_pressed_keys(0x0042);
    for _ in 0..40 {
        assert!(same_observable_state(&a, &b));
        a = step(a);
        b = step(b);
    }
    assert!(same_observable_state(&a, &b));
}

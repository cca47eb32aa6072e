use chipr_lib::display::{Display, MonochromePixel};
use chipr_lib::error::EmulationError;
use chipr_lib::machine::init_chip8machine;
use chipr_lib::memory::Memory;
use chipr_lib::ops::Operation;
use chipr_lib::registers::Registers;

#[test]
fn memory_starts_zeroed_and_is_bounds_checked() {
    let mut mem = Memory::new();
    assert_eq!(mem.read(0).unwrap(), 0);
    assert_eq!(mem.read(4095).unwrap(), 0);
    assert_eq!(mem.read(4096), Err(EmulationError::MemoryOutOfBounds));
    assert!(mem.write(4095, 0xAB).is_ok());
    assert_eq!(mem.read(4095).unwrap(), 0xAB);
    assert_eq!(mem.write(4096, 1), Err(EmulationError::MemoryOutOfBounds));
}

#[test]
fn memory_places_font_and_program() {
    let font = [7u8; 80];
    let program = [0x12u8, 0x34];
    let mem = Memory::new_with_program_and_font(Some(&program), Some(&font)).unwrap();
    assert_eq!(mem.read(0x4F).unwrap(), 0);
    assert_eq!(mem.read(0x50).unwrap(), 7);
    assert_eq!(mem.read(0x9F).unwrap(), 7);
    assert_eq!(mem.read(0xA0).unwrap(), 0);
    assert_eq!(mem.read(0x200).unwrap(), 0x12);
    assert_eq!(mem.read(0x201).unwrap(), 0x34);
    assert_eq!(mem.read(0x202).unwrap(), 0);
}

#[test]
fn memory_rejects_an_oversized_program() {
    let program = vec![1u8; 4096 - 0x200 + 1];
    assert!(matches!(
        Memory::new_with_program_and_font(Some(&program), None),
        Err(EmulationError::ProgramTooLarge)
    ));
}

#[test]
fn registers_update_is_functional() {
    let bank = Registers::new();
    for i in 0..16 {
        assert_eq!(bank.get(i), 0);
    }
    let bank2 = bank.update(3, 0x5A);
    assert_eq!(bank2.get(3), 0x5A);
    assert_eq!(bank.get(3), 0);
    for i in 0..16 {
        if i != 3 {
            assert_eq!(bank2.get(i), 0);
        }
    }
}

#[test]
fn display_starts_black() {
    let d = Display::new();
    for row in 0..32 {
        for col in 0..64 {
            assert_eq!(d.pixel_at(row, col), MonochromePixel::Black);
        }
    }
}

#[test]
fn fetch_reads_big_endian_at_pc() {
    let m = init_chip8machine(Some(&[0x6A, 0x02])).unwrap();
    assert_eq!(m.fetch().unwrap(), Operation::LoadImm(0xA, 0x02));
}

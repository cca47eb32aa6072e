use chipr_lib::error::EmulationError;
use chipr_lib::ops::{OpCode, Operation};

#[test]
fn it_works() {
    let result = chipr_lib::add(2, 2);
    assert_eq!(result, 4);
}

#[test]
fn opcode_build_is_big_endian() {
    let op = OpCode::build(0x12, 0x24);
    assert_eq!(op.get_nnn(), 0x224);
    assert_eq!(op.nibbles(), (0x1, 0x2, 0x2, 0x4));
}

#[test]
fn opcode_nnn_masks_high_nibble() {
    let op = OpCode::build(0xAF, 0xFF);
    assert_eq!(op.get_nnn(), 0xFFF);
    assert_eq!(op.nibbles(), (0xA, 0xF, 0xF, 0xF));
}

#[test]
fn decode_covers_the_table() {
    assert_eq!(chipr_lib::ops::decode(0x00E0), Ok(Operation::ClearScreen));
    assert_eq!(chipr_lib::ops::decode(0x00EE), Ok(Operation::Return));
    assert_eq!(chipr_lib::ops::decode(0x1224), Ok(Operation::Jump(0x224)));
    assert_eq!(chipr_lib::ops::decode(0x2ABC), Ok(Operation::Call(0xABC)));
    assert_eq!(chipr_lib::ops::decode(0x3A7F), Ok(Operation::SkipEqImm(0xA, 0x7F)));
    assert_eq!(chipr_lib::ops::decode(0x4A7F), Ok(Operation::SkipNeqImm(0xA, 0x7F)));
    assert_eq!(chipr_lib::ops::decode(0x5AB0), Ok(Operation::SkipEqReg(0xA, 0xB)));
    assert_eq!(chipr_lib::ops::decode(0x6C42), Ok(Operation::LoadImm(0xC, 0x42)));
    assert_eq!(chipr_lib::ops::decode(0x7C42), Ok(Operation::AddImm(0xC, 0x42)));
    assert_eq!(chipr_lib::ops::decode(0x8AB0), Ok(Operation::Move(0xA, 0xB)));
    assert_eq!(chipr_lib::ops::decode(0x8AB1), Ok(Operation::Or(0xA, 0xB)));
    assert_eq!(chipr_lib::ops::decode(0x8AB2), Ok(Operation::And(0xA, 0xB)));
    assert_eq!(chipr_lib::ops::decode(0x8AB3), Ok(Operation::Xor(0xA, 0xB)));
    assert_eq!(chipr_lib::ops::decode(0x8AB4), Ok(Operation::AddReg(0xA, 0xB)));
    assert_eq!(chipr_lib::ops::decode(0x8AB5), Ok(Operation::SubReg(0xA, 0xB)));
    assert_eq!(chipr_lib::ops::decode(0x8AB6), Ok(Operation::ShiftRight(0xA, 0xB)));
    assert_eq!(chipr_lib::ops::decode(0x8AB7), Ok(Operation::SubnReg(0xA, 0xB)));
    assert_eq!(chipr_lib::ops::decode(0x8ABE), Ok(Operation::ShiftLeft(0xA, 0xB)));
    assert_eq!(chipr_lib::ops::decode(0x9AB0), Ok(Operation::SkipNeqReg(0xA, 0xB)));
    assert_eq!(chipr_lib::ops::decode(0xA123), Ok(Operation::LoadIndex(0x123)));
    assert_eq!(chipr_lib::ops::decode(0xB123), Ok(Operation::JumpOffset(0x1, 0x123)));
    assert_eq!(chipr_lib::ops::decode(0xC277), Ok(Operation::Random(0x2, 0x77)));
    assert_eq!(chipr_lib::ops::decode(0xD125), Ok(Operation::Draw(0x1, 0x2, 0x5)));
    assert_eq!(chipr_lib::ops::decode(0xE39E), Ok(Operation::SkipIfKeyDown(0x3)));
    assert_eq!(chipr_lib::ops::decode(0xE3A1), Ok(Operation::SkipIfKeyUp(0x3)));
    assert_eq!(chipr_lib::ops::decode(0xF407), Ok(Operation::ReadDelay(0x4)));
    assert_eq!(chipr_lib::ops::decode(0xF40A), Ok(Operation::WaitKey(0x4)));
    assert_eq!(chipr_lib::ops::decode(0xF415), Ok(Operation::SetDelay(0x4)));
    assert_eq!(chipr_lib::ops::decode(0xF418), Ok(Operation::SetSound(0x4)));
    assert_eq!(chipr_lib::ops::decode(0xF41E), Ok(Operation::AddIndex(0x4)));
    assert_eq!(chipr_lib::ops::decode(0xF429), Ok(Operation::LoadFontAddr(0x4)));
    assert_eq!(chipr_lib::ops::decode(0xF433), Ok(Operation::StoreBcd(0x4)));
    assert_eq!(chipr_lib::ops::decode(0xF455), Ok(Operation::StoreRegisters(0x4)));
    assert_eq!(chipr_lib::ops::decode(0xF465), Ok(Operation::LoadRegisters(0x4)));
}

#[test]
fn decode_yields_the_two_named_errors() {
    assert_eq!(
        chipr_lib::ops::decode(0x0123),
        Err(EmulationError::UnsupportedNativeCall)
    );
    assert_eq!(
        chipr_lib::ops::decode(0x5AB1),
        Err(EmulationError::UnknownInstruction(0x5AB1))
    );
    assert_eq!(
        chipr_lib::ops::decode(0xFFFF),
        Err(EmulationError::UnknownInstruction(0xFFFF))
    );
}

#[test]
fn decode_is_total_over_all_raw_words() {
    let mut defined = 0u32;
    for raw in 0u32..=0xFFFF {
        let raw = raw as u16;
        match chipr_lib::ops::decode(raw) {
            Ok(_) => defined += 1,
            Err(EmulationError::UnsupportedNativeCall) => {}
            Err(EmulationError::UnknownInstruction(w)) => assert_eq!(w, raw),
            Err(other) => panic!("decode produced a non-decode error: {:?}", other),
        }
    }
    assert!(defined > 0);
}

use chip8::opcodesv2::InstructionV2;
use chip8::ophandlers::{
    handle0x00E0, handle0x00EE, handle0x0NNN, handle0x1NNN, handle0x2NNN, handle0x3XNN,
    handle0x4XNN, handle0x5XY0, handle0x6XNN, handle0x7XNN, handle0x8XY0, handle0x8XY1,
    handle0x8XY2, handle0x8XY3, handle0x8XY4, handle0x8XY5, handle0x8XY6, handle0x8XY7,
    handle0x8XYE, handle0x9XY0, handle0xANNN, handle0xBNNN, handle0xCXNN, handle0xDXYN,
    handle0xEX9E, handle0xEXA1, handle0xFX07, handle0xFX0A, handle0xFX15, handle0xFX18,
    handle0xFX1E, handle0xFX29, handle0xFX33, handle0xFX55, handle0xFX65,
};

#[test]
fn test_handlers_without_operands() {
    assert_eq!(handle0x00E0(0x00E0), InstructionV2::ClearScreen);
    assert_eq!(handle0x00EE(0x00EE), InstructionV2::Return);
    assert_eq!(handle0x0NNN(0x0123), InstructionV2::SYS);
}

#[test]
fn test_handlers_with_an_address() {
    assert_eq!(handle0x1NNN(0x1ABC), InstructionV2::Jump(0xABC));
    assert_eq!(handle0x2NNN(0x2DEF), InstructionV2::Call(0xDEF));
    assert_eq!(handle0xANNN(0xA123), InstructionV2::LoadImmediate(0x123));
    assert_eq!(handle0xBNNN(0xB000), InstructionV2::JumpBase(0x000));
    assert_eq!(handle0x1NNN(0x1FFF), InstructionV2::Jump(0xFFF));
}

#[test]
fn test_handlers_with_a_register_and_a_byte() {
    assert_eq!(handle0x3XNN(0x3D6B), InstructionV2::SkipEqualsByte(0xD, 0x6B));
    assert_eq!(handle0x4XNN(0x4D6B), InstructionV2::SkipNotEqualsByte(0xD, 0x6B));
    assert_eq!(handle0x6XNN(0x6AFF), InstructionV2::LoadByte(0xA, 0xFF));
    assert_eq!(handle0x7XNN(0x7001), InstructionV2::AddByte(0x0, 0x01));
    assert_eq!(handle0xCXNN(0xCF10), InstructionV2::Random(0xF, 0x10));
}

#[test]
fn test_handlers_with_two_registers() {
    assert_eq!(handle0x5XY0(0x5DB0), InstructionV2::SkipEqualsRegister(0xD, 0xB));
    assert_eq!(handle0x8XY0(0x8DB0), InstructionV2::LoadRegister(0xD, 0xB));
    assert_eq!(handle0x8XY1(0x8DB1), InstructionV2::Or(0xD, 0xB));
    assert_eq!(handle0x8XY2(0x8DB2), InstructionV2::And(0xD, 0xB));
    assert_eq!(handle0x8XY3(0x8DB3), InstructionV2::Xor(0xD, 0xB));
    assert_eq!(handle0x8XY4(0x8DB4), InstructionV2::AddRegister(0xD, 0xB));
    assert_eq!(handle0x8XY5(0x8DB5), InstructionV2::SubRegister(0xD, 0xB));
    assert_eq!(handle0x8XY7(0x8DB7), InstructionV2::SubNRegister(0xD, 0xB));
    assert_eq!(handle0x9XY0(0x9DB0), InstructionV2::SkipNotEqualRegister(0xD, 0xB));
}

#[test]
fn test_shift_handlers_keep_the_first_register_only() {
    assert_eq!(handle0x8XY6(0x8DB6), InstructionV2::ShiftRight(0xD));
    assert_eq!(handle0x8XYE(0x8DBE), InstructionV2::ShiftLeft(0xD));
}

#[test]
fn test_sprite_handler_takes_three_nibbles() {
    assert_eq!(handle0xDXYN(0xDDB5), InstructionV2::DisplaySprite(0xD, 0xB, 0x5));
    assert_eq!(handle0xDXYN(0xD01F), InstructionV2::DisplaySprite(0x0, 0x1, 0xF));
}

#[test]
fn test_handlers_with_one_register() {
    assert_eq!(handle0xEX9E(0xED9E), InstructionV2::SkipKeyPress(0xD));
    assert_eq!(handle0xEXA1(0xEDA1), InstructionV2::SkipNotKeyPress(0xD));
    assert_eq!(handle0xFX07(0xFD07), InstructionV2::LoadFromDelay(0xD));
    assert_eq!(handle0xFX0A(0xFD0A), InstructionV2::LoadKeyPress(0xD));
    assert_eq!(handle0xFX15(0xFD15), InstructionV2::LoadDelay(0xD));
    assert_eq!(handle0xFX18(0xFD18), InstructionV2::LoadSound(0xD));
    assert_eq!(handle0xFX1E(0xFD1E), InstructionV2::AddI(0xD));
    assert_eq!(handle0xFX29(0xFD29), InstructionV2::LoadFontSprite(0xD));
    assert_eq!(handle0xFX33(0xFD33), InstructionV2::LoadIBCD(0xD));
    assert_eq!(handle0xFX55(0xFD55), InstructionV2::StoreRegisters(0xD));
    assert_eq!(handle0xFX65(0xFD65), InstructionV2::LoadRegisters(0xD));
}

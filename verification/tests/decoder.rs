use chip8::decoder::{decode, DecodeError};
use chip8::opcodes::Instruction;
use chip8::opcodesv2::{opcode_table, InstructionV2};

#[test]
fn test_decode_zero_is_no_op() {
    assert_eq!(decode(0x0000), Ok(Instruction::NoOp));
}

#[test]
fn test_decode_only_zero_is_no_op() {
    for word in 1..=u16::MAX {
        assert_ne!(decode(word), Ok(Instruction::NoOp));
    }
}

#[test]
fn test_decode_each_family() {
    assert_eq!(decode(0x00E0), Ok(Instruction::ClearScreen));
    assert_eq!(decode(0x00EE), Ok(Instruction::Return));
    assert_eq!(decode(0x06B5), Ok(Instruction::SYS));
    assert_eq!(decode(0x1ABC), Ok(Instruction::Jump(0xABC)));
    assert_eq!(decode(0x26B5), Ok(Instruction::Call(0x6B5)));
    assert_eq!(decode(0x3D6B), Ok(Instruction::SkipEqualsByte(0xD, 0x6B)));
    assert_eq!(decode(0x4D6B), Ok(Instruction::SkipNotEqualsByte(0xD, 0x6B)));
    assert_eq!(decode(0x5DB0), Ok(Instruction::SkipEqualsRegister(0xD, 0xB)));
    assert_eq!(decode(0x6D6B), Ok(Instruction::LoadByte(0xD, 0x6B)));
    assert_eq!(decode(0x7D6B), Ok(Instruction::AddByte(0xD, 0x6B)));
    assert_eq!(decode(0x8DB0), Ok(Instruction::LoadRegister(0xD, 0xB)));
    assert_eq!(decode(0x8DB1), Ok(Instruction::Or(0xD, 0xB)));
    assert_eq!(decode(0x8DB2), Ok(Instruction::And(0xD, 0xB)));
    assert_eq!(decode(0x8DB3), Ok(Instruction::Xor(0xD, 0xB)));
    assert_eq!(decode(0x8DB4), Ok(Instruction::AddRegister(0xD, 0xB)));
    assert_eq!(decode(0x8DB5), Ok(Instruction::SubRegister(0xD, 0xB)));
    assert_eq!(decode(0x8DB6), Ok(Instruction::ShiftRight(0xD)));
    assert_eq!(decode(0x8DB7), Ok(Instruction::SubNRegister(0xD, 0xB)));
    assert_eq!(decode(0x8DBE), Ok(Instruction::ShiftLeft(0xD)));
    assert_eq!(decode(0x9DB0), Ok(Instruction::SkipNotEqualRegister(0xD, 0xB)));
    assert_eq!(decode(0xA6B5), Ok(Instruction::LoadImmediate(0x6B5)));
    assert_eq!(decode(0xB6B5), Ok(Instruction::JumpBase(0x6B5)));
    assert_eq!(decode(0xCD6B), Ok(Instruction::Random(0xD, 0x6B)));
    assert_eq!(decode(0xDDB5), Ok(Instruction::DisplaySprite(0xD, 0xB, 0x5)));
    assert_eq!(decode(0xED9E), Ok(Instruction::SkipKeyPress(0xD)));
    assert_eq!(decode(0xEDA1), Ok(Instruction::SkipNotKeyPress(0xD)));
    assert_eq!(decode(0xFD07), Ok(Instruction::LoadFromDelay(0xD)));
    assert_eq!(decode(0xFD0A), Ok(Instruction::LoadKeyPress(0xD)));
    assert_eq!(decode(0xFD15), Ok(Instruction::LoadDelay(0xD)));
    assert_eq!(decode(0xFD18), Ok(Instruction::LoadSound(0xD)));
    assert_eq!(decode(0xFD1E), Ok(Instruction::AddI(0xD)));
    assert_eq!(decode(0xFD29), Ok(Instruction::LoadFontSprite(0xD)));
    assert_eq!(decode(0xFD33), Ok(Instruction::LoadIBCD(0xD)));
    assert_eq!(decode(0xFD55), Ok(Instruction::StoreRegisters(0xD)));
    assert_eq!(decode(0xFD65), Ok(Instruction::LoadRegisters(0xD)));
}

#[test]
fn test_decode_exact_patterns_are_not_sys() {
    assert_eq!(decode(0x00E0), Ok(Instruction::ClearScreen));
    assert_eq!(decode(0x00EE), Ok(Instruction::Return));
    assert_ne!(decode(0x00E0), Ok(Instruction::SYS));
    assert_ne!(decode(0x00EE), Ok(Instruction::SYS));
    assert_eq!(decode(0x00EF), Ok(Instruction::SYS));
    assert_eq!(decode(0x0001), Ok(Instruction::SYS));
}

#[test]
fn test_decode_unknown_opcodes() {
    assert_eq!(decode(0xFC14), Err(DecodeError::UnknownOpcode(0xFC14)));
    assert_eq!(decode(0xEB8E), Err(DecodeError::UnknownOpcode(0xEB8E)));
}

#[test]
fn test_decode_selectors_without_operation() {
    assert_eq!(decode(0x5AB1), Err(DecodeError::UnknownOpcode(0x5AB1)));
    assert_eq!(decode(0x8AB8), Err(DecodeError::UnknownOpcode(0x8AB8)));
    assert_eq!(decode(0x8ABF), Err(DecodeError::UnknownOpcode(0x8ABF)));
    assert_eq!(decode(0x9AB1), Err(DecodeError::UnknownOpcode(0x9AB1)));
    // the key instructions are told apart by the whole low byte
    assert_eq!(decode(0xE0A2), Err(DecodeError::UnknownOpcode(0xE0A2)));
    assert_eq!(decode(0xE001), Err(DecodeError::UnknownOpcode(0xE001)));
    assert_eq!(decode(0xE011), Err(DecodeError::UnknownOpcode(0xE011)));
    assert_eq!(decode(0xF000), Err(DecodeError::UnknownOpcode(0xF000)));
    assert_eq!(decode(0xFFFF), Err(DecodeError::UnknownOpcode(0xFFFF)));
}

#[test]
fn test_decode_is_one_of_three_outcomes() {
    let table = opcode_table();
    let mut unknown = 0u32;
    for word in 0..=u16::MAX {
        let hits = table.iter().filter(|entry| entry.is_match(word)).count();
        match decode(word) {
            Ok(Instruction::NoOp) => assert_eq!(word, 0),
            Ok(ins) => {
                assert_ne!(word, 0);
                let first = table.iter().find(|entry| entry.is_match(word)).unwrap();
                assert_eq!(ins, Instruction::from_v2(first.family.handle(word)));
                if word == 0x00E0 || word == 0x00EE {
                    assert_eq!(hits, 2);
                } else {
                    assert_eq!(hits, 1);
                }
            }
            Err(DecodeError::UnknownOpcode(carried)) => {
                assert_eq!(carried, word);
                assert_eq!(hits, 0);
                unknown += 1;
            }
        }
    }
    // classes 5 and 9 keep 1 selector of 16, class 8 keeps 9 of 16,
    // class E 2 of 256 and class F 9 of 256
    let expected = 2 * 15 * 256 + 7 * 256 + (256 - 2) * 16 + (256 - 9) * 16;
    assert_eq!(unknown, expected);
}

#[test]
fn test_decode_is_repeatable() {
    for word in [0x0000u16, 0x00E0, 0x1ABC, 0x8DB5, 0xDDB5, 0xFC14, 0xFFFF] {
        assert_eq!(decode(word), decode(word));
    }
}

#[test]
fn test_class_switch_each_class() {
    assert_eq!(Instruction::try_from(0x0000), Ok(Instruction::NoOp));
    assert_eq!(Instruction::try_from(0x00E0), Ok(Instruction::ClearScreen));
    assert_eq!(Instruction::try_from(0x00EE), Ok(Instruction::Return));
    assert_eq!(Instruction::try_from(0x01E0), Ok(Instruction::SYS));
    assert_eq!(Instruction::try_from(0x1ABC), Ok(Instruction::Jump(0xABC)));
    assert_eq!(Instruction::try_from(0x2ABC), Ok(Instruction::Call(0xABC)));
    assert_eq!(Instruction::try_from(0x3A12), Ok(Instruction::SkipEqualsByte(0xA, 0x12)));
    assert_eq!(Instruction::try_from(0x4A12), Ok(Instruction::SkipNotEqualsByte(0xA, 0x12)));
    assert_eq!(Instruction::try_from(0x5A10), Ok(Instruction::SkipEqualsRegister(0xA, 0x1)));
    assert_eq!(Instruction::try_from(0x6A12), Ok(Instruction::LoadByte(0xA, 0x12)));
    assert_eq!(Instruction::try_from(0x7A12), Ok(Instruction::AddByte(0xA, 0x12)));
    assert_eq!(Instruction::try_from(0x8A14), Ok(Instruction::AddRegister(0xA, 0x1)));
    assert_eq!(Instruction::try_from(0x8A1E), Ok(Instruction::ShiftLeft(0xA)));
    assert_eq!(Instruction::try_from(0x9A10), Ok(Instruction::SkipNotEqualRegister(0xA, 0x1)));
    assert_eq!(Instruction::try_from(0xAABC), Ok(Instruction::LoadImmediate(0xABC)));
    assert_eq!(Instruction::try_from(0xBABC), Ok(Instruction::JumpBase(0xABC)));
    assert_eq!(Instruction::try_from(0xCA12), Ok(Instruction::Random(0xA, 0x12)));
    assert_eq!(Instruction::try_from(0xDA12), Ok(Instruction::DisplaySprite(0xA, 0x1, 0x2)));
    assert_eq!(Instruction::try_from(0xEA9E), Ok(Instruction::SkipKeyPress(0xA)));
    assert_eq!(Instruction::try_from(0xEAA1), Ok(Instruction::SkipNotKeyPress(0xA)));
    assert_eq!(Instruction::try_from(0xFA33), Ok(Instruction::LoadIBCD(0xA)));
}

#[test]
fn test_class_switch_message_shows_the_word() {
    assert_eq!(Instruction::try_from(0x8AB8), Err(String::from("Invalid opcode: 8AB8")));
    assert_eq!(Instruction::try_from(0x5AB1), Err(String::from("Invalid opcode: 5AB1")));
    assert_eq!(Instruction::try_from(0xEB8E), Err(String::from("Invalid opcode: EB8E")));
    assert_eq!(Instruction::try_from(0xFC14), Err(String::from("Invalid opcode: FC14")));
}

#[test]
fn test_decoders_agree_on_every_word() {
    for word in 0..=u16::MAX {
        let by_table = InstructionV2::try_from(word);
        let by_class = Instruction::try_from(word);
        match decode(word) {
            Ok(ins) => {
                assert_eq!(by_class, Ok(ins));
                assert_eq!(by_table.map(Instruction::from_v2), Ok(ins));
            }
            Err(DecodeError::UnknownOpcode(carried)) => {
                assert_eq!(carried, word);
                assert_eq!(by_table, Err(format!("Opcode not found: {:X}", word)));
                assert_eq!(by_class, Err(format!("Invalid opcode: {:X}", word)));
            }
        }
    }
}

#[test]
fn test_from_v2_keeps_variant_and_operands() {
    assert_eq!(Instruction::from_v2(InstructionV2::NoOp), Instruction::NoOp);
    assert_eq!(Instruction::from_v2(InstructionV2::Return), Instruction::Return);
    assert_eq!(Instruction::from_v2(InstructionV2::Jump(0xABC)), Instruction::Jump(0xABC));
    assert_eq!(
        Instruction::from_v2(InstructionV2::DisplaySprite(1, 2, 3)),
        Instruction::DisplaySprite(1, 2, 3)
    );
    assert_eq!(
        Instruction::from_v2(InstructionV2::SubNRegister(0xD, 0xB)),
        Instruction::SubNRegister(0xD, 0xB)
    );
    assert_eq!(
        Instruction::from_v2(InstructionV2::LoadRegisters(7)),
        Instruction::LoadRegisters(7)
    );
}

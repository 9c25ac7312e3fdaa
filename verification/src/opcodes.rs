//! The instruction set, decoded by a switch on the opcode class.
//!
//! `Instruction::try_from` reads the class nibble, then the selector nibble
//! or byte where the class has one. It is proved to decode exactly as the
//! opcode table does.

use vstd::prelude::*;
use crate::bitmasks::{
    lemma_fields_are_digits, mask_000F, mask_00F0, mask_00FF, mask_0F00, mask_0FFF, mask_F000,
};
use crate::hex::{append_upper_hex, upper_hex};
use crate::opcodesv2::{
    decode_by_table, lemma_match_by_fields, lookup_spec, scan, InstructionV2, OpcodeFamily,
};

verus! {

/// A memory address: twelve bits.
pub type Address = u16;

/// A register index: four bits, `V0` to `VF`.
pub type Register = u8;

/// An eight-bit immediate.
pub type Data = u8;

/// A four-bit immediate: the height of a sprite.
pub type Nibble = u8;

/// One decoded operation, with the operands its encoding carries, or the
/// idle-fetch sentinel `NoOp` that stands for the all-zero word.
#[derive(Clone, Copy, Debug, PartialEq, Eq, Structural)]
pub enum Instruction {
    /// The all-zero word: no instruction.
    NoOp,
    /// `00E0 - CLS`
    ClearScreen,
    /// `00EE - RET`
    Return,
    /// `0nnn - SYS addr`
    SYS,
    /// `1nnn - JP addr`
    Jump(Address),
    /// `2nnn - CALL addr`
    Call(Address),
    /// `3xkk - SE Vx, byte`
    SkipEqualsByte(Register, Data),
    /// `4xkk - SNE Vx, byte`
    SkipNotEqualsByte(Register, Data),
    /// `5xy0 - SE Vx, Vy`
    SkipEqualsRegister(Register, Register),
    /// `6xkk - LD Vx, byte`
    LoadByte(Register, Data),
    /// `7xkk - ADD Vx, byte`
    AddByte(Register, Data),
    /// `8xy0 - LD Vx, Vy`
    LoadRegister(Register, Register),
    /// `8xy1 - OR Vx, Vy`
    Or(Register, Register),
    /// `8xy2 - AND Vx, Vy`
    And(Register, Register),
    /// `8xy3 - XOR Vx, Vy`
    Xor(Register, Register),
    /// `8xy4 - ADD Vx, Vy`
    AddRegister(Register, Register),
    /// `8xy5 - SUB Vx, Vy`
    SubRegister(Register, Register),
    /// `8xy6 - SHR Vx`
    ShiftRight(Register),
    /// `8xy7 - SUBN Vx, Vy`
    SubNRegister(Register, Register),
    /// `8xyE - SHL Vx`
    ShiftLeft(Register),
    /// `9xy0 - SNE Vx, Vy`
    SkipNotEqualRegister(Register, Register),
    /// `Annn - LD I, addr`
    LoadImmediate(Address),
    /// `Bnnn - JP V0, addr`
    JumpBase(Address),
    /// `Cxkk - RND Vx, byte`
    Random(Register, Data),
    /// `Dxyn - DRW Vx, Vy, nibble`
    DisplaySprite(Register, Register, Nibble),
    /// `Ex9E - SKP Vx`
    SkipKeyPress(Register),
    /// `ExA1 - SKNP Vx`
    SkipNotKeyPress(Register),
    /// `Fx07 - LD Vx, DT`
    LoadFromDelay(Register),
    /// `Fx0A - LD Vx, K`
    LoadKeyPress(Register),
    /// `Fx15 - LD DT, Vx`
    LoadDelay(Register),
    /// `Fx18 - LD ST, Vx`
    LoadSound(Register),
    /// `Fx1E - ADD I, Vx`
    AddI(Register),
    /// `Fx29 - LD F, Vx`
    LoadFontSprite(Register),
    /// `Fx33 - LD B, Vx`
    LoadIBCD(Register),
    /// `Fx55 - LD [I], Vx`
    StoreRegisters(Register),
    /// `Fx65 - LD Vx, [I]`
    LoadRegisters(Register),
}

impl Instruction {
    /// Every operand fits the field it was taken from: addresses in twelve
    /// bits, register indices and the sprite height in four.
    pub open spec fn well_formed(self) -> bool {
        match self {
            Instruction::NoOp | Instruction::ClearScreen | Instruction::Return
            | Instruction::SYS => true,
            Instruction::Jump(address) | Instruction::Call(address)
            | Instruction::LoadImmediate(address) | Instruction::JumpBase(address) => {
                address < 0x1000
            },
            Instruction::SkipEqualsByte(x, _) | Instruction::SkipNotEqualsByte(x, _)
            | Instruction::LoadByte(x, _) | Instruction::AddByte(x, _)
            | Instruction::Random(x, _) => x < 0x10,
            Instruction::SkipEqualsRegister(x, y) | Instruction::LoadRegister(x, y)
            | Instruction::Or(x, y) | Instruction::And(x, y) | Instruction::Xor(x, y)
            | Instruction::AddRegister(x, y) | Instruction::SubRegister(x, y)
            | Instruction::SubNRegister(x, y) | Instruction::SkipNotEqualRegister(x, y) => {
                x < 0x10 && y < 0x10
            },
            Instruction::DisplaySprite(x, y, rows) => x < 0x10 && y < 0x10 && rows < 0x10,
            Instruction::ShiftRight(x) | Instruction::ShiftLeft(x)
            | Instruction::SkipKeyPress(x) | Instruction::SkipNotKeyPress(x)
            | Instruction::LoadFromDelay(x) | Instruction::LoadKeyPress(x)
            | Instruction::LoadDelay(x) | Instruction::LoadSound(x) | Instruction::AddI(x)
            | Instruction::LoadFontSprite(x) | Instruction::LoadIBCD(x)
            | Instruction::StoreRegisters(x) | Instruction::LoadRegisters(x) => x < 0x10,
        }
    }
}

impl Instruction {
    /// The same operation with the same operands.
    pub open spec fn spec_from_v2(ins: InstructionV2) -> Instruction {
        match ins {
            InstructionV2::NoOp => Instruction::NoOp,
            InstructionV2::ClearScreen => Instruction::ClearScreen,
            InstructionV2::Return => Instruction::Return,
            InstructionV2::SYS => Instruction::SYS,
            InstructionV2::Jump(address) => Instruction::Jump(address),
            InstructionV2::Call(address) => Instruction::Call(address),
            InstructionV2::SkipEqualsByte(x, byte) => Instruction::SkipEqualsByte(x, byte),
            InstructionV2::SkipNotEqualsByte(x, byte) => Instruction::SkipNotEqualsByte(x, byte),
            InstructionV2::SkipEqualsRegister(x, y) => Instruction::SkipEqualsRegister(x, y),
            InstructionV2::LoadByte(x, byte) => Instruction::LoadByte(x, byte),
            InstructionV2::AddByte(x, byte) => Instruction::AddByte(x, byte),
            InstructionV2::LoadRegister(x, y) => Instruction::LoadRegister(x, y),
            InstructionV2::Or(x, y) => Instruction::Or(x, y),
            InstructionV2::And(x, y) => Instruction::And(x, y),
            InstructionV2::Xor(x, y) => Instruction::Xor(x, y),
            InstructionV2::AddRegister(x, y) => Instruction::AddRegister(x, y),
            InstructionV2::SubRegister(x, y) => Instruction::SubRegister(x, y),
            InstructionV2::ShiftRight(x) => Instruction::ShiftRight(x),
            InstructionV2::SubNRegister(x, y) => Instruction::SubNRegister(x, y),
            InstructionV2::ShiftLeft(x) => Instruction::ShiftLeft(x),
            InstructionV2::SkipNotEqualRegister(x, y) => Instruction::SkipNotEqualRegister(x, y),
            InstructionV2::LoadImmediate(address) => Instruction::LoadImmediate(address),
            InstructionV2::JumpBase(address) => Instruction::JumpBase(address),
            InstructionV2::Random(x, byte) => Instruction::Random(x, byte),
            InstructionV2::DisplaySprite(x, y, rows) => Instruction::DisplaySprite(x, y, rows),
            InstructionV2::SkipKeyPress(x) => Instruction::SkipKeyPress(x),
            InstructionV2::SkipNotKeyPress(x) => Instruction::SkipNotKeyPress(x),
            InstructionV2::LoadFromDelay(x) => Instruction::LoadFromDelay(x),
            InstructionV2::LoadKeyPress(x) => Instruction::LoadKeyPress(x),
            InstructionV2::LoadDelay(x) => Instruction::LoadDelay(x),
            InstructionV2::LoadSound(x) => Instruction::LoadSound(x),
            InstructionV2::AddI(x) => Instruction::AddI(x),
            InstructionV2::LoadFontSprite(x) => Instruction::LoadFontSprite(x),
            InstructionV2::LoadIBCD(x) => Instruction::LoadIBCD(x),
            InstructionV2::StoreRegisters(x) => Instruction::StoreRegisters(x),
            InstructionV2::LoadRegisters(x) => Instruction::LoadRegisters(x),
        }
    }

    /// Carries an operation of the opcode table over to this type.
    #[verifier::when_used_as_spec(spec_from_v2)]
    pub fn from_v2(ins: InstructionV2) -> (out: Instruction)
        ensures
            out == Instruction::spec_from_v2(ins),
            ins.well_formed() ==> out.well_formed(),
    {
        match ins {
            InstructionV2::NoOp => Instruction::NoOp,
            InstructionV2::ClearScreen => Instruction::ClearScreen,
            InstructionV2::Return => Instruction::Return,
            InstructionV2::SYS => Instruction::SYS,
            InstructionV2::Jump(address) => Instruction::Jump(address),
            InstructionV2::Call(address) => Instruction::Call(address),
            InstructionV2::SkipEqualsByte(x, byte) => Instruction::SkipEqualsByte(x, byte),
            InstructionV2::SkipNotEqualsByte(x, byte) => Instruction::SkipNotEqualsByte(x, byte),
            InstructionV2::SkipEqualsRegister(x, y) => Instruction::SkipEqualsRegister(x, y),
            InstructionV2::LoadByte(x, byte) => Instruction::LoadByte(x, byte),
            InstructionV2::AddByte(x, byte) => Instruction::AddByte(x, byte),
            InstructionV2::LoadRegister(x, y) => Instruction::LoadRegister(x, y),
            InstructionV2::Or(x, y) => Instruction::Or(x, y),
            InstructionV2::And(x, y) => Instruction::And(x, y),
            InstructionV2::Xor(x, y) => Instruction::Xor(x, y),
            InstructionV2::AddRegister(x, y) => Instruction::AddRegister(x, y),
            InstructionV2::SubRegister(x, y) => Instruction::SubRegister(x, y),
            InstructionV2::ShiftRight(x) => Instruction::ShiftRight(x),
            InstructionV2::SubNRegister(x, y) => Instruction::SubNRegister(x, y),
            InstructionV2::ShiftLeft(x) => Instruction::ShiftLeft(x),
            InstructionV2::SkipNotEqualRegister(x, y) => Instruction::SkipNotEqualRegister(x, y),
            InstructionV2::LoadImmediate(address) => Instruction::LoadImmediate(address),
            InstructionV2::JumpBase(address) => Instruction::JumpBase(address),
            InstructionV2::Random(x, byte) => Instruction::Random(x, byte),
            InstructionV2::DisplaySprite(x, y, rows) => Instruction::DisplaySprite(x, y, rows),
            InstructionV2::SkipKeyPress(x) => Instruction::SkipKeyPress(x),
            InstructionV2::SkipNotKeyPress(x) => Instruction::SkipNotKeyPress(x),
            InstructionV2::LoadFromDelay(x) => Instruction::LoadFromDelay(x),
            InstructionV2::LoadKeyPress(x) => Instruction::LoadKeyPress(x),
            InstructionV2::LoadDelay(x) => Instruction::LoadDelay(x),
            InstructionV2::LoadSound(x) => Instruction::LoadSound(x),
            InstructionV2::AddI(x) => Instruction::AddI(x),
            InstructionV2::LoadFontSprite(x) => Instruction::LoadFontSprite(x),
            InstructionV2::LoadIBCD(x) => Instruction::LoadIBCD(x),
            InstructionV2::StoreRegisters(x) => Instruction::StoreRegisters(x),
            InstructionV2::LoadRegisters(x) => Instruction::LoadRegisters(x),
        }
    }
}

/// The family of a word, read off its class and, where the class has
/// several members, its selector; `None` where the class defines no
/// operation for the selector.
pub open spec fn family_of(opcode: u16) -> Option<OpcodeFamily> {
    match mask_F000(opcode) {
        0x0 => if opcode == 0x00E0 {
            Some(OpcodeFamily::Op00E0)
        } else if opcode == 0x00EE {
            Some(OpcodeFamily::Op00EE)
        } else {
            Some(OpcodeFamily::Op0NNN)
        },
        0x1 => Some(OpcodeFamily::Op1NNN),
        0x2 => Some(OpcodeFamily::Op2NNN),
        0x3 => Some(OpcodeFamily::Op3XNN),
        0x4 => Some(OpcodeFamily::Op4XNN),
        0x5 => match mask_000F(opcode) {
            0x0 => Some(OpcodeFamily::Op5XY0),
            _ => None,
        },
        0x6 => Some(OpcodeFamily::Op6XNN),
        0x7 => Some(OpcodeFamily::Op7XNN),
        0x8 => match mask_000F(opcode) {
            0x0 => Some(OpcodeFamily::Op8XY0),
            0x1 => Some(OpcodeFamily::Op8XY1),
            0x2 => Some(OpcodeFamily::Op8XY2),
            0x3 => Some(OpcodeFamily::Op8XY3),
            0x4 => Some(OpcodeFamily::Op8XY4),
            0x5 => Some(OpcodeFamily::Op8XY5),
            0x6 => Some(OpcodeFamily::Op8XY6),
            0x7 => Some(OpcodeFamily::Op8XY7),
            0xE => Some(OpcodeFamily::Op8XYE),
            _ => None,
        },
        0x9 => match mask_000F(opcode) {
            0x0 => Some(OpcodeFamily::Op9XY0),
            _ => None,
        },
        0xA => Some(OpcodeFamily::OpANNN),
        0xB => Some(OpcodeFamily::OpBNNN),
        0xC => Some(OpcodeFamily::OpCXNN),
        0xD => Some(OpcodeFamily::OpDXYN),
        0xE => match mask_00FF(opcode) {
            0x9E => Some(OpcodeFamily::OpEX9E),
            0xA1 => Some(OpcodeFamily::OpEXA1),
            _ => None,
        },
        0xF => match mask_00FF(opcode) {
            0x07 => Some(OpcodeFamily::OpFX07),
            0x0A => Some(OpcodeFamily::OpFX0A),
            0x15 => Some(OpcodeFamily::OpFX15),
            0x18 => Some(OpcodeFamily::OpFX18),
            0x1E => Some(OpcodeFamily::OpFX1E),
            0x29 => Some(OpcodeFamily::OpFX29),
            0x33 => Some(OpcodeFamily::OpFX33),
            0x55 => Some(OpcodeFamily::OpFX55),
            0x65 => Some(OpcodeFamily::OpFX65),
            _ => None,
        },
        _ => None,
    }
}

/// Searching the table and switching on the class find the same operation,
/// or both find none.
pub proof fn lemma_lookup_by_family(opcode: u16)
    ensures
        lookup_spec(opcode) == match family_of(opcode) {
            Some(family) => Some(family.instruction(opcode)),
            None => None,
        },
{
    lemma_match_by_fields(opcode);
    lemma_fields_are_digits(opcode);
    reveal_with_fuel(scan, 36);
}

/// The text of the failure that `Instruction::try_from` reports for `opcode`.
pub open spec fn invalid_opcode_message(opcode: u16) -> Seq<char> {
    "Invalid opcode: "@ + upper_hex(opcode)
}

fn invalid_opcode(opcode: u16) -> (message: String)
    ensures
        message@ == invalid_opcode_message(opcode),
{
    let mut message = String::from_str("Invalid opcode: ");
    append_upper_hex(&mut message, opcode);
    message
}

impl Instruction {
    /// Decodes `opcode` by its class. The result is what the opcode table
    /// gives for the same word; a word that encodes no operation is reported
    /// by a message that shows it in hexadecimal.
    pub fn try_from(opcode: u16) -> (decoded: Result<Instruction, String>)
        ensures
            match decode_by_table(opcode) {
                Some(by_table) => decoded == Ok::<Instruction, String>(
                    Instruction::from_v2(by_table),
                ),
                None => decoded matches Err(message) && message@ == invalid_opcode_message(
                    opcode,
                ),
            },
            decoded matches Ok(ins) ==> ins.well_formed(),
    {
        proof {
            lemma_lookup_by_family(opcode);
            lemma_fields_are_digits(opcode);
        }
        match mask_F000(opcode) {
            0x0 => match mask_0FFF(opcode) {
                0x000 => Ok(Instruction::NoOp),
                0x0E0 => Ok(Instruction::ClearScreen),
                0x0EE => Ok(Instruction::Return),
                _ => Ok(Instruction::SYS),
            },
            0x1 => Ok(Instruction::Jump(mask_0FFF(opcode))),
            0x2 => Ok(Instruction::Call(mask_0FFF(opcode))),
            0x3 => Ok(Instruction::SkipEqualsByte(
                mask_0F00(opcode),
                mask_00FF(opcode),
            )),
            0x4 => Ok(Instruction::SkipNotEqualsByte(
                mask_0F00(opcode),
                mask_00FF(opcode),
            )),
            0x5 => {
                let r1 = mask_0F00(opcode);
                let r2 = mask_00F0(opcode);
                match mask_000F(opcode) {
                    0x0 => Ok(Instruction::SkipEqualsRegister(r1, r2)),
                    _ => Err(invalid_opcode(opcode)),
                }
            },
            0x6 => Ok(Instruction::LoadByte(
                mask_0F00(opcode),
                mask_00FF(opcode),
            )),
            0x7 => Ok(Instruction::AddByte(
                mask_0F00(opcode),
                mask_00FF(opcode),
            )),
            0x8 => {
                let r1 = mask_0F00(opcode);
                let r2 = mask_00F0(opcode);
                match mask_000F(opcode) {
                    0x0 => Ok(Instruction::LoadRegister(r1, r2)),
                    0x1 => Ok(Instruction::Or(r1, r2)),
                    0x2 => Ok(Instruction::And(r1, r2)),
                    0x3 => Ok(Instruction::Xor(r1, r2)),
                    0x4 => Ok(Instruction::AddRegister(r1, r2)),
                    0x5 => Ok(Instruction::SubRegister(r1, r2)),
                    0x6 => Ok(Instruction::ShiftRight(r1)),
                    0x7 => Ok(Instruction::SubNRegister(r1, r2)),
                    0xE => Ok(Instruction::ShiftLeft(r1)),
                    _ => Err(invalid_opcode(opcode)),
                }
            },
            0x9 => {
                let r1 = mask_0F00(opcode);
                let r2 = mask_00F0(opcode);
                match mask_000F(opcode) {
                    0x0 => Ok(Instruction::SkipNotEqualRegister(r1, r2)),
                    _ => Err(invalid_opcode(opcode)),
                }
            },
            0xA => Ok(Instruction::LoadImmediate(mask_0FFF(opcode))),
            0xB => Ok(Instruction::JumpBase(mask_0FFF(opcode))),
            0xC => Ok(Instruction::Random(
                mask_0F00(opcode),
                mask_00FF(opcode),
            )),
            0xD => Ok(Instruction::DisplaySprite(
                mask_0F00(opcode),
                mask_00F0(opcode),
                mask_000F(opcode),
            )),
            0xE => {
                let register = mask_0F00(opcode);
                match mask_00FF(opcode) {
                    0x9E => Ok(Instruction::SkipKeyPress(register)),
                    0xA1 => Ok(Instruction::SkipNotKeyPress(register)),
                    _ => Err(invalid_opcode(opcode)),
                }
            },
            0xF => {
                let register = mask_0F00(opcode);
                match mask_00FF(opcode) {
                    0x07 => Ok(Instruction::LoadFromDelay(register)),
                    0x0A => Ok(Instruction::LoadKeyPress(register)),
                    0x15 => Ok(Instruction::LoadDelay(register)),
                    0x18 => Ok(Instruction::LoadSound(register)),
                    0x1E => Ok(Instruction::AddI(register)),
                    0x29 => Ok(Instruction::LoadFontSprite(register)),
                    0x33 => Ok(Instruction::LoadIBCD(register)),
                    0x55 => Ok(Instruction::StoreRegisters(register)),
                    0x65 => Ok(Instruction::LoadRegisters(register)),
                    _ => Err(invalid_opcode(opcode)),
                }
            },
            _ => Err(invalid_opcode(opcode)),
        }
    }
}

} // verus!

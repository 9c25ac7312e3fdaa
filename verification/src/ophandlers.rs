//! One handler per instruction family: each builds the family's operation
//! from the fields of the opcode word.

use vstd::prelude::*;
use crate::bitmasks::{mask_000F, mask_00F0, mask_00FF, mask_0F00, mask_0FFF};
use crate::opcodesv2::InstructionV2;

verus! {

/// `00E0 - CLS`
#[allow(non_snake_case, unused_variables)]
pub fn handle0x00E0(opcode: u16) -> (ins: InstructionV2)
    ensures
        ins == InstructionV2::ClearScreen,
        ins.well_formed(),
{
    InstructionV2::ClearScreen
}

/// `00EE - RET`
#[allow(non_snake_case, unused_variables)]
pub fn handle0x00EE(opcode: u16) -> (ins: InstructionV2)
    ensures
        ins == InstructionV2::Return,
        ins.well_formed(),
{
    InstructionV2::Return
}

/// `0nnn - SYS addr`
#[allow(non_snake_case, unused_variables)]
pub fn handle0x0NNN(opcode: u16) -> (ins: InstructionV2)
    ensures
        ins == InstructionV2::SYS,
        ins.well_formed(),
{
    InstructionV2::SYS
}

/// `1nnn - JP addr`
#[allow(non_snake_case)]
pub fn handle0x1NNN(opcode: u16) -> (ins: InstructionV2)
    ensures
        ins == InstructionV2::Jump(mask_0FFF(opcode)),
        ins.well_formed(),
{
    InstructionV2::Jump(mask_0FFF(opcode))
}

/// `2nnn - CALL addr`
#[allow(non_snake_case)]
pub fn handle0x2NNN(opcode: u16) -> (ins: InstructionV2)
    ensures
        ins == InstructionV2::Call(mask_0FFF(opcode)),
        ins.well_formed(),
{
    InstructionV2::Call(mask_0FFF(opcode))
}

/// `3xkk - SE Vx, byte`
#[allow(non_snake_case)]
pub fn handle0x3XNN(opcode: u16) -> (ins: InstructionV2)
    ensures
        ins == InstructionV2::SkipEqualsByte(mask_0F00(opcode), mask_00FF(opcode)),
        ins.well_formed(),
{
    InstructionV2::SkipEqualsByte(mask_0F00(opcode), mask_00FF(opcode))
}

/// `4xkk - SNE Vx, byte`
#[allow(non_snake_case)]
pub fn handle0x4XNN(opcode: u16) -> (ins: InstructionV2)
    ensures
        ins == InstructionV2::SkipNotEqualsByte(mask_0F00(opcode), mask_00FF(opcode)),
        ins.well_formed(),
{
    InstructionV2::SkipNotEqualsByte(mask_0F00(opcode), mask_00FF(opcode))
}

/// `5xy0 - SE Vx, Vy`
#[allow(non_snake_case)]
pub fn handle0x5XY0(opcode: u16) -> (ins: InstructionV2)
    ensures
        ins == InstructionV2::SkipEqualsRegister(mask_0F00(opcode), mask_00F0(opcode)),
        ins.well_formed(),
{
    InstructionV2::SkipEqualsRegister(mask_0F00(opcode), mask_00F0(opcode))
}

/// `6xkk - LD Vx, byte`
#[allow(non_snake_case)]
pub fn handle0x6XNN(opcode: u16) -> (ins: InstructionV2)
    ensures
        ins == InstructionV2::LoadByte(mask_0F00(opcode), mask_00FF(opcode)),
        ins.well_formed(),
{
    InstructionV2::LoadByte(mask_0F00(opcode), mask_00FF(opcode))
}

/// `7xkk - ADD Vx, byte`
#[allow(non_snake_case)]
pub fn handle0x7XNN(opcode: u16) -> (ins: InstructionV2)
    ensures
        ins == InstructionV2::AddByte(mask_0F00(opcode), mask_00FF(opcode)),
        ins.well_formed(),
{
    InstructionV2::AddByte(mask_0F00(opcode), mask_00FF(opcode))
}

/// `8xy0 - LD Vx, Vy`
#[allow(non_snake_case)]
pub fn handle0x8XY0(opcode: u16) -> (ins: InstructionV2)
    ensures
        ins == InstructionV2::LoadRegister(mask_0F00(opcode), mask_00F0(opcode)),
        ins.well_formed(),
{
    let r1 = mask_0F00(opcode);
    let r2 = mask_00F0(opcode);
    InstructionV2::LoadRegister(r1, r2)
}

/// `8xy1 - OR Vx, Vy`
#[allow(non_snake_case)]
pub fn handle0x8XY1(opcode: u16) -> (ins: InstructionV2)
    ensures
        ins == InstructionV2::Or(mask_0F00(opcode), mask_00F0(opcode)),
        ins.well_formed(),
{
    let r1 = mask_0F00(opcode);
    let r2 = mask_00F0(opcode);
    InstructionV2::Or(r1, r2)
}

/// `8xy2 - AND Vx, Vy`
#[allow(non_snake_case)]
pub fn handle0x8XY2(opcode: u16) -> (ins: InstructionV2)
    ensures
        ins == InstructionV2::And(mask_0F00(opcode), mask_00F0(opcode)),
        ins.well_formed(),
{
    let r1 = mask_0F00(opcode);
    let r2 = mask_00F0(opcode);
    InstructionV2::And(r1, r2)
}

/// `8xy3 - XOR Vx, Vy`
#[allow(non_snake_case)]
pub fn handle0x8XY3(opcode: u16) -> (ins: InstructionV2)
    ensures
        ins == InstructionV2::Xor(mask_0F00(opcode), mask_00F0(opcode)),
        ins.well_formed(),
{
    let r1 = mask_0F00(opcode);
    let r2 = mask_00F0(opcode);
    InstructionV2::Xor(r1, r2)
}

/// `8xy4 - ADD Vx, Vy`
#[allow(non_snake_case)]
pub fn handle0x8XY4(opcode: u16) -> (ins: InstructionV2)
    ensures
        ins == InstructionV2::AddRegister(mask_0F00(opcode), mask_00F0(opcode)),
        ins.well_formed(),
{
    let r1 = mask_0F00(opcode);
    let r2 = mask_00F0(opcode);
    InstructionV2::AddRegister(r1, r2)
}

/// `8xy5 - SUB Vx, Vy`
#[allow(non_snake_case)]
pub fn handle0x8XY5(opcode: u16) -> (ins: InstructionV2)
    ensures
        ins == InstructionV2::SubRegister(mask_0F00(opcode), mask_00F0(opcode)),
        ins.well_formed(),
{
    let r1 = mask_0F00(opcode);
    let r2 = mask_00F0(opcode);
    InstructionV2::SubRegister(r1, r2)
}

/// `8xy6 - SHR Vx`
#[allow(non_snake_case)]
pub fn handle0x8XY6(opcode: u16) -> (ins: InstructionV2)
    ensures
        ins == InstructionV2::ShiftRight(mask_0F00(opcode)),
        ins.well_formed(),
{
    let r1 = mask_0F00(opcode);
    InstructionV2::ShiftRight(r1)
}

/// `8xy7 - SUBN Vx, Vy`
#[allow(non_snake_case)]
pub fn handle0x8XY7(opcode: u16) -> (ins: InstructionV2)
    ensures
        ins == InstructionV2::SubNRegister(mask_0F00(opcode), mask_00F0(opcode)),
        ins.well_formed(),
{
    let r1 = mask_0F00(opcode);
    let r2 = mask_00F0(opcode);
    InstructionV2::SubNRegister(r1, r2)
}

/// `8xyE - SHL Vx`
#[allow(non_snake_case)]
pub fn handle0x8XYE(opcode: u16) -> (ins: InstructionV2)
    ensures
        ins == InstructionV2::ShiftLeft(mask_0F00(opcode)),
        ins.well_formed(),
{
    let r1 = mask_0F00(opcode);
    InstructionV2::ShiftLeft(r1)
}

/// `9xy0 - SNE Vx, Vy`
#[allow(non_snake_case)]
pub fn handle0x9XY0(opcode: u16) -> (ins: InstructionV2)
    ensures
        ins == InstructionV2::SkipNotEqualRegister(mask_0F00(opcode), mask_00F0(opcode)),
        ins.well_formed(),
{
    InstructionV2::SkipNotEqualRegister(mask_0F00(opcode), mask_00F0(opcode))
}

/// `Annn - LD I, addr`
#[allow(non_snake_case)]
pub fn handle0xANNN(opcode: u16) -> (ins: InstructionV2)
    ensures
        ins == InstructionV2::LoadImmediate(mask_0FFF(opcode)),
        ins.well_formed(),
{
    InstructionV2::LoadImmediate(mask_0FFF(opcode))
}

/// `Bnnn - JP V0, addr`
#[allow(non_snake_case)]
pub fn handle0xBNNN(opcode: u16) -> (ins: InstructionV2)
    ensures
        ins == InstructionV2::JumpBase(mask_0FFF(opcode)),
        ins.well_formed(),
{
    InstructionV2::JumpBase(mask_0FFF(opcode))
}

/// `Cxkk - RND Vx, byte`
#[allow(non_snake_case)]
pub fn handle0xCXNN(opcode: u16) -> (ins: InstructionV2)
    ensures
        ins == InstructionV2::Random(mask_0F00(opcode), mask_00FF(opcode)),
        ins.well_formed(),
{
    InstructionV2::Random(mask_0F00(opcode), mask_00FF(opcode))
}

/// `Dxyn - DRW Vx, Vy, nibble`
#[allow(non_snake_case)]
pub fn handle0xDXYN(opcode: u16) -> (ins: InstructionV2)
    ensures
        ins == InstructionV2::DisplaySprite(
            mask_0F00(opcode),
            mask_00F0(opcode),
            mask_000F(opcode),
        ),
        ins.well_formed(),
{
    InstructionV2::DisplaySprite(mask_0F00(opcode), mask_00F0(opcode), mask_000F(opcode))
}

/// `Ex9E - SKP Vx`
#[allow(non_snake_case)]
pub fn handle0xEX9E(opcode: u16) -> (ins: InstructionV2)
    ensures
        ins == InstructionV2::SkipKeyPress(mask_0F00(opcode)),
        ins.well_formed(),
{
    let register = mask_0F00(opcode);
    InstructionV2::SkipKeyPress(register)
}

/// `ExA1 - SKNP Vx`
#[allow(non_snake_case)]
pub fn handle0xEXA1(opcode: u16) -> (ins: InstructionV2)
    ensures
        ins == InstructionV2::SkipNotKeyPress(mask_0F00(opcode)),
        ins.well_formed(),
{
    let register = mask_0F00(opcode);
    InstructionV2::SkipNotKeyPress(register)
}

/// `Fx07 - LD Vx, DT`
#[allow(non_snake_case)]
pub fn handle0xFX07(opcode: u16) -> (ins: InstructionV2)
    ensures
        ins == InstructionV2::LoadFromDelay(mask_0F00(opcode)),
        ins.well_formed(),
{
    let register = mask_0F00(opcode);
    InstructionV2::LoadFromDelay(register)
}

/// `Fx0A - LD Vx, K`
#[allow(non_snake_case)]
pub fn handle0xFX0A(opcode: u16) -> (ins: InstructionV2)
    ensures
        ins == InstructionV2::LoadKeyPress(mask_0F00(opcode)),
        ins.well_formed(),
{
    let register = mask_0F00(opcode);
    InstructionV2::LoadKeyPress(register)
}

/// `Fx15 - LD DT, Vx`
#[allow(non_snake_case)]
pub fn handle0xFX15(opcode: u16) -> (ins: InstructionV2)
    ensures
        ins == InstructionV2::LoadDelay(mask_0F00(opcode)),
        ins.well_formed(),
{
    let register = mask_0F00(opcode);
    InstructionV2::LoadDelay(register)
}

/// `Fx18 - LD ST, Vx`
#[allow(non_snake_case)]
pub fn handle0xFX18(opcode: u16) -> (ins: InstructionV2)
    ensures
        ins == InstructionV2::LoadSound(mask_0F00(opcode)),
        ins.well_formed(),
{
    let register = mask_0F00(opcode);
    InstructionV2::LoadSound(register)
}

/// `Fx1E - ADD I, Vx`
#[allow(non_snake_case)]
pub fn handle0xFX1E(opcode: u16) -> (ins: InstructionV2)
    ensures
        ins == InstructionV2::AddI(mask_0F00(opcode)),
        ins.well_formed(),
{
    let register = mask_0F00(opcode);
    InstructionV2::AddI(register)
}

/// `Fx29 - LD F, Vx`
#[allow(non_snake_case)]
pub fn handle0xFX29(opcode: u16) -> (ins: InstructionV2)
    ensures
        ins == InstructionV2::LoadFontSprite(mask_0F00(opcode)),
        ins.well_formed(),
{
    let register = mask_0F00(opcode);
    InstructionV2::LoadFontSprite(register)
}

/// `Fx33 - LD B, Vx`
#[allow(non_snake_case)]
pub fn handle0xFX33(opcode: u16) -> (ins: InstructionV2)
    ensures
        ins == InstructionV2::LoadIBCD(mask_0F00(opcode)),
        ins.well_formed(),
{
    let register = mask_0F00(opcode);
    InstructionV2::LoadIBCD(register)
}

/// `Fx55 - LD [I], Vx`
#[allow(non_snake_case)]
pub fn handle0xFX55(opcode: u16) -> (ins: InstructionV2)
    ensures
        ins == InstructionV2::StoreRegisters(mask_0F00(opcode)),
        ins.well_formed(),
{
    let register = mask_0F00(opcode);
    InstructionV2::StoreRegisters(register)
}

/// `Fx65 - LD Vx, [I]`
#[allow(non_snake_case)]
pub fn handle0xFX65(opcode: u16) -> (ins: InstructionV2)
    ensures
        ins == InstructionV2::LoadRegisters(mask_0F00(opcode)),
        ins.well_formed(),
{
    let register = mask_0F00(opcode);
    InstructionV2::LoadRegisters(register)
}

} // verus!

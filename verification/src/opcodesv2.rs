//! The instruction set as the opcode table decodes it: the operations, the
//! ordered table of mask/pattern pairs, and the table-driven decoder.

use vstd::prelude::*;
use crate::bitmasks::{
    lemma_fields_are_digits, mask_000F, mask_00F0, mask_00FF, mask_0F00, mask_0FFF, mask_F000,
};
use crate::hex::{append_upper_hex, upper_hex};
use crate::opcodes::{Address, Data, Nibble, Register};
use crate::ophandlers;

verus! {

/// One decoded operation, with the operands its encoding carries, or the
/// idle-fetch sentinel `NoOp` that stands for the all-zero word.
#[derive(Clone, Copy, Debug, PartialEq, Eq, Structural)]
pub enum InstructionV2 {
    /// The all-zero word: no instruction.
    NoOp,
    /// `00E0 - CLS`
    ClearScreen,
    /// `00EE - RET`
    Return,
    /// `0nnn - SYS addr`
    SYS,
    /// `1nnn - JP addr`
    Jump(Address),
    /// `2nnn - CALL addr`
    Call(Address),
    /// `3xkk - SE Vx, byte`
    SkipEqualsByte(Register, Data),
    /// `4xkk - SNE Vx, byte`
    SkipNotEqualsByte(Register, Data),
    /// `5xy0 - SE Vx, Vy`
    SkipEqualsRegister(Register, Register),
    /// `6xkk - LD Vx, byte`
    LoadByte(Register, Data),
    /// `7xkk - ADD Vx, byte`
    AddByte(Register, Data),
    /// `8xy0 - LD Vx, Vy`
    LoadRegister(Register, Register),
    /// `8xy1 - OR Vx, Vy`
    Or(Register, Register),
    /// `8xy2 - AND Vx, Vy`
    And(Register, Register),
    /// `8xy3 - XOR Vx, Vy`
    Xor(Register, Register),
    /// `8xy4 - ADD Vx, Vy`
    AddRegister(Register, Register),
    /// `8xy5 - SUB Vx, Vy`
    SubRegister(Register, Register),
    /// `8xy6 - SHR Vx`
    ShiftRight(Register),
    /// `8xy7 - SUBN Vx, Vy`
    SubNRegister(Register, Register),
    /// `8xyE - SHL Vx`
    ShiftLeft(Register),
    /// `9xy0 - SNE Vx, Vy`
    SkipNotEqualRegister(Register, Register),
    /// `Annn - LD I, addr`
    LoadImmediate(Address),
    /// `Bnnn - JP V0, addr`
    JumpBase(Address),
    /// `Cxkk - RND Vx, byte`
    Random(Register, Data),
    /// `Dxyn - DRW Vx, Vy, nibble`
    DisplaySprite(Register, Register, Nibble),
    /// `Ex9E - SKP Vx`
    SkipKeyPress(Register),
    /// `ExA1 - SKNP Vx`
    SkipNotKeyPress(Register),
    /// `Fx07 - LD Vx, DT`
    LoadFromDelay(Register),
    /// `Fx0A - LD Vx, K`
    LoadKeyPress(Register),
    /// `Fx15 - LD DT, Vx`
    LoadDelay(Register),
    /// `Fx18 - LD ST, Vx`
    LoadSound(Register),
    /// `Fx1E - ADD I, Vx`
    AddI(Register),
    /// `Fx29 - LD F, Vx`
    LoadFontSprite(Register),
    /// `Fx33 - LD B, Vx`
    LoadIBCD(Register),
    /// `Fx55 - LD [I], Vx`
    StoreRegisters(Register),
    /// `Fx65 - LD Vx, [I]`
    LoadRegisters(Register),
}

impl InstructionV2 {
    /// Every operand fits the field it was taken from: addresses in twelve
    /// bits, register indices and the sprite height in four.
    pub open spec fn well_formed(self) -> bool {
        match self {
            InstructionV2::NoOp | InstructionV2::ClearScreen | InstructionV2::Return
            | InstructionV2::SYS => true,
            InstructionV2::Jump(address) | InstructionV2::Call(address)
            | InstructionV2::LoadImmediate(address) | InstructionV2::JumpBase(address) => {
                address < 0x1000
            },
            InstructionV2::SkipEqualsByte(x, _) | InstructionV2::SkipNotEqualsByte(x, _)
            | InstructionV2::LoadByte(x, _) | InstructionV2::AddByte(x, _)
            | InstructionV2::Random(x, _) => x < 0x10,
            InstructionV2::SkipEqualsRegister(x, y) | InstructionV2::LoadRegister(x, y)
            | InstructionV2::Or(x, y) | InstructionV2::And(x, y) | InstructionV2::Xor(x, y)
            | InstructionV2::AddRegister(x, y) | InstructionV2::SubRegister(x, y)
            | InstructionV2::SubNRegister(x, y) | InstructionV2::SkipNotEqualRegister(x, y) => {
                x < 0x10 && y < 0x10
            },
            InstructionV2::DisplaySprite(x, y, rows) => x < 0x10 && y < 0x10 && rows < 0x10,
            InstructionV2::ShiftRight(x) | InstructionV2::ShiftLeft(x)
            | InstructionV2::SkipKeyPress(x) | InstructionV2::SkipNotKeyPress(x)
            | InstructionV2::LoadFromDelay(x) | InstructionV2::LoadKeyPress(x)
            | InstructionV2::LoadDelay(x) | InstructionV2::LoadSound(x)
            | InstructionV2::AddI(x) | InstructionV2::LoadFontSprite(x)
            | InstructionV2::LoadIBCD(x) | InstructionV2::StoreRegisters(x)
            | InstructionV2::LoadRegisters(x) => x < 0x10,
        }
    }
}

/// The 35 instruction families, named by their encoding.
#[derive(Clone, Copy, Debug, PartialEq, Eq, Structural)]
pub enum OpcodeFamily {
    /// `00E0 - CLS`
    Op00E0,
    /// `00EE - RET`
    Op00EE,
    /// `0nnn - SYS addr`
    Op0NNN,
    /// `1nnn - JP addr`
    Op1NNN,
    /// `2nnn - CALL addr`
    Op2NNN,
    /// `3xkk - SE Vx, byte`
    Op3XNN,
    /// `4xkk - SNE Vx, byte`
    Op4XNN,
    /// `5xy0 - SE Vx, Vy`
    Op5XY0,
    /// `6xkk - LD Vx, byte`
    Op6XNN,
    /// `7xkk - ADD Vx, byte`
    Op7XNN,
    /// `8xy0 - LD Vx, Vy`
    Op8XY0,
    /// `8xy1 - OR Vx, Vy`
    Op8XY1,
    /// `8xy2 - AND Vx, Vy`
    Op8XY2,
    /// `8xy3 - XOR Vx, Vy`
    Op8XY3,
    /// `8xy4 - ADD Vx, Vy`
    Op8XY4,
    /// `8xy5 - SUB Vx, Vy`
    Op8XY5,
    /// `8xy6 - SHR Vx`
    Op8XY6,
    /// `8xy7 - SUBN Vx, Vy`
    Op8XY7,
    /// `8xyE - SHL Vx`
    Op8XYE,
    /// `9xy0 - SNE Vx, Vy`
    Op9XY0,
    /// `Annn - LD I, addr`
    OpANNN,
    /// `Bnnn - JP V0, addr`
    OpBNNN,
    /// `Cxkk - RND Vx, byte`
    OpCXNN,
    /// `Dxyn - DRW Vx, Vy, nibble`
    OpDXYN,
    /// `Ex9E - SKP Vx`
    OpEX9E,
    /// `ExA1 - SKNP Vx`
    OpEXA1,
    /// `Fx07 - LD Vx, DT`
    OpFX07,
    /// `Fx0A - LD Vx, K`
    OpFX0A,
    /// `Fx15 - LD DT, Vx`
    OpFX15,
    /// `Fx18 - LD ST, Vx`
    OpFX18,
    /// `Fx1E - ADD I, Vx`
    OpFX1E,
    /// `Fx29 - LD F, Vx`
    OpFX29,
    /// `Fx33 - LD B, Vx`
    OpFX33,
    /// `Fx55 - LD [I], Vx`
    OpFX55,
    /// `Fx65 - LD Vx, [I]`
    OpFX65,
}

impl OpcodeFamily {
    /// The operation that a word of this family encodes: the family's variant
    /// over the fields of `opcode`.
    pub open spec fn instruction(self, opcode: u16) -> InstructionV2 {
        match self {
            OpcodeFamily::Op00E0 => InstructionV2::ClearScreen,
            OpcodeFamily::Op00EE => InstructionV2::Return,
            OpcodeFamily::Op0NNN => InstructionV2::SYS,
            OpcodeFamily::Op1NNN => InstructionV2::Jump(mask_0FFF(opcode)),
            OpcodeFamily::Op2NNN => InstructionV2::Call(mask_0FFF(opcode)),
            OpcodeFamily::Op3XNN => InstructionV2::SkipEqualsByte(
                mask_0F00(opcode),
                mask_00FF(opcode),
            ),
            OpcodeFamily::Op4XNN => InstructionV2::SkipNotEqualsByte(
                mask_0F00(opcode),
                mask_00FF(opcode),
            ),
            OpcodeFamily::Op5XY0 => InstructionV2::SkipEqualsRegister(
                mask_0F00(opcode),
                mask_00F0(opcode),
            ),
            OpcodeFamily::Op6XNN => InstructionV2::LoadByte(mask_0F00(opcode), mask_00FF(opcode)),
            OpcodeFamily::Op7XNN => InstructionV2::AddByte(mask_0F00(opcode), mask_00FF(opcode)),
            OpcodeFamily::Op8XY0 => InstructionV2::LoadRegister(
                mask_0F00(opcode),
                mask_00F0(opcode),
            ),
            OpcodeFamily::Op8XY1 => InstructionV2::Or(mask_0F00(opcode), mask_00F0(opcode)),
            OpcodeFamily::Op8XY2 => InstructionV2::And(mask_0F00(opcode), mask_00F0(opcode)),
            OpcodeFamily::Op8XY3 => InstructionV2::Xor(mask_0F00(opcode), mask_00F0(opcode)),
            OpcodeFamily::Op8XY4 => InstructionV2::AddRegister(
                mask_0F00(opcode),
                mask_00F0(opcode),
            ),
            OpcodeFamily::Op8XY5 => InstructionV2::SubRegister(
                mask_0F00(opcode),
                mask_00F0(opcode),
            ),
            OpcodeFamily::Op8XY6 => InstructionV2::ShiftRight(mask_0F00(opcode)),
            OpcodeFamily::Op8XY7 => InstructionV2::SubNRegister(
                mask_0F00(opcode),
                mask_00F0(opcode),
            ),
            OpcodeFamily::Op8XYE => InstructionV2::ShiftLeft(mask_0F00(opcode)),
            OpcodeFamily::Op9XY0 => InstructionV2::SkipNotEqualRegister(
                mask_0F00(opcode),
                mask_00F0(opcode),
            ),
            OpcodeFamily::OpANNN => InstructionV2::LoadImmediate(mask_0FFF(opcode)),
            OpcodeFamily::OpBNNN => InstructionV2::JumpBase(mask_0FFF(opcode)),
            OpcodeFamily::OpCXNN => InstructionV2::Random(mask_0F00(opcode), mask_00FF(opcode)),
            OpcodeFamily::OpDXYN => InstructionV2::DisplaySprite(
                mask_0F00(opcode),
                mask_00F0(opcode),
                mask_000F(opcode),
            ),
            OpcodeFamily::OpEX9E => InstructionV2::SkipKeyPress(mask_0F00(opcode)),
            OpcodeFamily::OpEXA1 => InstructionV2::SkipNotKeyPress(mask_0F00(opcode)),
            OpcodeFamily::OpFX07 => InstructionV2::LoadFromDelay(mask_0F00(opcode)),
            OpcodeFamily::OpFX0A => InstructionV2::LoadKeyPress(mask_0F00(opcode)),
            OpcodeFamily::OpFX15 => InstructionV2::LoadDelay(mask_0F00(opcode)),
            OpcodeFamily::OpFX18 => InstructionV2::LoadSound(mask_0F00(opcode)),
            OpcodeFamily::OpFX1E => InstructionV2::AddI(mask_0F00(opcode)),
            OpcodeFamily::OpFX29 => InstructionV2::LoadFontSprite(mask_0F00(opcode)),
            OpcodeFamily::OpFX33 => InstructionV2::LoadIBCD(mask_0F00(opcode)),
            OpcodeFamily::OpFX55 => InstructionV2::StoreRegisters(mask_0F00(opcode)),
            OpcodeFamily::OpFX65 => InstructionV2::LoadRegisters(mask_0F00(opcode)),
        }
    }

    /// Routes `opcode` to the handler of this family.
    pub fn handle(self, opcode: u16) -> (ins: InstructionV2)
        ensures
            ins == self.instruction(opcode),
            ins.well_formed(),
            ins != InstructionV2::NoOp,
    {
        match self {
            OpcodeFamily::Op00E0 => ophandlers::handle0x00E0(opcode),
            OpcodeFamily::Op00EE => ophandlers::handle0x00EE(opcode),
            OpcodeFamily::Op0NNN => ophandlers::handle0x0NNN(opcode),
            OpcodeFamily::Op1NNN => ophandlers::handle0x1NNN(opcode),
            OpcodeFamily::Op2NNN => ophandlers::handle0x2NNN(opcode),
            OpcodeFamily::Op3XNN => ophandlers::handle0x3XNN(opcode),
            OpcodeFamily::Op4XNN => ophandlers::handle0x4XNN(opcode),
            OpcodeFamily::Op5XY0 => ophandlers::handle0x5XY0(opcode),
            OpcodeFamily::Op6XNN => ophandlers::handle0x6XNN(opcode),
            OpcodeFamily::Op7XNN => ophandlers::handle0x7XNN(opcode),
            OpcodeFamily::Op8XY0 => ophandlers::handle0x8XY0(opcode),
            OpcodeFamily::Op8XY1 => ophandlers::handle0x8XY1(opcode),
            OpcodeFamily::Op8XY2 => ophandlers::handle0x8XY2(opcode),
            OpcodeFamily::Op8XY3 => ophandlers::handle0x8XY3(opcode),
            OpcodeFamily::Op8XY4 => ophandlers::handle0x8XY4(opcode),
            OpcodeFamily::Op8XY5 => ophandlers::handle0x8XY5(opcode),
            OpcodeFamily::Op8XY6 => ophandlers::handle0x8XY6(opcode),
            OpcodeFamily::Op8XY7 => ophandlers::handle0x8XY7(opcode),
            OpcodeFamily::Op8XYE => ophandlers::handle0x8XYE(opcode),
            OpcodeFamily::Op9XY0 => ophandlers::handle0x9XY0(opcode),
            OpcodeFamily::OpANNN => ophandlers::handle0xANNN(opcode),
            OpcodeFamily::OpBNNN => ophandlers::handle0xBNNN(opcode),
            OpcodeFamily::OpCXNN => ophandlers::handle0xCXNN(opcode),
            OpcodeFamily::OpDXYN => ophandlers::handle0xDXYN(opcode),
            OpcodeFamily::OpEX9E => ophandlers::handle0xEX9E(opcode),
            OpcodeFamily::OpEXA1 => ophandlers::handle0xEXA1(opcode),
            OpcodeFamily::OpFX07 => ophandlers::handle0xFX07(opcode),
            OpcodeFamily::OpFX0A => ophandlers::handle0xFX0A(opcode),
            OpcodeFamily::OpFX15 => ophandlers::handle0xFX15(opcode),
            OpcodeFamily::OpFX18 => ophandlers::handle0xFX18(opcode),
            OpcodeFamily::OpFX1E => ophandlers::handle0xFX1E(opcode),
            OpcodeFamily::OpFX29 => ophandlers::handle0xFX29(opcode),
            OpcodeFamily::OpFX33 => ophandlers::handle0xFX33(opcode),
            OpcodeFamily::OpFX55 => ophandlers::handle0xFX55(opcode),
            OpcodeFamily::OpFX65 => ophandlers::handle0xFX65(opcode),
        }
    }
}

/// One row of the opcode table: the bits a word must show under `mask`, and
/// the family it then belongs to.
#[derive(Clone, Copy, Debug, PartialEq, Eq, Structural)]
pub struct OpcodeTableEntry {
    pub opcode: u16,
    pub mask: u16,
    pub family: OpcodeFamily,
}

impl OpcodeTableEntry {
    /// A word matches an entry when its masked bits equal the entry's pattern.
    pub open spec fn matches(self, opcode: u16) -> bool {
        opcode & self.mask == self.opcode
    }

    /// Holds `opcode` against this entry.
    pub fn is_match(&self, opcode: u16) -> (hit: bool)
        ensures
            hit == self.matches(opcode),
    {
        opcode & self.mask == self.opcode
    }
}

/// Number of rows in the opcode table.
pub const OPCODE_COUNT: usize = 35;

/// The opcode table, in the order in which it is searched. The two exact
/// patterns `00E0` and `00EE` stand before the `0NNN` catch-all.
pub open spec fn opcode_table_spec() -> Seq<OpcodeTableEntry> {
    seq![
        OpcodeTableEntry { opcode: 0x00E0, mask: 0xFFFF, family: OpcodeFamily::Op00E0 },
        OpcodeTableEntry { opcode: 0x00EE, mask: 0xFFFF, family: OpcodeFamily::Op00EE },
        OpcodeTableEntry { opcode: 0x0000, mask: 0xF000, family: OpcodeFamily::Op0NNN },
        OpcodeTableEntry { opcode: 0x1000, mask: 0xF000, family: OpcodeFamily::Op1NNN },
        OpcodeTableEntry { opcode: 0x2000, mask: 0xF000, family: OpcodeFamily::Op2NNN },
        OpcodeTableEntry { opcode: 0x3000, mask: 0xF000, family: OpcodeFamily::Op3XNN },
        OpcodeTableEntry { opcode: 0x4000, mask: 0xF000, family: OpcodeFamily::Op4XNN },
        OpcodeTableEntry { opcode: 0x5000, mask: 0xF00F, family: OpcodeFamily::Op5XY0 },
        OpcodeTableEntry { opcode: 0x6000, mask: 0xF000, family: OpcodeFamily::Op6XNN },
        OpcodeTableEntry { opcode: 0x7000, mask: 0xF000, family: OpcodeFamily::Op7XNN },
        OpcodeTableEntry { opcode: 0x8000, mask: 0xF00F, family: OpcodeFamily::Op8XY0 },
        OpcodeTableEntry { opcode: 0x8001, mask: 0xF00F, family: OpcodeFamily::Op8XY1 },
        OpcodeTableEntry { opcode: 0x8002, mask: 0xF00F, family: OpcodeFamily::Op8XY2 },
        OpcodeTableEntry { opcode: 0x8003, mask: 0xF00F, family: OpcodeFamily::Op8XY3 },
        OpcodeTableEntry { opcode: 0x8004, mask: 0xF00F, family: OpcodeFamily::Op8XY4 },
        OpcodeTableEntry { opcode: 0x8005, mask: 0xF00F, family: OpcodeFamily::Op8XY5 },
        OpcodeTableEntry { opcode: 0x8006, mask: 0xF00F, family: OpcodeFamily::Op8XY6 },
        OpcodeTableEntry { opcode: 0x8007, mask: 0xF00F, family: OpcodeFamily::Op8XY7 },
        OpcodeTableEntry { opcode: 0x800E, mask: 0xF00F, family: OpcodeFamily::Op8XYE },
        OpcodeTableEntry { opcode: 0x9000, mask: 0xF00F, family: OpcodeFamily::Op9XY0 },
        OpcodeTableEntry { opcode: 0xA000, mask: 0xF000, family: OpcodeFamily::OpANNN },
        OpcodeTableEntry { opcode: 0xB000, mask: 0xF000, family: OpcodeFamily::OpBNNN },
        OpcodeTableEntry { opcode: 0xC000, mask: 0xF000, family: OpcodeFamily::OpCXNN },
        OpcodeTableEntry { opcode: 0xD000, mask: 0xF000, family: OpcodeFamily::OpDXYN },
        OpcodeTableEntry { opcode: 0xE09E, mask: 0xF0FF, family: OpcodeFamily::OpEX9E },
        OpcodeTableEntry { opcode: 0xE0A1, mask: 0xF0FF, family: OpcodeFamily::OpEXA1 },
        OpcodeTableEntry { opcode: 0xF007, mask: 0xF0FF, family: OpcodeFamily::OpFX07 },
        OpcodeTableEntry { opcode: 0xF00A, mask: 0xF0FF, family: OpcodeFamily::OpFX0A },
        OpcodeTableEntry { opcode: 0xF015, mask: 0xF0FF, family: OpcodeFamily::OpFX15 },
        OpcodeTableEntry { opcode: 0xF018, mask: 0xF0FF, family: OpcodeFamily::OpFX18 },
        OpcodeTableEntry { opcode: 0xF01E, mask: 0xF0FF, family: OpcodeFamily::OpFX1E },
        OpcodeTableEntry { opcode: 0xF029, mask: 0xF0FF, family: OpcodeFamily::OpFX29 },
        OpcodeTableEntry { opcode: 0xF033, mask: 0xF0FF, family: OpcodeFamily::OpFX33 },
        OpcodeTableEntry { opcode: 0xF055, mask: 0xF0FF, family: OpcodeFamily::OpFX55 },
        OpcodeTableEntry { opcode: 0xF065, mask: 0xF0FF, family: OpcodeFamily::OpFX65 },
    ]
}

/// The opcode table as a value: the rows of `opcode_table_spec`, in order.
pub fn opcode_table() -> (table: [OpcodeTableEntry; OPCODE_COUNT])
    ensures
        table@ == opcode_table_spec(),
{
    let table = [
        OpcodeTableEntry { opcode: 0x00E0, mask: 0xFFFF, family: OpcodeFamily::Op00E0 },
        OpcodeTableEntry { opcode: 0x00EE, mask: 0xFFFF, family: OpcodeFamily::Op00EE },
        OpcodeTableEntry { opcode: 0x0000, mask: 0xF000, family: OpcodeFamily::Op0NNN },
        OpcodeTableEntry { opcode: 0x1000, mask: 0xF000, family: OpcodeFamily::Op1NNN },
        OpcodeTableEntry { opcode: 0x2000, mask: 0xF000, family: OpcodeFamily::Op2NNN },
        OpcodeTableEntry { opcode: 0x3000, mask: 0xF000, family: OpcodeFamily::Op3XNN },
        OpcodeTableEntry { opcode: 0x4000, mask: 0xF000, family: OpcodeFamily::Op4XNN },
        OpcodeTableEntry { opcode: 0x5000, mask: 0xF00F, family: OpcodeFamily::Op5XY0 },
        OpcodeTableEntry { opcode: 0x6000, mask: 0xF000, family: OpcodeFamily::Op6XNN },
        OpcodeTableEntry { opcode: 0x7000, mask: 0xF000, family: OpcodeFamily::Op7XNN },
        OpcodeTableEntry { opcode: 0x8000, mask: 0xF00F, family: OpcodeFamily::Op8XY0 },
        OpcodeTableEntry { opcode: 0x8001, mask: 0xF00F, family: OpcodeFamily::Op8XY1 },
        OpcodeTableEntry { opcode: 0x8002, mask: 0xF00F, family: OpcodeFamily::Op8XY2 },
        OpcodeTableEntry { opcode: 0x8003, mask: 0xF00F, family: OpcodeFamily::Op8XY3 },
        OpcodeTableEntry { opcode: 0x8004, mask: 0xF00F, family: OpcodeFamily::Op8XY4 },
        OpcodeTableEntry { opcode: 0x8005, mask: 0xF00F, family: OpcodeFamily::Op8XY5 },
        OpcodeTableEntry { opcode: 0x8006, mask: 0xF00F, family: OpcodeFamily::Op8XY6 },
        OpcodeTableEntry { opcode: 0x8007, mask: 0xF00F, family: OpcodeFamily::Op8XY7 },
        OpcodeTableEntry { opcode: 0x800E, mask: 0xF00F, family: OpcodeFamily::Op8XYE },
        OpcodeTableEntry { opcode: 0x9000, mask: 0xF00F, family: OpcodeFamily::Op9XY0 },
        OpcodeTableEntry { opcode: 0xA000, mask: 0xF000, family: OpcodeFamily::OpANNN },
        OpcodeTableEntry { opcode: 0xB000, mask: 0xF000, family: OpcodeFamily::OpBNNN },
        OpcodeTableEntry { opcode: 0xC000, mask: 0xF000, family: OpcodeFamily::OpCXNN },
        OpcodeTableEntry { opcode: 0xD000, mask: 0xF000, family: OpcodeFamily::OpDXYN },
        OpcodeTableEntry { opcode: 0xE09E, mask: 0xF0FF, family: OpcodeFamily::OpEX9E },
        OpcodeTableEntry { opcode: 0xE0A1, mask: 0xF0FF, family: OpcodeFamily::OpEXA1 },
        OpcodeTableEntry { opcode: 0xF007, mask: 0xF0FF, family: OpcodeFamily::OpFX07 },
        OpcodeTableEntry { opcode: 0xF00A, mask: 0xF0FF, family: OpcodeFamily::OpFX0A },
        OpcodeTableEntry { opcode: 0xF015, mask: 0xF0FF, family: OpcodeFamily::OpFX15 },
        OpcodeTableEntry { opcode: 0xF018, mask: 0xF0FF, family: OpcodeFamily::OpFX18 },
        OpcodeTableEntry { opcode: 0xF01E, mask: 0xF0FF, family: OpcodeFamily::OpFX1E },
        OpcodeTableEntry { opcode: 0xF029, mask: 0xF0FF, family: OpcodeFamily::OpFX29 },
        OpcodeTableEntry { opcode: 0xF033, mask: 0xF0FF, family: OpcodeFamily::OpFX33 },
        OpcodeTableEntry { opcode: 0xF055, mask: 0xF0FF, family: OpcodeFamily::OpFX55 },
        OpcodeTableEntry { opcode: 0xF065, mask: 0xF0FF, family: OpcodeFamily::OpFX65 },
    ];
    assert(table@ =~= opcode_table_spec());
    table
}

/// The operation of the first entry of `table`, from index `from` on, that
/// `opcode` matches; `None` when no entry from there on matches.
pub open spec fn scan(table: Seq<OpcodeTableEntry>, opcode: u16, from: int) -> Option<InstructionV2>
    decreases table.len() - from,
{
    if from < 0 || from >= table.len() {
        None
    } else if table[from].matches(opcode) {
        Some(table[from].family.instruction(opcode))
    } else {
        scan(table, opcode, from + 1)
    }
}

/// What the table says of a word: first match wins.
pub open spec fn lookup_spec(opcode: u16) -> Option<InstructionV2> {
    scan(opcode_table_spec(), opcode, 0)
}

/// What decoding yields: the sentinel for the all-zero word, which is never
/// held against the table; otherwise the table's answer.
pub open spec fn decode_by_table(opcode: u16) -> Option<InstructionV2> {
    if opcode == 0 {
        Some(InstructionV2::NoOp)
    } else {
        lookup_spec(opcode)
    }
}

/// Whether some entry of the opcode table matches `opcode`.
pub open spec fn some_entry_matches(opcode: u16) -> bool {
    exists|i: int|
        0 <= i < opcode_table_spec().len() && #[trigger] opcode_table_spec()[i].matches(opcode)
}

/// Whether entry `i` is the first entry of the opcode table that `opcode`
/// matches.
pub open spec fn is_first_match(opcode: u16, i: int) -> bool {
    &&& 0 <= i < opcode_table_spec().len()
    &&& opcode_table_spec()[i].matches(opcode)
    &&& forall|j: int| 0 <= j < i ==> !(#[trigger] opcode_table_spec()[j].matches(opcode))
}

/// Searches the opcode table in order and decodes `opcode` by the first entry
/// it matches. This is the table's answer alone: the all-zero word, which is
/// no instruction, is set apart by the decoders before they ask the table.
pub fn lookup(opcode: u16) -> (found: Option<InstructionV2>)
    ensures
        found == lookup_spec(opcode),
        found matches Some(ins) ==> ins.well_formed() && ins != InstructionV2::NoOp,
{
    let table = opcode_table();
    let mut index: usize = 0;
    while index < OPCODE_COUNT
        invariant
            index <= OPCODE_COUNT,
            table@ == opcode_table_spec(),
            lookup_spec(opcode) == scan(table@, opcode, index as int),
        decreases OPCODE_COUNT - index,
    {
        let entry = table[index];
        if entry.is_match(opcode) {
            return Some(entry.family.handle(opcode));
        }
        index += 1;
    }
    None
}

/// The text of the failure that `try_from` reports for `opcode`.
pub open spec fn not_found_message(opcode: u16) -> Seq<char> {
    "Opcode not found: "@ + upper_hex(opcode)
}

impl InstructionV2 {
    /// Decodes `opcode` by the opcode table. The all-zero word is the
    /// sentinel `NoOp`; a word that no entry matches is reported by a message
    /// that shows it in hexadecimal.
    pub fn try_from(opcode: u16) -> (decoded: Result<InstructionV2, String>)
        ensures
            match decode_by_table(opcode) {
                Some(ins) => decoded == Ok::<InstructionV2, String>(ins),
                None => decoded matches Err(message) && message@ == not_found_message(opcode),
            },
            decoded matches Ok(ins) ==> ins.well_formed(),
    {
        if opcode == 0 {
            return Ok(InstructionV2::NoOp);
        }
        match lookup(opcode) {
            Some(ins) => Ok(ins),
            None => {
                let mut message = String::from_str("Opcode not found: ");
                append_upper_hex(&mut message, opcode);
                Err(message)
            },
        }
    }
}

/// Row by row, matching a pattern under its mask is the same as showing the
/// pattern's class and, where the mask covers one, its selector.
pub proof fn lemma_match_by_fields(opcode: u16)
    by (bit_vector)
    ensures
        (opcode & 0xFFFF == 0x00E0) == (opcode == 0x00E0),
        (opcode & 0xFFFF == 0x00EE) == (opcode == 0x00EE),
        (opcode & 0xF000 == 0x0000) == (mask_F000(opcode) == 0x0),
        (opcode & 0xF000 == 0x1000) == (mask_F000(opcode) == 0x1),
        (opcode & 0xF000 == 0x2000) == (mask_F000(opcode) == 0x2),
        (opcode & 0xF000 == 0x3000) == (mask_F000(opcode) == 0x3),
        (opcode & 0xF000 == 0x4000) == (mask_F000(opcode) == 0x4),
        (opcode & 0xF00F == 0x5000) == (mask_F000(opcode) == 0x5 && mask_000F(opcode) == 0x0),
        (opcode & 0xF000 == 0x6000) == (mask_F000(opcode) == 0x6),
        (opcode & 0xF000 == 0x7000) == (mask_F000(opcode) == 0x7),
        (opcode & 0xF00F == 0x8000) == (mask_F000(opcode) == 0x8 && mask_000F(opcode) == 0x0),
        (opcode & 0xF00F == 0x8001) == (mask_F000(opcode) == 0x8 && mask_000F(opcode) == 0x1),
        (opcode & 0xF00F == 0x8002) == (mask_F000(opcode) == 0x8 && mask_000F(opcode) == 0x2),
        (opcode & 0xF00F == 0x8003) == (mask_F000(opcode) == 0x8 && mask_000F(opcode) == 0x3),
        (opcode & 0xF00F == 0x8004) == (mask_F000(opcode) == 0x8 && mask_000F(opcode) == 0x4),
        (opcode & 0xF00F == 0x8005) == (mask_F000(opcode) == 0x8 && mask_000F(opcode) == 0x5),
        (opcode & 0xF00F == 0x8006) == (mask_F000(opcode) == 0x8 && mask_000F(opcode) == 0x6),
        (opcode & 0xF00F == 0x8007) == (mask_F000(opcode) == 0x8 && mask_000F(opcode) == 0x7),
        (opcode & 0xF00F == 0x800E) == (mask_F000(opcode) == 0x8 && mask_000F(opcode) == 0xE),
        (opcode & 0xF00F == 0x9000) == (mask_F000(opcode) == 0x9 && mask_000F(opcode) == 0x0),
        (opcode & 0xF000 == 0xA000) == (mask_F000(opcode) == 0xA),
        (opcode & 0xF000 == 0xB000) == (mask_F000(opcode) == 0xB),
        (opcode & 0xF000 == 0xC000) == (mask_F000(opcode) == 0xC),
        (opcode & 0xF000 == 0xD000) == (mask_F000(opcode) == 0xD),
        (opcode & 0xF0FF == 0xE09E) == (mask_F000(opcode) == 0xE && mask_00FF(opcode) == 0x9E),
        (opcode & 0xF0FF == 0xE0A1) == (mask_F000(opcode) == 0xE && mask_00FF(opcode) == 0xA1),
        (opcode & 0xF0FF == 0xF007) == (mask_F000(opcode) == 0xF && mask_00FF(opcode) == 0x07),
        (opcode & 0xF0FF == 0xF00A) == (mask_F000(opcode) == 0xF && mask_00FF(opcode) == 0x0A),
        (opcode & 0xF0FF == 0xF015) == (mask_F000(opcode) == 0xF && mask_00FF(opcode) == 0x15),
        (opcode & 0xF0FF == 0xF018) == (mask_F000(opcode) == 0xF && mask_00FF(opcode) == 0x18),
        (opcode & 0xF0FF == 0xF01E) == (mask_F000(opcode) == 0xF && mask_00FF(opcode) == 0x1E),
        (opcode & 0xF0FF == 0xF029) == (mask_F000(opcode) == 0xF && mask_00FF(opcode) == 0x29),
        (opcode & 0xF0FF == 0xF033) == (mask_F000(opcode) == 0xF && mask_00FF(opcode) == 0x33),
        (opcode & 0xF0FF == 0xF055) == (mask_F000(opcode) == 0xF && mask_00FF(opcode) == 0x55),
        (opcode & 0xF0FF == 0xF065) == (mask_F000(opcode) == 0xF && mask_00FF(opcode) == 0x65),
{
}

/// `scan` answers with the first matching entry at or after `from`, and with
/// `None` exactly when none matches from there on.
pub proof fn lemma_scan_first_match(table: Seq<OpcodeTableEntry>, opcode: u16, from: int)
    requires
        0 <= from <= table.len(),
    ensures
        match scan(table, opcode, from) {
            Some(ins) => exists|i: int|
                {
                    &&& from <= i < table.len()
                    &&& #[trigger] table[i].matches(opcode)
                    &&& ins == table[i].family.instruction(opcode)
                    &&& forall|j: int| from <= j < i ==> !(#[trigger] table[j].matches(opcode))
                },
            None => forall|j: int|
                from <= j < table.len() ==> !(#[trigger] table[j].matches(opcode)),
        },
    decreases table.len() - from,
{
    if from < table.len() && !table[from].matches(opcode) {
        lemma_scan_first_match(table, opcode, from + 1);
        if scan(table, opcode, from + 1) is Some {
            let i = choose|i: int|
                {
                    &&& from + 1 <= i < table.len()
                    &&& #[trigger] table[i].matches(opcode)
                    &&& scan(table, opcode, from + 1) == Some(table[i].family.instruction(opcode))
                    &&& forall|j: int| from + 1 <= j < i ==> !(#[trigger] table[j].matches(opcode))
                };
            assert(forall|j: int| from <= j < i ==> !(#[trigger] table[j].matches(opcode)));
        }
    }
}

/// The table has 35 rows and names no family twice.
pub proof fn lemma_table_shape()
    ensures
        opcode_table_spec().len() == OPCODE_COUNT,
        forall|i: int, j: int|
            0 <= i < OPCODE_COUNT && 0 <= j < OPCODE_COUNT
                && (#[trigger] opcode_table_spec()[i]).family
                == (#[trigger] opcode_table_spec()[j]).family ==> i == j,
{
}

/// Every class from `0` to `F` has a row.
pub proof fn lemma_class_has_a_row(class: u8)
    requires
        class < 0x10,
    ensures
        exists|i: int|
            0 <= i < OPCODE_COUNT && (#[trigger] opcode_table_spec()[i]).opcode / 0x1000 == class,
{
    let i: int = if class == 0x0 {
        2
    } else if class <= 0x7 {
        class + 2
    } else if class == 0x8 {
        10
    } else if class <= 0xD {
        class + 10
    } else if class == 0xE {
        24
    } else {
        26
    };
    assert(opcode_table_spec()[i].opcode / 0x1000 == class);
}

/// No row is dead: each is the first that its own pattern matches, so each
/// family can be decoded.
pub proof fn lemma_row_is_reachable(i: int)
    requires
        0 <= i < OPCODE_COUNT,
    ensures
        ({
            let row = opcode_table_spec()[i];
            &&& is_first_match(row.opcode, i)
            &&& lookup_spec(row.opcode) == Some(row.family.instruction(row.opcode))
        }),
{
    let table = opcode_table_spec();
    let pattern = table[i].opcode;
    lemma_match_by_fields(pattern);
    lemma_fields_are_digits(pattern);
    assert(table[i].matches(pattern));
    assert forall|j: int| 0 <= j < i implies !(#[trigger] table[j].matches(pattern)) by {}
    lemma_scan_first_match(table, pattern, 0);
}

} // verus!

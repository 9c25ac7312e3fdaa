//! Bit-field extraction: the six projections of a 16-bit opcode word that the
//! rest of decoding is built from.

use vstd::prelude::*;

verus! {

/// The opcode class: bits 12..16 of the word.
#[allow(non_snake_case)]
pub open spec fn spec_mask_F000(opcode: u16) -> u8 {
    ((opcode >> 12) & 0xF) as u8
}

/// The low byte: bits 0..8 of the word.
#[allow(non_snake_case)]
pub open spec fn spec_mask_00FF(opcode: u16) -> u8 {
    (opcode & 0xFF) as u8
}

/// The second nibble: bits 8..12 of the word.
#[allow(non_snake_case)]
pub open spec fn spec_mask_0F00(opcode: u16) -> u8 {
    ((opcode >> 8) & 0xF) as u8
}

/// The low twelve bits of the word.
#[allow(non_snake_case)]
pub open spec fn spec_mask_0FFF(opcode: u16) -> u16 {
    opcode & 0xFFF
}

/// The third nibble: bits 4..8 of the word.
#[allow(non_snake_case)]
pub open spec fn spec_mask_00F0(opcode: u16) -> u8 {
    ((opcode >> 4) & 0xF) as u8
}

/// The low nibble: bits 0..4 of the word.
#[allow(non_snake_case)]
pub open spec fn spec_mask_000F(opcode: u16) -> u8 {
    (opcode & 0xF) as u8
}

/// Each field, read as a number, is the matching hexadecimal digit group of
/// the word; no field exceeds the width its mask allows.
pub proof fn lemma_fields_are_digits(opcode: u16)
    ensures
        spec_mask_F000(opcode) == opcode / 0x1000,
        spec_mask_0F00(opcode) == (opcode / 0x100) % 0x10,
        spec_mask_00F0(opcode) == (opcode / 0x10) % 0x10,
        spec_mask_000F(opcode) == opcode % 0x10,
        spec_mask_00FF(opcode) == opcode % 0x100,
        spec_mask_0FFF(opcode) == opcode % 0x1000,
        spec_mask_F000(opcode) == (opcode >> 12) & 0xF,
        spec_mask_0F00(opcode) == (opcode >> 8) & 0xF,
        spec_mask_00F0(opcode) == (opcode >> 4) & 0xF,
        spec_mask_000F(opcode) == opcode & 0xF,
        spec_mask_00FF(opcode) == opcode & 0xFF,
{
    assert(((opcode >> 12) & 0xF) == opcode / 0x1000 && ((opcode >> 8) & 0xF) == (opcode / 0x100)
        % 0x10 && ((opcode >> 4) & 0xF) == (opcode / 0x10) % 0x10 && (opcode & 0xF) == opcode
        % 0x10 && (opcode & 0xFF) == opcode % 0x100 && (opcode & 0xFFF) == opcode % 0x1000)
        by (bit_vector);
}

#[allow(non_snake_case)]
#[verifier::when_used_as_spec(spec_mask_F000)]
pub fn mask_F000(opcode: u16) -> (field: u8)
    ensures
        field == spec_mask_F000(opcode),
        field == (opcode >> 12) & 0xF,
        field == opcode / 0x1000,
        field < 0x10,
{
    proof {
        lemma_fields_are_digits(opcode);
    }
    ((opcode >> 12) & 0xF) as u8
}

#[allow(non_snake_case)]
#[verifier::when_used_as_spec(spec_mask_00FF)]
pub fn mask_00FF(opcode: u16) -> (field: u8)
    ensures
        field == spec_mask_00FF(opcode),
        field == opcode & 0xFF,
        field == opcode % 0x100,
{
    proof {
        lemma_fields_are_digits(opcode);
    }
    (opcode & 0xFF) as u8
}

#[allow(non_snake_case)]
#[verifier::when_used_as_spec(spec_mask_0F00)]
pub fn mask_0F00(opcode: u16) -> (field: u8)
    ensures
        field == spec_mask_0F00(opcode),
        field == (opcode >> 8) & 0xF,
        field == (opcode / 0x100) % 0x10,
        field < 0x10,
{
    proof {
        lemma_fields_are_digits(opcode);
    }
    ((opcode >> 8) & 0xF) as u8
}

#[allow(non_snake_case)]
#[verifier::when_used_as_spec(spec_mask_0FFF)]
pub fn mask_0FFF(opcode: u16) -> (field: u16)
    ensures
        field == spec_mask_0FFF(opcode),
        field == opcode & 0xFFF,
        field == opcode % 0x1000,
        field < 0x1000,
{
    proof {
        lemma_fields_are_digits(opcode);
    }
    opcode & 0xFFF
}

#[allow(non_snake_case)]
#[verifier::when_used_as_spec(spec_mask_00F0)]
pub fn mask_00F0(opcode: u16) -> (field: u8)
    ensures
        field == spec_mask_00F0(opcode),
        field == (opcode >> 4) & 0xF,
        field == (opcode / 0x10) % 0x10,
        field < 0x10,
{
    proof {
        lemma_fields_are_digits(opcode);
    }
    ((opcode >> 4) & 0xF) as u8
}

#[allow(non_snake_case)]
#[verifier::when_used_as_spec(spec_mask_000F)]
pub fn mask_000F(opcode: u16) -> (field: u8)
    ensures
        field == spec_mask_000F(opcode),
        field == opcode & 0xF,
        field == opcode % 0x10,
        field < 0x10,
{
    proof {
        lemma_fields_are_digits(opcode);
    }
    (opcode & 0xF) as u8
}

} // verus!

//! The decoder: from a fetched word to a typed instruction or a decode
//! failure, by the opcode table.

use vstd::prelude::*;
use crate::bitmasks::lemma_fields_are_digits;
use crate::opcodes::{lemma_lookup_by_family, Instruction};
use crate::opcodesv2::{
    decode_by_table, is_first_match, lemma_match_by_fields, lemma_scan_first_match, lookup,
    lookup_spec, opcode_table_spec, some_entry_matches,
};

verus! {

/// Why a word could not be decoded.
#[derive(Clone, Copy, Debug, PartialEq, Eq, Structural)]
pub enum DecodeError {
    /// No entry of the opcode table matches the word, which is carried along.
    UnknownOpcode(u16),
}

/// The outcome of decoding `word`: the sentinel for the all-zero word, the
/// operation of the first table entry that a non-zero word matches, and
/// `UnknownOpcode` where it matches none.
pub open spec fn decode_spec(word: u16) -> Result<Instruction, DecodeError> {
    match decode_by_table(word) {
        Some(ins) => Ok(Instruction::from_v2(ins)),
        None => Err(DecodeError::UnknownOpcode(word)),
    }
}

/// Decodes one fetched word. The all-zero word is no instruction and gives
/// the sentinel `NoOp`; any other word gives the operation of the first entry
/// of the opcode table that it matches, built from its fields, or
/// `UnknownOpcode` with the word itself where no entry matches.
pub fn decode(word: u16) -> (decoded: Result<Instruction, DecodeError>)
    ensures
        decoded == decode_spec(word),
        decoded matches Ok(ins) ==> ins.well_formed(),
{
    if word == 0 {
        return Ok(Instruction::NoOp);
    }
    match lookup(word) {
        Some(ins) => Ok(Instruction::from_v2(ins)),
        None => Err(DecodeError::UnknownOpcode(word)),
    }
}

/// Decoding is total and decides among three outcomes, of which exactly one
/// holds of each word: the word is zero and the outcome is the sentinel; the
/// word is not zero, some entry matches, and the outcome is the operation of
/// the first entry that does; no entry matches and the outcome is
/// `UnknownOpcode` with the word.
pub proof fn lemma_decode_outcomes(word: u16)
    ensures
        decode_spec(word) == Ok::<Instruction, DecodeError>(Instruction::NoOp) <==> word == 0,
        word != 0 ==> (decode_spec(word) is Ok <==> some_entry_matches(word)),
        word != 0 && some_entry_matches(word) ==> exists|i: int|
            {
                &&& #[trigger] is_first_match(word, i)
                &&& decode_spec(word) == Ok::<Instruction, DecodeError>(
                    Instruction::from_v2(opcode_table_spec()[i].family.instruction(word)),
                )
            },
        decode_spec(word) is Err <==> word != 0 && !some_entry_matches(word),
        decode_spec(word) is Err ==> decode_spec(word) == Err::<Instruction, DecodeError>(
            DecodeError::UnknownOpcode(word),
        ),
{
    let table = opcode_table_spec();
    lemma_scan_first_match(table, word, 0);
    if word != 0 {
        match lookup_spec(word) {
            Some(ins) => {
                let i = choose|i: int|
                    {
                        &&& 0 <= i < table.len()
                        &&& #[trigger] table[i].matches(word)
                        &&& ins == table[i].family.instruction(word)
                        &&& forall|j: int| 0 <= j < i ==> !(#[trigger] table[j].matches(word))
                    };
                assert(is_first_match(word, i));
            },
            None => {},
        }
    }
}

/// Two entries that one word matches both are an exact pattern, `00E0` or
/// `00EE`, and the `0NNN` catch-all behind it. The earlier entry has the more
/// specific mask, and it is the one that decides.
pub proof fn lemma_overlap_resolved(word: u16, i: int, j: int)
    requires
        0 <= i < j < opcode_table_spec().len(),
        opcode_table_spec()[i].matches(word),
        opcode_table_spec()[j].matches(word),
    ensures
        j == 2,
        (i == 0 && word == 0x00E0) || (i == 1 && word == 0x00EE),
        opcode_table_spec()[i].mask == 0xFFFF,
        opcode_table_spec()[j].mask == 0xF000,
        lookup_spec(word) == Some(opcode_table_spec()[i].family.instruction(word)),
{
    lemma_match_by_fields(word);
    lemma_fields_are_digits(word);
    lemma_lookup_by_family(word);
}

/// But for the words `00E0` and `00EE`, a word matches at most one entry.
pub proof fn lemma_single_match(word: u16, i: int, j: int)
    requires
        word != 0x00E0,
        word != 0x00EE,
        0 <= i < opcode_table_spec().len(),
        0 <= j < opcode_table_spec().len(),
        opcode_table_spec()[i].matches(word),
        opcode_table_spec()[j].matches(word),
    ensures
        i == j,
{
    if i < j {
        lemma_overlap_resolved(word, i, j);
    } else if j < i {
        lemma_overlap_resolved(word, j, i);
    }
}

} // verus!

//! Upper-case hexadecimal rendering of an opcode word, as diagnostics show it.

use vstd::prelude::*;
use crate::bitmasks::{lemma_fields_are_digits, mask_000F, mask_00F0, mask_0F00, mask_F000};

verus! {

/// The sixteen upper-case hexadecimal digits, in order of value.
pub open spec fn upper_hex_digits() -> Seq<char> {
    seq!['0', '1', '2', '3', '4', '5', '6', '7', '8', '9', 'A', 'B', 'C', 'D', 'E', 'F']
}

/// The digits of `word` in base sixteen, most significant first, without
/// leading zeros; zero is the single digit `0`.
pub open spec fn upper_hex(word: u16) -> Seq<char>
    decreases word,
{
    if word < 0x10 {
        seq![upper_hex_digits()[word as int]]
    } else {
        upper_hex(word / 0x10).push(upper_hex_digits()[(word % 0x10) as int])
    }
}

/// The text of one hexadecimal digit.
fn digit_text(digit: u8) -> (text: &'static str)
    requires
        digit < 0x10,
    ensures
        text@ == seq![upper_hex_digits()[digit as int]],
{
    proof {
        reveal_strlit("0");
        reveal_strlit("1");
        reveal_strlit("2");
        reveal_strlit("3");
        reveal_strlit("4");
        reveal_strlit("5");
        reveal_strlit("6");
        reveal_strlit("7");
        reveal_strlit("8");
        reveal_strlit("9");
        reveal_strlit("A");
        reveal_strlit("B");
        reveal_strlit("C");
        reveal_strlit("D");
        reveal_strlit("E");
        reveal_strlit("F");
    }
    let text = match digit {
        0x0 => "0",
        0x1 => "1",
        0x2 => "2",
        0x3 => "3",
        0x4 => "4",
        0x5 => "5",
        0x6 => "6",
        0x7 => "7",
        0x8 => "8",
        0x9 => "9",
        0xA => "A",
        0xB => "B",
        0xC => "C",
        0xD => "D",
        0xE => "E",
        _ => "F",
    };
    assert(text@ =~= seq![upper_hex_digits()[digit as int]]);
    text
}

/// Appends the upper-case hexadecimal digits of `word` to `text`.
pub fn append_upper_hex(text: &mut String, word: u16)
    ensures
        final(text)@ == old(text)@ + upper_hex(word),
{
    let d3 = mask_F000(word);
    let d2 = mask_0F00(word);
    let d1 = mask_00F0(word);
    let d0 = mask_000F(word);
    proof {
        lemma_fields_are_digits(word);
        reveal_with_fuel(upper_hex, 4);
    }
    if d3 != 0 {
        text.append(digit_text(d3));
    }
    if d3 != 0 || d2 != 0 {
        text.append(digit_text(d2));
    }
    if d3 != 0 || d2 != 0 || d1 != 0 {
        text.append(digit_text(d1));
    }
    text.append(digit_text(d0));
    assert(text@ =~= old(text)@ + upper_hex(word));
}

} // verus!

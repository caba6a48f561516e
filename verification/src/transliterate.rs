//! Text for the printer: one byte for each character.

use vstd::prelude::*;
use crate::commands::LINE_FEED;

verus! {

/// What is printed for a character that has no approximation: a space.
pub const PLACEHOLDER: u8 = 0x20;

/// The approximations of accented and other Latin letters, of signs and of
/// typographic punctuation. Each entry is a run of characters, from its first
/// code point to its last, and the byte that all of them are printed as. Where
/// two runs hold a character, the earlier one counts.
pub const APPROXIMATIONS: [(u32, u32, u8); 58] = [
    (0x00A0, 0x00A0, 0x20),
    (0x00A1, 0x00A1, 0x21),
    (0x00A2, 0x00A2, 0x63),
    (0x00A3, 0x00A3, 0x4C),
    (0x00A5, 0x00A5, 0x59),
    (0x00A6, 0x00A6, 0x7C),
    (0x00A9, 0x00A9, 0x63),
    (0x00AA, 0x00AA, 0x61),
    (0x00AB, 0x00AB, 0x22),
    (0x00AD, 0x00AD, 0x2D),
    (0x00AE, 0x00AE, 0x72),
    (0x00B0, 0x00B0, 0x6F),
    (0x00B2, 0x00B2, 0x32),
    (0x00B3, 0x00B3, 0x33),
    (0x00B4, 0x00B4, 0x27),
    (0x00B5, 0x00B5, 0x75),
    (0x00B7, 0x00B7, 0x2E),
    (0x00B9, 0x00B9, 0x31),
    (0x00BA, 0x00BA, 0x6F),
    (0x00BB, 0x00BB, 0x22),
    (0x00BF, 0x00BF, 0x3F),
    (0x00C0, 0x00C6, 0x41),
    (0x00C7, 0x00C7, 0x43),
    (0x00C8, 0x00CB, 0x45),
    (0x00CC, 0x00CF, 0x49),
    (0x00D0, 0x00D0, 0x44),
    (0x00D1, 0x00D1, 0x4E),
    (0x00D2, 0x00D6, 0x4F),
    (0x00D7, 0x00D7, 0x78),
    (0x00D8, 0x00D8, 0x4F),
    (0x00D9, 0x00DC, 0x55),
    (0x00DD, 0x00DD, 0x59),
    (0x00DE, 0x00DE, 0x54),
    (0x00DF, 0x00DF, 0x73),
    (0x00E0, 0x00E6, 0x61),
    (0x00E7, 0x00E7, 0x63),
    (0x00E8, 0x00EB, 0x65),
    (0x00EC, 0x00EF, 0x69),
    (0x00F0, 0x00F0, 0x64),
    (0x00F1, 0x00F1, 0x6E),
    (0x00F2, 0x00F6, 0x6F),
    (0x00F7, 0x00F7, 0x2F),
    (0x00F8, 0x00F8, 0x6F),
    (0x00F9, 0x00FC, 0x75),
    (0x00FD, 0x00FD, 0x79),
    (0x00FE, 0x00FE, 0x74),
    (0x00FF, 0x00FF, 0x79),
    (0x0152, 0x0152, 0x4F),
    (0x0153, 0x0153, 0x6F),
    (0x0160, 0x0160, 0x53),
    (0x0161, 0x0161, 0x73),
    (0x0178, 0x0178, 0x59),
    (0x2010, 0x2015, 0x2D),
    (0x2018, 0x201B, 0x27),
    (0x201C, 0x201F, 0x22),
    (0x2022, 0x2022, 0x2A),
    (0x2026, 0x2026, 0x2E),
    (0x20AC, 0x20AC, 0x45),
];

/// Whether `byte` is a printable character of ASCII, the space included.
pub open spec fn is_printable(byte: u8) -> bool {
    0x20 <= byte <= 0x7E
}

/// Whether the printer takes `byte` as text: a printable character or the end
/// of a line.
pub open spec fn is_printer_safe(byte: u8) -> bool {
    is_printable(byte) || byte == LINE_FEED
}

/// The byte of the first run of `table` that holds `code`, if it is printable;
/// the placeholder where no run holds `code`.
pub open spec fn approximation_in(table: Seq<(u32, u32, u8)>, code: u32) -> u8
    decreases table.len(),
{
    if table.len() == 0 {
        PLACEHOLDER
    } else if table[0].0 <= code <= table[0].1 {
        if is_printable(table[0].2) {
            table[0].2
        } else {
            PLACEHOLDER
        }
    } else {
        approximation_in(table.skip(1), code)
    }
}

/// The byte that is printed for `c`. A printable character of ASCII is
/// printed as it is and a line feed ends the line. Of the other characters,
/// those in the table of approximations are printed as the table says and the
/// rest as the placeholder.
pub open spec fn thermal_byte(c: char) -> u8 {
    if 0x20 <= c as u32 <= 0x7E {
        c as u8
    } else if c as u32 == 0x0A {
        LINE_FEED
    } else {
        approximation_in(APPROXIMATIONS@, c as u32)
    }
}

/// The bytes that are printed for `text`: one for each character.
pub open spec fn transliterated(text: Seq<char>) -> Seq<u8> {
    text.map_values(|c: char| thermal_byte(c))
}

/// Whatever the table holds, an approximation is a printable character.
pub proof fn lemma_approximation_is_printable(table: Seq<(u32, u32, u8)>, code: u32)
    ensures
        is_printable(approximation_in(table, code)),
    decreases table.len(),
{
    if table.len() > 0 && !(table[0].0 <= code <= table[0].1) {
        lemma_approximation_is_printable(table.skip(1), code);
    }
}

/// Every character is printed as a byte that the printer takes as text, and
/// a printable character of ASCII as itself.
pub proof fn lemma_thermal_byte_is_safe(c: char)
    ensures
        is_printer_safe(thermal_byte(c)),
        0x20 <= c as u32 <= 0x7E ==> thermal_byte(c) as u32 == c as u32,
{
    lemma_approximation_is_printable(APPROXIMATIONS@, c as u32);
}

/// Computes [`approximation_in`] on the table of approximations.
fn approximate(code: u32) -> (byte: u8)
    ensures
        byte == approximation_in(APPROXIMATIONS@, code),
{
    let mut i: usize = 0;
    assert(APPROXIMATIONS@.skip(0) == APPROXIMATIONS@);
    while i < 58
        invariant
            i <= 58,
            APPROXIMATIONS@.len() == 58,
            approximation_in(APPROXIMATIONS@, code) == approximation_in(
                APPROXIMATIONS@.skip(i as int),
                code,
            ),
        decreases 58 - i,
    {
        let entry: (u32, u32, u8) = APPROXIMATIONS[i];
        proof {
            let rest = APPROXIMATIONS@.skip(i as int);
            assert(rest[0] == APPROXIMATIONS@[i as int]);
            assert(rest.skip(1) == APPROXIMATIONS@.skip(i + 1));
        }
        if entry.0 <= code && code <= entry.1 {
            if 0x20 <= entry.2 && entry.2 <= 0x7E {
                return entry.2;
            }
            return PLACEHOLDER;
        }
        i += 1;
    }
    PLACEHOLDER
}

/// The byte that is printed for `c`.
pub fn to_thermal_byte(c: char) -> (byte: u8)
    ensures
        byte == thermal_byte(c),
        is_printer_safe(byte),
{
    proof {
        lemma_thermal_byte_is_safe(c);
    }
    let code: u32 = c as u32;
    if 0x20 <= code && code <= 0x7E {
        code as u8
    } else if code == 0x0A {
        LINE_FEED
    } else {
        approximate(code)
    }
}

/// Turns `text` into bytes that the printer takes as text, one for each
/// character. There is no text for which this fails.
pub fn to_ascii_thermal(text: &str) -> (out: Vec<u8>)
    ensures
        out@ == transliterated(text@),
        out@.len() == text@.len(),
        forall|i: int| 0 <= i < out@.len() ==> is_printer_safe(#[trigger] out@[i]),
{
    let mut out: Vec<u8> = Vec::new();
    for c in it: text.chars()
        invariant
            it.seq() == text@,
            out@ == transliterated(text@.take(it.index() as int)),
            forall|i: int| 0 <= i < out@.len() ==> is_printer_safe(#[trigger] out@[i]),
    {
        let byte = to_thermal_byte(c);
        out.push(byte);
        assert(text@.take(it.index() + 1) == text@.take(it.index() as int).push(c));
        assert(transliterated(text@.take(it.index() + 1)) == transliterated(
            text@.take(it.index() as int),
        ).push(byte));
    }
    assert(text@.take(text@.len() as int) == text@);
    out
}

} // verus!

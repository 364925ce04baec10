//! Mapping from Unicode scalar values to the fixed 256-glyph code page used by
//! the character-cell renderer.
//!
//! This is a pure, total function: the ASCII printable range maps to itself, a
//! fixed table covers the Latin-1 supplement and the box-drawing and symbol
//! characters of the code page, and everything else becomes `?`.

use vstd::prelude::*;

verus! {

/// The glyph for a Unicode scalar value, given as a code point.
///
/// Zero-width and combining code points are not supported; they map to `?`
/// like any other unmapped value.
pub open spec fn glyph_from_code_spec(cp: u32) -> u8 {
    match cp {
        0x0020u32..=0x007Eu32 => cp as u8,
        // 0x80 to 0x9F are the C1 control codes with no visual representation
        0x00A0 => 255, // no-break space
        0x00A1 => 173,
        0x00A2 => 189,
        0x00A3 => 156,
        0x00A4 => 207,
        0x00A5 => 190,
        0x00A6 => 221,
        0x00A7 => 245,
        0x00A8 => 249,
        0x00A9 => 184,
        0x00AA => 166,
        0x00AB => 174,
        0x00AC => 170,
        0x00AD => 240, // soft hyphen
        0x00AE => 169,
        0x00AF => 238,
        0x00B0 => 248,
        0x00B1 => 241,
        0x00B2 => 253,
        0x00B3 => 252,
        0x00B4 => 239,
        0x00B5 => 230,
        0x00B6 => 244,
        0x00B7 => 250,
        0x00B8 => 247,
        0x00B9 => 251,
        0x00BA => 167,
        0x00BB => 175,
        0x00BC => 172,
        0x00BD => 171,
        0x00BE => 243,
        0x00BF => 168,
        0x00C0 => 183,
        0x00C1 => 181,
        0x00C2 => 182,
        0x00C3 => 199,
        0x00C4 => 142,
        0x00C5 => 143,
        0x00C6 => 146,
        0x00C7 => 128,
        0x00C8 => 212,
        0x00C9 => 144,
        0x00CA => 210,
        0x00CB => 211,
        0x00CC => 222,
        0x00CD => 214,
        0x00CE => 215,
        0x00CF => 216,
        0x00D0 => 209,
        0x00D1 => 165,
        0x00D2 => 227,
        0x00D3 => 224,
        0x00D4 => 226,
        0x00D5 => 229,
        0x00D6 => 153,
        0x00D7 => 158,
        0x00D8 => 157,
        0x00D9 => 235,
        0x00DA => 233,
        0x00DB => 234,
        0x00DC => 154,
        0x00DD => 237,
        0x00DE => 232,
        0x00DF => 225,
        0x00E0 => 133,
        0x00E1 => 160,
        0x00E2 => 131,
        0x00E3 => 198,
        0x00E4 => 132,
        0x00E5 => 134,
        0x00E6 => 145,
        0x00E7 => 135,
        0x00E8 => 138,
        0x00E9 => 130,
        0x00EA => 136,
        0x00EB => 137,
        0x00EC => 141,
        0x00ED => 161,
        0x00EE => 140,
        0x00EF => 139,
        0x00F0 => 208,
        0x00F1 => 164,
        0x00F2 => 149,
        0x00F3 => 162,
        0x00F4 => 147,
        0x00F5 => 228,
        0x00F6 => 148,
        0x00F7 => 246,
        0x00F8 => 155,
        0x00F9 => 151,
        0x00FA => 163,
        0x00FB => 150,
        0x00FC => 129,
        0x00FD => 236,
        0x00FE => 231,
        0x00FF => 152,
        0x0131 => 213,
        0x0192 => 159,
        0x2017 => 242,
        0x2022 => 7,
        0x203C => 19,
        0x2190 => 27,
        0x2191 => 24,
        0x2192 => 26,
        0x2193 => 25,
        0x2194 => 29,
        0x2195 => 18,
        0x21A8 => 23,
        0x221F => 28,
        0x2302 => 127,
        0x2500 => 196,
        0x2502 => 179,
        0x250C => 218,
        0x2510 => 191,
        0x2514 => 192,
        0x2518 => 217,
        0x251C => 195,
        0x2524 => 180,
        0x252C => 194,
        0x2534 => 193,
        0x253C => 197,
        0x2550 => 205,
        0x2551 => 186,
        0x2554 => 201,
        0x2557 => 187,
        0x255A => 200,
        0x255D => 188,
        0x2560 => 204,
        0x2563 => 185,
        0x2566 => 203,
        0x2569 => 202,
        0x256C => 206,
        0x2580 => 223,
        0x2584 => 220,
        0x2588 => 219,
        0x2591 => 176,
        0x2592 => 177,
        0x2593 => 178,
        0x25A0 => 254,
        0x25AC => 22,
        0x25B2 => 30,
        0x25BA => 16,
        0x25BC => 31,
        0x25C4 => 17,
        0x25CB => 9,
        0x25D8 => 8,
        0x25D9 => 10,
        0x263A => 1,
        0x263B => 2,
        0x263C => 15,
        0x2640 => 12,
        0x2642 => 11,
        0x2660 => 6,
        0x2663 => 5,
        0x2665 => 3,
        0x2666 => 4,
        0x266A => 13,
        0x266B => 14,
        _ => 63, // b'?'
    }
}

/// Convert a Unicode code point to a font glyph.
pub fn glyph_from_code(cp: u32) -> (r: u8)
    ensures
        r == glyph_from_code_spec(cp),
{
    match cp {
        0x0020u32..=0x007Eu32 => cp as u8,
        0x00A0 => 255,
        0x00A1 => 173,
        0x00A2 => 189,
        0x00A3 => 156,
        0x00A4 => 207,
        0x00A5 => 190,
        0x00A6 => 221,
        0x00A7 => 245,
        0x00A8 => 249,
        0x00A9 => 184,
        0x00AA => 166,
        0x00AB => 174,
        0x00AC => 170,
        0x00AD => 240,
        0x00AE => 169,
        0x00AF => 238,
        0x00B0 => 248,
        0x00B1 => 241,
        0x00B2 => 253,
        0x00B3 => 252,
        0x00B4 => 239,
        0x00B5 => 230,
        0x00B6 => 244,
        0x00B7 => 250,
        0x00B8 => 247,
        0x00B9 => 251,
        0x00BA => 167,
        0x00BB => 175,
        0x00BC => 172,
        0x00BD => 171,
        0x00BE => 243,
        0x00BF => 168,
        0x00C0 => 183,
        0x00C1 => 181,
        0x00C2 => 182,
        0x00C3 => 199,
        0x00C4 => 142,
        0x00C5 => 143,
        0x00C6 => 146,
        0x00C7 => 128,
        0x00C8 => 212,
        0x00C9 => 144,
        0x00CA => 210,
        0x00CB => 211,
        0x00CC => 222,
        0x00CD => 214,
        0x00CE => 215,
        0x00CF => 216,
        0x00D0 => 209,
        0x00D1 => 165,
        0x00D2 => 227,
        0x00D3 => 224,
        0x00D4 => 226,
        0x00D5 => 229,
        0x00D6 => 153,
        0x00D7 => 158,
        0x00D8 => 157,
        0x00D9 => 235,
        0x00DA => 233,
        0x00DB => 234,
        0x00DC => 154,
        0x00DD => 237,
        0x00DE => 232,
        0x00DF => 225,
        0x00E0 => 133,
        0x00E1 => 160,
        0x00E2 => 131,
        0x00E3 => 198,
        0x00E4 => 132,
        0x00E5 => 134,
        0x00E6 => 145,
        0x00E7 => 135,
        0x00E8 => 138,
        0x00E9 => 130,
        0x00EA => 136,
        0x00EB => 137,
        0x00EC => 141,
        0x00ED => 161,
        0x00EE => 140,
        0x00EF => 139,
        0x00F0 => 208,
        0x00F1 => 164,
        0x00F2 => 149,
        0x00F3 => 162,
        0x00F4 => 147,
        0x00F5 => 228,
        0x00F6 => 148,
        0x00F7 => 246,
        0x00F8 => 155,
        0x00F9 => 151,
        0x00FA => 163,
        0x00FB => 150,
        0x00FC => 129,
        0x00FD => 236,
        0x00FE => 231,
        0x00FF => 152,
        0x0131 => 213,
        0x0192 => 159,
        0x2017 => 242,
        0x2022 => 7,
        0x203C => 19,
        0x2190 => 27,
        0x2191 => 24,
        0x2192 => 26,
        0x2193 => 25,
        0x2194 => 29,
        0x2195 => 18,
        0x21A8 => 23,
        0x221F => 28,
        0x2302 => 127,
        0x2500 => 196,
        0x2502 => 179,
        0x250C => 218,
        0x2510 => 191,
        0x2514 => 192,
        0x2518 => 217,
        0x251C => 195,
        0x2524 => 180,
        0x252C => 194,
        0x2534 => 193,
        0x253C => 197,
        0x2550 => 205,
        0x2551 => 186,
        0x2554 => 201,
        0x2557 => 187,
        0x255A => 200,
        0x255D => 188,
        0x2560 => 204,
        0x2563 => 185,
        0x2566 => 203,
        0x2569 => 202,
        0x256C => 206,
        0x2580 => 223,
        0x2584 => 220,
        0x2588 => 219,
        0x2591 => 176,
        0x2592 => 177,
        0x2593 => 178,
        0x25A0 => 254,
        0x25AC => 22,
        0x25B2 => 30,
        0x25BA => 16,
        0x25BC => 31,
        0x25C4 => 17,
        0x25CB => 9,
        0x25D8 => 8,
        0x25D9 => 10,
        0x263A => 1,
        0x263B => 2,
        0x263C => 15,
        0x2640 => 12,
        0x2642 => 11,
        0x2660 => 6,
        0x2663 => 5,
        0x2665 => 3,
        0x2666 => 4,
        0x266A => 13,
        0x266B => 14,
        _ => 63,
    }
}

/// Convert a Unicode scalar value to a font glyph.
pub fn map_char_to_glyph(input: char) -> (r: u8)
    ensures
        r == glyph_from_code_spec(input as u32),
{
    glyph_from_code(input as u32)
}

} // verus!

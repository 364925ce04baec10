//! The character-cell attribute: a packed foreground colour (4 bits),
//! background colour (3 bits) and one blink bit, as stored in the second byte
//! of every cell of the video buffer.

use vstd::prelude::*;

verus! {

/// Foreground colour codes (4 bits, 16 colours).
pub const FG_BLACK: u8 = 0;
pub const FG_BLUE: u8 = 1;
pub const FG_GREEN: u8 = 2;
pub const FG_CYAN: u8 = 3;
pub const FG_RED: u8 = 4;
pub const FG_MAGENTA: u8 = 5;
pub const FG_BROWN: u8 = 6;
pub const FG_LIGHT_GRAY: u8 = 7;
pub const FG_DARK_GRAY: u8 = 8;
pub const FG_LIGHT_BLUE: u8 = 9;
pub const FG_LIGHT_GREEN: u8 = 10;
pub const FG_LIGHT_CYAN: u8 = 11;
pub const FG_LIGHT_RED: u8 = 12;
pub const FG_PINK: u8 = 13;
pub const FG_YELLOW: u8 = 14;
pub const FG_WHITE: u8 = 15;

/// Background colour codes (3 bits, 8 colours).
pub const BG_BLACK: u8 = 0;
pub const BG_BLUE: u8 = 1;
pub const BG_GREEN: u8 = 2;
pub const BG_CYAN: u8 = 3;
pub const BG_RED: u8 = 4;
pub const BG_MAGENTA: u8 = 5;
pub const BG_BROWN: u8 = 6;
pub const BG_LIGHT_GRAY: u8 = 7;

/// A character-cell attribute, unpacked into its named parts.
///
/// The packed byte layout is `(blink << 7) | (bg << 4) | fg`.
#[derive(Clone, Copy, PartialEq, Eq, Structural, Debug)]
pub struct Attr {
    pub fg: u8,
    pub bg: u8,
    pub blink: bool,
}

impl Attr {
    /// The colour fields stay within their bit widths.
    pub open spec fn wf(self) -> bool {
        self.fg < 16 && self.bg < 8
    }

    /// The packed byte for this attribute.
    pub open spec fn byte_spec(self) -> u8 {
        (self.fg + self.bg * 16 + if self.blink { 128int } else { 0int }) as u8
    }

    /// Build an attribute from its parts.
    pub fn new(fg: u8, bg: u8, blink: bool) -> (r: Attr)
        requires
            fg < 16,
            bg < 8,
        ensures
            r == (Attr { fg, bg, blink }),
            r.wf(),
    {
        Attr { fg, bg, blink }
    }

    /// The default attribute: light gray on black, no blink.
    pub fn default_attr() -> (r: Attr)
        ensures
            r == Attr::default_attr_spec(),
            r.wf(),
    {
        Attr { fg: FG_LIGHT_GRAY, bg: BG_BLACK, blink: false }
    }

    /// The default attribute, as a spec value.
    pub open spec fn default_attr_spec() -> Attr {
        Attr { fg: FG_LIGHT_GRAY, bg: BG_BLACK, blink: false }
    }

    /// Pack the attribute into its byte form.
    pub fn as_byte(self) -> (r: u8)
        requires
            self.wf(),
        ensures
            r == self.byte_spec(),
    {
        self.fg + self.bg * 16 + if self.blink { 128 } else { 0 }
    }

    /// Replace the foreground colour.
    pub fn with_fg(self, fg: u8) -> (r: Attr)
        requires
            fg < 16,
        ensures
            r == (Attr { fg, ..self }),
    {
        Attr { fg, ..self }
    }

    /// Replace the background colour.
    pub fn with_bg(self, bg: u8) -> (r: Attr)
        requires
            bg < 8,
        ensures
            r == (Attr { bg, ..self }),
    {
        Attr { bg, ..self }
    }

    /// The attribute with foreground and background exchanged, used when
    /// reverse video is in force at write time. The stored attribute is never
    /// changed by reverse video; only the byte written to the cell is.
    pub open spec fn swapped_spec(self) -> Attr {
        Attr { fg: self.bg, bg: (self.fg % 8) as u8, blink: false }
    }

    /// Exchange foreground and background for reverse video.
    pub fn swapped(self) -> (r: Attr)
        requires
            self.wf(),
        ensures
            r == self.swapped_spec(),
            r.wf(),
    {
        Attr { fg: self.bg, bg: self.fg % 8, blink: false }
    }

    /// The brighter sibling of a base foreground colour. Colours already at
    /// their bright variant are left unchanged.
    pub open spec fn brightened_fg_spec(fg: u8) -> u8 {
        match fg {
            0u8 => FG_DARK_GRAY,
            4u8 => FG_LIGHT_RED,
            2u8 => FG_LIGHT_GREEN,
            6u8 => FG_YELLOW,
            1u8 => FG_LIGHT_BLUE,
            5u8 => FG_PINK,
            3u8 => FG_LIGHT_CYAN,
            7u8 => FG_WHITE,
            _ => fg,
        }
    }

    /// Promote the foreground colour to its brighter sibling.
    pub fn brightened(self) -> (r: Attr)
        requires
            self.wf(),
        ensures
            r == (Attr { fg: Attr::brightened_fg_spec(self.fg), ..self }),
            r.wf(),
    {
        let fg = match self.fg {
            0u8 => FG_DARK_GRAY,
            4u8 => FG_LIGHT_RED,
            2u8 => FG_LIGHT_GREEN,
            6u8 => FG_YELLOW,
            1u8 => FG_LIGHT_BLUE,
            5u8 => FG_PINK,
            3u8 => FG_LIGHT_CYAN,
            7u8 => FG_WHITE,
            _ => self.fg,
        };
        Attr { fg, ..self }
    }
}

} // verus!

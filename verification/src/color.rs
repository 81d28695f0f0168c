use vstd::prelude::*;

verus! {

/// The sixteen colors of the text-mode palette. Their numbering, 0 through
/// 15, is part of the hardware contract and is fixed by `spec_code`.
#[derive(Clone, Copy, Debug, PartialEq, Eq, Structural)]
pub enum Color {
    Black,
    Blue,
    Green,
    Cyan,
    Red,
    Magenta,
    Brown,
    LightGray,
    DarkGray,
    LightBlue,
    LightGreen,
    LightCyan,
    LightRed,
    Pink,
    Yellow,
    White,
}

impl Color {
    /// The small-integer code the hardware assigns to this color.
    pub open spec fn spec_code(self) -> u8 {
        match self {
            Color::Black => 0,
            Color::Blue => 1,
            Color::Green => 2,
            Color::Cyan => 3,
            Color::Red => 4,
            Color::Magenta => 5,
            Color::Brown => 6,
            Color::LightGray => 7,
            Color::DarkGray => 8,
            Color::LightBlue => 9,
            Color::LightGreen => 10,
            Color::LightCyan => 11,
            Color::LightRed => 12,
            Color::Pink => 13,
            Color::Yellow => 14,
            Color::White => 15,
        }
    }

    pub fn code(self) -> (r: u8)
        ensures
            r == self.spec_code(),
            r <= 15,
    {
        match self {
            Color::Black => 0,
            Color::Blue => 1,
            Color::Green => 2,
            Color::Cyan => 3,
            Color::Red => 4,
            Color::Magenta => 5,
            Color::Brown => 6,
            Color::LightGray => 7,
            Color::DarkGray => 8,
            Color::LightBlue => 9,
            Color::LightGreen => 10,
            Color::LightCyan => 11,
            Color::LightRed => 12,
            Color::Pink => 13,
            Color::Yellow => 14,
            Color::White => 15,
        }
    }
}

/// A packed color byte: background color in the high four bits, foreground
/// color in the low four bits.
#[derive(Clone, Copy, Debug, PartialEq, Eq, Structural)]
pub struct ColorCode(u8);

impl ColorCode {
    /// The packed byte value.
    pub closed spec fn spec_value(self) -> u8 {
        self.0
    }

    /// Packs a foreground and a background color into one byte, with the
    /// background in the high nibble.
    pub fn new(foreground: Color, background: Color) -> (r: ColorCode)
        ensures
            r.spec_value() == background.spec_code() * 16 + foreground.spec_code(),
    {
        ColorCode(background.code() * 16 + foreground.code())
    }

    pub fn value(self) -> (r: u8)
        ensures
            r == self.spec_value(),
    {
        self.0
    }
}

/// The color every writer starts with and the one restored after a colored
/// print: white text on a black background.
pub closed spec fn spec_default_color() -> ColorCode {
    ColorCode(15)
}

/// The default color packs a black background into the high nibble and a
/// white foreground into the low nibble.
pub proof fn lemma_default_color_value()
    ensures
        spec_default_color().spec_value() == Color::Black.spec_code() * 16
            + Color::White.spec_code(),
{
}

pub fn default_color() -> (r: ColorCode)
    ensures
        r == spec_default_color(),
{
    ColorCode(15)
}

} // verus!

use vstd::prelude::*;
use crate::color::ColorCode;

verus! {

/// Number of rows of the character grid.
pub const BUFFER_HEIGHT: usize = 25;

/// Number of columns of the character grid.
pub const BUFFER_WIDTH: usize = 80;

/// Number of cells of the grid, stored row-major: row `r`, column `c` lives
/// at index `r * BUFFER_WIDTH + c`.
pub const BUFFER_AREA: usize = 2000;

/// Byte that advances to the next line.
pub const NEWLINE_BYTE: u8 = 0x0a;

/// Byte that advances the column by four without writing a cell.
pub const TAB_BYTE: u8 = 0x09;

/// Byte written in place of any byte outside the printable range.
pub const PLACEHOLDER_BYTE: u8 = 0xfe;

/// The space character, used to blank a freshly scrolled-in row.
pub const BLANK_BYTE: u8 = 0x20;

/// One grid position's visible content: a character byte and a packed color.
#[derive(Clone, Copy, Debug, PartialEq, Eq, Structural)]
pub struct ScreenChar {
    pub ascii_character: u8,
    pub color_code: ColorCode,
}

/// Index of row `r`, column `c` in the row-major grid.
pub open spec fn grid_index(r: int, c: int) -> int {
    r * (BUFFER_WIDTH as int) + c
}

/// A byte is printable when it lies in the closed range 0x20 to 0x7e.
pub open spec fn printable(b: u8) -> bool {
    0x20 <= b <= 0x7e
}

/// The byte actually handed to the cell-placement step for an input byte:
/// printable bytes, newline and tab pass through; everything else is
/// replaced by the placeholder.
pub open spec fn emitted_byte(b: u8) -> u8 {
    if printable(b) || b == NEWLINE_BYTE || b == TAB_BYTE {
        b
    } else {
        PLACEHOLDER_BYTE
    }
}

/// The cell a scroll writes into every column of the freshly blanked last
/// row: a space in the given color.
pub open spec fn blank_cell(color: ColorCode) -> ScreenChar {
    ScreenChar { ascii_character: BLANK_BYTE, color_code: color }
}

} // verus!

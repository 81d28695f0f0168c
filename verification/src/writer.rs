use vstd::prelude::*;
use vstd::pervasive::VecAdditionalExecFns;
use crate::cell::{
    ScreenChar, grid_index, emitted_byte, blank_cell, BUFFER_AREA, BUFFER_HEIGHT, BUFFER_WIDTH,
    NEWLINE_BYTE, TAB_BYTE, PLACEHOLDER_BYTE, BLANK_BYTE,
};
use crate::color::{ColorCode, default_color, spec_default_color};
use crate::model::{
    VgaState, spec_newline, spec_cwrite, spec_swrite, spec_set_color, spec_print, spec_cprint,
    spec_init, scrolled_grid, lemma_swrite_snoc,
};

verus! {

/// The cursor-tracking writer: owns the grid contents together with the
/// cursor position and the active color.
pub struct Writer {
    column_position: usize,
    row_position: usize,
    color_code: ColorCode,
    buffer: Vec<ScreenChar>,
}

impl View for Writer {
    type V = VgaState;

    closed spec fn view(&self) -> VgaState {
        VgaState {
            grid: self.buffer@,
            row: self.row_position as int,
            col: self.column_position as int,
            color: self.color_code,
        }
    }
}

impl Writer {
    /// A fresh writer over a blank grid: every cell a space in the default
    /// color, cursor at row 0, column 0, default color active.
    pub fn new() -> (w: Writer)
        ensures
            w@ == spec_init(),
            w@.wf(),
    {
        let color = default_color();
        let blank = ScreenChar { ascii_character: BLANK_BYTE, color_code: color };
        let mut buffer: Vec<ScreenChar> = Vec::new();
        let mut i: usize = 0;
        while i < BUFFER_AREA
            invariant
                0 <= i <= BUFFER_AREA,
                buffer@.len() == i,
                blank == blank_cell(spec_default_color()),
                forall|j: int| 0 <= j < i ==> buffer@[j] == blank_cell(spec_default_color()),
            decreases BUFFER_AREA - i,
        {
            buffer.push(blank);
            i += 1;
        }
        let w = Writer { column_position: 0, row_position: 0, color_code: color, buffer };
        proof {
            assert(w@.grid =~= spec_init().grid);
            assert(w@ =~= spec_init());
        }
        w
    }

    /// Replaces the active color; subsequent emissions use it until it is
    /// changed again.
    pub fn set_color(&mut self, color: ColorCode)
        ensures
            final(self)@ == spec_set_color(old(self)@, color),
            old(self)@.wf() ==> final(self)@.wf(),
    {
        self.color_code = color;
    }

    /// Line advance. Below the last row the cursor moves down one row; on
    /// the last row every cell moves up one row and the last row is filled
    /// with blanks in the active color. The column is reset to zero.
    pub fn newline(&mut self)
        requires
            old(self)@.wf_grid(),
            0 <= old(self)@.row < BUFFER_HEIGHT,
        ensures
            final(self)@ == spec_newline(old(self)@),
            final(self)@.wf_grid(),
            0 <= final(self)@.row < BUFFER_HEIGHT,
            final(self)@.col == 0,
    {
        if self.row_position != BUFFER_HEIGHT - 1 {
            self.row_position += 1;
        } else {
            let mut r: usize = 1;
            while r < BUFFER_HEIGHT
                invariant
                    1 <= r <= BUFFER_HEIGHT,
                    self.buffer@.len() == BUFFER_AREA,
                    self.row_position == old(self).row_position,
                    self.column_position == old(self).column_position,
                    self.color_code == old(self).color_code,
                    forall|j: int|
                        0 <= j < grid_index(r as int - 1, 0) ==> self.buffer@[j] == old(
                            self,
                        )@.grid[j + BUFFER_WIDTH],
                    forall|j: int|
                        grid_index(r as int - 1, 0) <= j < BUFFER_AREA ==> self.buffer@[j] == old(
                            self,
                        )@.grid[j],
                decreases BUFFER_HEIGHT - r,
            {
                let mut c: usize = 0;
                while c < BUFFER_WIDTH
                    invariant
                        1 <= r < BUFFER_HEIGHT,
                        0 <= c <= BUFFER_WIDTH,
                        self.buffer@.len() == BUFFER_AREA,
                        self.row_position == old(self).row_position,
                        self.column_position == old(self).column_position,
                        self.color_code == old(self).color_code,
                        forall|j: int|
                            0 <= j < grid_index(r as int - 1, c as int) ==> self.buffer@[j] == old(
                                self,
                            )@.grid[j + BUFFER_WIDTH],
                        forall|j: int|
                            grid_index(r as int - 1, c as int) <= j < BUFFER_AREA
                                ==> self.buffer@[j] == old(self)@.grid[j],
                    decreases BUFFER_WIDTH - c,
                {
                    let ch = self.buffer[r * BUFFER_WIDTH + c];
                    self.buffer.set((r - 1) * BUFFER_WIDTH + c, ch);
                    c += 1;
                }
                r += 1;
            }
            let blank = ScreenChar { ascii_character: BLANK_BYTE, color_code: self.color_code };
            let mut c: usize = 0;
            while c < BUFFER_WIDTH
                invariant
                    0 <= c <= BUFFER_WIDTH,
                    self.buffer@.len() == BUFFER_AREA,
                    self.row_position == old(self).row_position,
                    self.column_position == old(self).column_position,
                    self.color_code == old(self).color_code,
                    blank == blank_cell(old(self)@.color),
                    forall|j: int|
                        0 <= j < BUFFER_AREA - BUFFER_WIDTH ==> self.buffer@[j] == old(
                            self,
                        )@.grid[j + BUFFER_WIDTH],
                    forall|j: int|
                        BUFFER_AREA - BUFFER_WIDTH <= j < BUFFER_AREA - BUFFER_WIDTH + c
                            ==> self.buffer@[j] == blank_cell(old(self)@.color),
                    forall|j: int|
                        BUFFER_AREA - BUFFER_WIDTH + c <= j < BUFFER_AREA ==> self.buffer@[j]
                            == old(self)@.grid[j],
                decreases BUFFER_WIDTH - c,
            {
                self.buffer.set(BUFFER_AREA - BUFFER_WIDTH + c, blank);
                c += 1;
            }
            proof {
                assert(self.buffer@ =~= scrolled_grid(old(self)@.grid, old(self)@.color));
            }
        }
        self.column_position = 0;
        proof {
            assert(self@ =~= spec_newline(old(self)@));
        }
    }

    /// One byte of output: newline advances the line, tab advances the
    /// column by four and wraps when that reaches the width, and any other
    /// byte is placed at the cursor in the active color, wrapping first if
    /// the line is full.
    pub fn cwrite(&mut self, character: u8)
        requires
            old(self)@.wf(),
        ensures
            final(self)@ == spec_cwrite(old(self)@, character),
            final(self)@.wf(),
    {
        if character == NEWLINE_BYTE {
            self.newline();
        } else if character == TAB_BYTE {
            self.column_position += 4;
            if self.column_position >= BUFFER_WIDTH {
                self.newline();
            }
        } else {
            if self.column_position >= BUFFER_WIDTH {
                self.newline();
            }
            let row = self.row_position;
            let col = self.column_position;
            let color_code = self.color_code;
            self.buffer.set(
                row * BUFFER_WIDTH + col,
                ScreenChar { ascii_character: character, color_code },
            );
            self.column_position += 1;
        }
    }

    /// String emission over a raw byte sequence: printable bytes, newline
    /// and tab are emitted as they are; every other byte is emitted as the
    /// placeholder. Every input byte causes exactly one emission.
    pub fn swrite(&mut self, string: &[u8])
        requires
            old(self)@.wf(),
        ensures
            final(self)@ == spec_swrite(old(self)@, string@),
            final(self)@.wf(),
    {
        let mut i: usize = 0;
        while i < string.len()
            invariant
                0 <= i <= string@.len(),
                self@.wf(),
                self@ == spec_swrite(old(self)@, string@.subrange(0, i as int)),
            decreases string@.len() - i,
        {
            let ghost prev = self@;
            proof {
                lemma_swrite_snoc(old(self)@, string@.subrange(0, i as int), string@[i as int]);
                assert(string@.subrange(0, i as int + 1) =~= string@.subrange(0, i as int).push(
                    string@[i as int],
                ));
            }
            let b = string[i];
            if (0x20 <= b && b <= 0x7e) || b == NEWLINE_BYTE || b == TAB_BYTE {
                self.cwrite(b);
            } else {
                self.cwrite(PLACEHOLDER_BYTE);
            }
            proof {
                assert(self@ == spec_cwrite(prev, emitted_byte(string@[i as int])));
            }
            i += 1;
        }
        proof {
            assert(string@.subrange(0, string@.len() as int) =~= string@);
        }
    }

    /// Current cursor row.
    pub fn cursor_row(&self) -> (r: usize)
        ensures
            r == self@.row,
    {
        self.row_position
    }

    /// Current cursor column.
    pub fn cursor_column(&self) -> (r: usize)
        ensures
            r == self@.col,
    {
        self.column_position
    }

    /// The active color.
    pub fn current_color(&self) -> (r: ColorCode)
        ensures
            r == self@.color,
    {
        self.color_code
    }

    /// The character byte at a grid position.
    pub fn char_at(&self, row: usize, col: usize) -> (r: u8)
        requires
            self@.wf(),
            row < BUFFER_HEIGHT,
            col < BUFFER_WIDTH,
        ensures
            r == self@.grid[grid_index(row as int, col as int)].ascii_character,
    {
        self.buffer[row * BUFFER_WIDTH + col].ascii_character
    }

    /// The color at a grid position.
    pub fn color_at(&self, row: usize, col: usize) -> (r: ColorCode)
        requires
            self@.wf(),
            row < BUFFER_HEIGHT,
            col < BUFFER_WIDTH,
        ensures
            r == self@.grid[grid_index(row as int, col as int)].color_code,
    {
        self.buffer[row * BUFFER_WIDTH + col].color_code
    }
}

/// Plain print tier: emits already-formatted bytes under the writer's
/// current color.
pub fn _print(w: &mut Writer, s: &[u8])
    requires
        old(w)@.wf(),
    ensures
        final(w)@ == spec_print(old(w)@, s@),
        final(w)@.wf(),
{
    w.swrite(s);
}

/// Colored print tier: sets the override color, emits the bytes, and
/// restores the default color, which is active afterwards.
pub fn _cprint(w: &mut Writer, color: ColorCode, s: &[u8])
    requires
        old(w)@.wf(),
    ensures
        final(w)@ == spec_cprint(old(w)@, color, s@),
        final(w)@.wf(),
        final(w)@.color == spec_default_color(),
{
    w.set_color(color);
    w.swrite(s);
    w.set_color(default_color());
}

} // verus!

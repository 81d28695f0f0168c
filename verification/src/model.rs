use vstd::prelude::*;
use crate::cell::{
    ScreenChar, grid_index, emitted_byte, blank_cell, BUFFER_AREA, BUFFER_HEIGHT, BUFFER_WIDTH,
    NEWLINE_BYTE, TAB_BYTE,
};
use crate::color::{ColorCode, spec_default_color};

verus! {

/// Mathematical model of the writer: the grid contents (row-major), the
/// cursor, and the active color.
#[verifier::ext_equal]
pub ghost struct VgaState {
    pub grid: Seq<ScreenChar>,
    pub row: int,
    pub col: int,
    pub color: ColorCode,
}

impl VgaState {
    /// The grid holds exactly one cell per position.
    pub open spec fn wf_grid(self) -> bool {
        self.grid.len() == BUFFER_AREA
    }

    /// Writer invariant: full grid, row strictly inside the grid, column at
    /// most one past the last column (a just-filled line parks the cursor at
    /// `BUFFER_WIDTH` until the next emission wraps it).
    pub open spec fn wf(self) -> bool {
        &&& self.wf_grid()
        &&& 0 <= self.row < BUFFER_HEIGHT
        &&& 0 <= self.col <= BUFFER_WIDTH
    }
}

/// The grid after a scroll: every row moves up one place and the last row
/// becomes blank in the given color.
pub open spec fn scrolled_grid(g: Seq<ScreenChar>, color: ColorCode) -> Seq<ScreenChar> {
    Seq::new(
        BUFFER_AREA as nat,
        |i: int|
            if i < BUFFER_AREA - BUFFER_WIDTH {
                g[i + BUFFER_WIDTH]
            } else {
                blank_cell(color)
            },
    )
}

/// Line advance: below the last row the cursor moves down one row; on the
/// last row the grid scrolls instead and the row stays put. The column is
/// reset to zero either way.
pub open spec fn spec_newline(s: VgaState) -> VgaState {
    if s.row != BUFFER_HEIGHT - 1 {
        VgaState { grid: s.grid, row: s.row + 1, col: 0, color: s.color }
    } else {
        VgaState { grid: scrolled_grid(s.grid, s.color), row: s.row, col: 0, color: s.color }
    }
}

/// One byte of output. Newline advances the line; tab advances the column by
/// four and wraps (without writing) when that reaches the width; any other
/// byte first wraps if the previous emission filled the line, and is placed
/// at the cursor in the active color.
pub open spec fn spec_cwrite(s: VgaState, b: u8) -> VgaState {
    if b == NEWLINE_BYTE {
        spec_newline(s)
    } else if b == TAB_BYTE {
        let advanced = VgaState { grid: s.grid, row: s.row, col: s.col + 4, color: s.color };
        if s.col + 4 >= BUFFER_WIDTH {
            spec_newline(advanced)
        } else {
            advanced
        }
    } else {
        let base = if s.col >= BUFFER_WIDTH {
            spec_newline(s)
        } else {
            s
        };
        VgaState {
            grid: base.grid.update(
                grid_index(base.row, base.col),
                ScreenChar { ascii_character: b, color_code: base.color },
            ),
            row: base.row,
            col: base.col + 1,
            color: base.color,
        }
    }
}

/// String emission: each input byte, filtered through `emitted_byte`, is
/// handed to `spec_cwrite` in order.
pub open spec fn spec_swrite(s: VgaState, bytes: Seq<u8>) -> VgaState
    decreases bytes.len(),
{
    if bytes.len() == 0 {
        s
    } else {
        spec_swrite(spec_cwrite(s, emitted_byte(bytes[0])), bytes.drop_first())
    }
}

/// Color override: only the active color changes.
pub open spec fn spec_set_color(s: VgaState, color: ColorCode) -> VgaState {
    VgaState { grid: s.grid, row: s.row, col: s.col, color }
}

/// The plain print entry point: the formatted bytes under the current color.
pub open spec fn spec_print(s: VgaState, bytes: Seq<u8>) -> VgaState {
    spec_swrite(s, bytes)
}

/// The colored print entry point: set the override color, emit the bytes,
/// restore the default color.
pub open spec fn spec_cprint(s: VgaState, color: ColorCode, bytes: Seq<u8>) -> VgaState {
    spec_set_color(spec_swrite(spec_set_color(s, color), bytes), spec_default_color())
}

/// The state a fresh writer starts in: a grid of blanks in the default
/// color, cursor at the origin, default color active.
pub open spec fn spec_init() -> VgaState {
    VgaState {
        grid: Seq::new(BUFFER_AREA as nat, |i: int| blank_cell(spec_default_color())),
        row: 0,
        col: 0,
        color: spec_default_color(),
    }
}

/// Emitting one more byte after a sequence is the same as emitting the
/// extended sequence.
pub proof fn lemma_swrite_snoc(s: VgaState, bytes: Seq<u8>, b: u8)
    ensures
        spec_swrite(s, bytes.push(b)) == spec_cwrite(spec_swrite(s, bytes), emitted_byte(b)),
    decreases bytes.len(),
{
    if bytes.len() == 0 {
        assert(bytes.push(b)[0] == b);
        assert(bytes.push(b).drop_first() =~= Seq::<u8>::empty());
        let x = spec_cwrite(s, emitted_byte(b));
        assert(spec_swrite(s, bytes.push(b)) == spec_swrite(x, bytes.push(b).drop_first()));
        assert(spec_swrite(x, Seq::<u8>::empty()) == x);
        assert(spec_swrite(s, bytes) == s);
    } else {
        assert(bytes.push(b)[0] == bytes[0]);
        assert(bytes.push(b).drop_first() =~= bytes.drop_first().push(b));
        let x = spec_cwrite(s, emitted_byte(bytes[0]));
        assert(spec_swrite(s, bytes.push(b)) == spec_swrite(x, bytes.push(b).drop_first()));
        assert(spec_swrite(s, bytes) == spec_swrite(x, bytes.drop_first()));
        lemma_swrite_snoc(x, bytes.drop_first(), b);
    }
}

/// `k` line advances in a row.
pub open spec fn iter_newline(s: VgaState, k: nat) -> VgaState
    decreases k,
{
    if k == 0 {
        s
    } else {
        spec_newline(iter_newline(s, (k - 1) as nat))
    }
}

} // verus!

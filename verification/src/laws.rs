use vstd::prelude::*;
use crate::cell::{
    ScreenChar, grid_index, printable, emitted_byte, blank_cell, BUFFER_AREA, BUFFER_HEIGHT,
    BUFFER_WIDTH, NEWLINE_BYTE, TAB_BYTE, PLACEHOLDER_BYTE,
};
use crate::color::{ColorCode, spec_default_color};
use crate::model::{
    VgaState, spec_newline, spec_cwrite, spec_swrite, spec_set_color, spec_cprint, iter_newline,
};

verus! {

/// A line advance keeps the writer invariant, keeps the color, and resets
/// the column.
pub proof fn lemma_newline_wf(s: VgaState)
    requires
        s.wf_grid(),
        0 <= s.row < BUFFER_HEIGHT,
    ensures
        spec_newline(s).wf(),
        spec_newline(s).color == s.color,
        spec_newline(s).col == 0,
{
}

/// Emitting any single byte keeps the writer invariant and the color.
pub proof fn lemma_cwrite_wf(s: VgaState, b: u8)
    requires
        s.wf(),
    ensures
        spec_cwrite(s, b).wf(),
        spec_cwrite(s, b).color == s.color,
{
    if b == NEWLINE_BYTE {
        lemma_newline_wf(s);
    } else if b == TAB_BYTE {
        if s.col + 4 >= BUFFER_WIDTH {
            lemma_newline_wf(VgaState { grid: s.grid, row: s.row, col: s.col + 4, color: s.color });
        }
    } else {
        if s.col >= BUFFER_WIDTH {
            lemma_newline_wf(s);
        }
    }
}

/// Law: emitting any byte sequence leaves the row and column invariants
/// satisfied (row inside the grid, column at most the width) and never
/// changes the active color.
pub proof fn lemma_swrite_wf(s: VgaState, bytes: Seq<u8>)
    requires
        s.wf(),
    ensures
        spec_swrite(s, bytes).wf(),
        spec_swrite(s, bytes).color == s.color,
    decreases bytes.len(),
{
    if bytes.len() != 0 {
        lemma_cwrite_wf(s, emitted_byte(bytes[0]));
        lemma_swrite_wf(spec_cwrite(s, emitted_byte(bytes[0])), bytes.drop_first());
    }
}

/// Emitting a one-byte sequence is one step of `spec_cwrite` on the
/// filtered byte.
proof fn lemma_swrite_single(s: VgaState, b: u8)
    ensures
        spec_swrite(s, seq![b]) == spec_cwrite(s, emitted_byte(b)),
{
    let t0 = spec_cwrite(s, emitted_byte(b));
    assert(seq![b][0] == b);
    assert(seq![b].drop_first() =~= Seq::<u8>::empty());
    assert(spec_swrite(s, seq![b]) == spec_swrite(t0, seq![b].drop_first()));
    assert(spec_swrite(t0, Seq::<u8>::empty()) == t0);
}

/// Law: a single printable byte emitted before the line is full places
/// exactly one cell — the byte in the active color at the cursor — and
/// performs no other change beyond advancing the column by one.
pub proof fn lemma_emit_printable_places_one(s: VgaState, b: u8)
    requires
        s.wf(),
        printable(b),
        s.col < BUFFER_WIDTH,
    ensures
        ({
            let t = spec_swrite(s, seq![b]);
            &&& t.grid == s.grid.update(
                grid_index(s.row, s.col),
                ScreenChar { ascii_character: b, color_code: s.color },
            )
            &&& t.row == s.row
            &&& t.col == s.col + 1
            &&& t.color == s.color
            &&& t.wf()
        }),
{
    lemma_swrite_single(s, b);
    lemma_swrite_wf(s, seq![b]);
}

/// Law: a newline or tab emitted below the last row performs a cursor-only
/// update: no grid cell changes. (On the last row a wrapping newline or tab
/// scrolls instead, which rewrites the grid.)
pub proof fn lemma_emit_control_cursor_only(s: VgaState, b: u8)
    requires
        s.wf(),
        b == NEWLINE_BYTE || b == TAB_BYTE,
        s.row < BUFFER_HEIGHT - 1,
    ensures
        ({
            let t = spec_swrite(s, seq![b]);
            &&& t.grid == s.grid
            &&& t.color == s.color
            &&& t.wf()
        }),
{
    lemma_swrite_single(s, b);
    lemma_swrite_wf(s, seq![b]);
}

/// Law: a byte that is neither printable nor newline nor tab is never
/// placed as itself: the cell written at the (possibly wrapped) cursor
/// holds the fixed placeholder byte.
pub proof fn lemma_emit_unprintable_placeholder(s: VgaState, b: u8)
    requires
        s.wf(),
        !printable(b),
        b != NEWLINE_BYTE,
        b != TAB_BYTE,
    ensures
        ({
            let base = if s.col >= BUFFER_WIDTH {
                spec_newline(s)
            } else {
                s
            };
            let t = spec_swrite(s, seq![b]);
            &&& t.grid[grid_index(base.row, base.col)].ascii_character == PLACEHOLDER_BYTE
            &&& t.wf()
        }),
{
    lemma_swrite_single(s, b);
    lemma_swrite_wf(s, seq![b]);
    if s.col >= BUFFER_WIDTH {
        lemma_newline_wf(s);
    }
}

/// Emitting a run of printable bytes that fits on the current line writes
/// them in order at the cursor, in the active color, touches nothing else,
/// and moves the column past the run.
pub proof fn lemma_swrite_printable_run(s: VgaState, bytes: Seq<u8>)
    requires
        s.wf(),
        forall|i: int| 0 <= i < bytes.len() ==> printable(#[trigger] bytes[i]),
        s.col + bytes.len() <= BUFFER_WIDTH,
    ensures
        ({
            let t = spec_swrite(s, bytes);
            &&& t.row == s.row
            &&& t.col == s.col + bytes.len()
            &&& t.color == s.color
            &&& t.wf()
            &&& forall|k: int|
                0 <= k < bytes.len() ==> t.grid[grid_index(s.row, s.col + k)] == (ScreenChar {
                    ascii_character: bytes[k],
                    color_code: s.color,
                })
            &&& forall|j: int|
                0 <= j < BUFFER_AREA && !(grid_index(s.row, s.col) <= j < grid_index(s.row, s.col)
                    + bytes.len()) ==> t.grid[j] == s.grid[j]
        }),
    decreases bytes.len(),
{
    if bytes.len() == 0 {
    } else {
        let b = bytes[0];
        let s1 = spec_cwrite(s, emitted_byte(b));
        assert(emitted_byte(b) == b);
        lemma_cwrite_wf(s, b);
        lemma_swrite_printable_run(s1, bytes.drop_first());
        let t = spec_swrite(s, bytes);
        assert(t == spec_swrite(s1, bytes.drop_first()));
        assert forall|k: int| 0 <= k < bytes.len() implies t.grid[grid_index(s.row, s.col + k)]
            == (ScreenChar { ascii_character: bytes[k], color_code: s.color }) by {
            if k == 0 {
                assert(s1.grid[grid_index(s.row, s.col)] == (ScreenChar {
                    ascii_character: b,
                    color_code: s.color,
                }));
            } else {
                assert(bytes.drop_first()[k - 1] == bytes[k]);
            }
        }
    }
}

/// Law: after exactly `BUFFER_WIDTH` printable characters starting at
/// column 0, the line is full; the next printable character wraps to
/// column 0 of the next row, is placed there, and the just-filled row is
/// kept intact.
pub proof fn lemma_full_row_wraps(s: VgaState, bytes: Seq<u8>, b: u8)
    requires
        s.wf(),
        s.col == 0,
        s.row < BUFFER_HEIGHT - 1,
        bytes.len() == BUFFER_WIDTH,
        forall|i: int| 0 <= i < bytes.len() ==> printable(#[trigger] bytes[i]),
        printable(b),
    ensures
        ({
            let t = spec_swrite(s, bytes);
            let u = spec_cwrite(t, b);
            &&& t.col == BUFFER_WIDTH
            &&& t.row == s.row
            &&& u.row == s.row + 1
            &&& u.col == 1
            &&& u.grid[grid_index(s.row + 1, 0)] == (ScreenChar {
                ascii_character: b,
                color_code: s.color,
            })
            &&& forall|c: int|
                0 <= c < BUFFER_WIDTH ==> u.grid[grid_index(s.row, c)] == (ScreenChar {
                    ascii_character: bytes[c],
                    color_code: s.color,
                })
            &&& u.wf()
        }),
{
    lemma_swrite_printable_run(s, bytes);
    let t = spec_swrite(s, bytes);
    lemma_cwrite_wf(t, b);
    assert forall|c: int| 0 <= c < BUFFER_WIDTH implies spec_cwrite(t, b).grid[grid_index(
        s.row,
        c,
    )] == (ScreenChar { ascii_character: bytes[c], color_code: s.color }) by {
        assert(grid_index(s.row, c) != grid_index(s.row + 1, 0));
        assert(t.grid[grid_index(s.row, c)] == (ScreenChar {
            ascii_character: bytes[c],
            color_code: s.color,
        }));
    }
}

/// Below the last row, repeated line advances only move the cursor down.
pub proof fn lemma_newlines_advance(s: VgaState, k: nat)
    requires
        s.wf(),
        s.row + k <= BUFFER_HEIGHT - 1,
    ensures
        ({
            let t = iter_newline(s, k);
            &&& t.grid == s.grid
            &&& t.color == s.color
            &&& t.row == s.row + k
            &&& t.col == (if k == 0 {
                s.col
            } else {
                0int
            })
            &&& t.wf()
        }),
    decreases k,
{
    if k != 0 {
        lemma_newlines_advance(s, (k - 1) as nat);
    }
}

/// Law: starting from row 0, the `BUFFER_HEIGHT`-th consecutive newline is
/// the one that scrolls: the original row 0 is discarded, every other row
/// moves up one place, and the last row becomes blank in the color active
/// at that moment.
pub proof fn lemma_height_newlines_scroll(s: VgaState)
    requires
        s.wf(),
        s.row == 0,
    ensures
        ({
            let before = iter_newline(s, (BUFFER_HEIGHT - 1) as nat);
            let t = iter_newline(s, BUFFER_HEIGHT as nat);
            &&& before.row == BUFFER_HEIGHT - 1
            &&& before.grid == s.grid
            &&& t.row == BUFFER_HEIGHT - 1
            &&& t.col == 0
            &&& t.color == s.color
            &&& t.wf()
            &&& forall|r: int, c: int|
                0 <= r < BUFFER_HEIGHT - 1 && 0 <= c < BUFFER_WIDTH ==> t.grid[grid_index(r, c)]
                    == s.grid[grid_index(r + 1, c)]
            &&& forall|c: int|
                0 <= c < BUFFER_WIDTH ==> t.grid[#[trigger] grid_index(BUFFER_HEIGHT - 1, c)]
                    == blank_cell(s.color)
        }),
{
    lemma_newlines_advance(s, (BUFFER_HEIGHT - 1) as nat);
    let before = iter_newline(s, (BUFFER_HEIGHT - 1) as nat);
    assert(iter_newline(s, BUFFER_HEIGHT as nat) == spec_newline(before));
    lemma_newline_wf(before);
}

/// Law: a colored print always hands the writer back with the default
/// color active, whatever override color and bytes it was given.
pub proof fn lemma_cprint_restores_color(s: VgaState, color: ColorCode, bytes: Seq<u8>)
    requires
        s.wf(),
    ensures
        spec_cprint(s, color, bytes).color == spec_default_color(),
        spec_cprint(s, color, bytes).wf(),
{
    lemma_swrite_wf(spec_set_color(s, color), bytes);
}

/// Law: a printable byte printed right after a colored print is rendered
/// in the default color, not in the override color.
pub proof fn lemma_print_after_cprint_default(s: VgaState, color: ColorCode, bytes: Seq<u8>, b: u8)
    requires
        s.wf(),
        printable(b),
    ensures
        ({
            let t = spec_cprint(s, color, bytes);
            let base = if t.col >= BUFFER_WIDTH {
                spec_newline(t)
            } else {
                t
            };
            spec_swrite(t, seq![b]).grid[grid_index(base.row, base.col)] == (ScreenChar {
                ascii_character: b,
                color_code: spec_default_color(),
            })
        }),
{
    lemma_cprint_restores_color(s, color, bytes);
    let t = spec_cprint(s, color, bytes);
    lemma_swrite_single(t, b);
    if t.col >= BUFFER_WIDTH {
        lemma_newline_wf(t);
    }
}

/// Law: setting the same color twice is the same as setting it once — the
/// writer states are equal, so all subsequent output is identical.
pub proof fn lemma_set_color_idempotent(s: VgaState, color: ColorCode)
    ensures
        spec_set_color(spec_set_color(s, color), color) == spec_set_color(s, color),
        forall|bytes: Seq<u8>|
            spec_swrite(spec_set_color(spec_set_color(s, color), color), bytes)
                == #[trigger] spec_swrite(spec_set_color(s, color), bytes),
{
}

} // verus!

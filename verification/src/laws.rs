//! Laws of the console writer, each proved over the abstract transition
//! functions `step` and `run` that the writer's contracts are stated with.

use vstd::prelude::*;
use crate::vga_buffer::{
    WriterView, ScreenChar, ColorCode, view_wf, step, run, scrolled, glyph_of, is_printable,
    renderable, all_renderable, cell_index, cell_of, blank_char, BUFFER_HEIGHT, BUFFER_WIDTH,
    NEWLINE_BYTE, PLACEHOLDER_BYTE,
};

verus! {

/// Law: one written byte keeps the writer state well formed.
pub proof fn lemma_step_wf(v: WriterView, b: u8)
    requires
        view_wf(v),
    ensures
        view_wf(step(v, b)),
{
}

/// Law: a written byte sequence keeps the writer state well formed.
pub proof fn lemma_run_wf(v: WriterView, s: Seq<u8>)
    requires
        view_wf(v),
    ensures
        view_wf(run(v, s)),
    decreases s.len(),
{
    if s.len() > 0 {
        lemma_run_wf(v, s.drop_last());
        lemma_step_wf(run(v, s.drop_last()), glyph_of(s.last()));
    }
}

/// Law: in every reachable state, a printable byte advances the column by
/// exactly one — from mid-line without touching any cell but the one at the
/// cursor, and from a full line after one scroll, landing at column 0 so that
/// the column ends at 1.
pub proof fn lemma_printable_advances_column(v: WriterView, b: u8)
    requires
        view_wf(v),
        is_printable(b),
    ensures
        step(v, b).attr == v.attr,
        v.column < BUFFER_WIDTH ==> step(v, b).column == v.column + 1,
        v.column < BUFFER_WIDTH ==> forall|i: int|
            0 <= i < v.grid.len() && i != cell_index(BUFFER_HEIGHT - 1, v.column)
                ==> #[trigger] step(v, b).grid[i] == v.grid[i],
        v.column == BUFFER_WIDTH ==> step(v, b).column == 1,
        v.column == BUFFER_WIDTH ==> step(v, b).grid == scrolled(v.grid, v.attr).update(
            cell_index(BUFFER_HEIGHT - 1, 0),
            (ScreenChar { ascii_character: b, color_char: v.attr }),
        ),
{
}

/// Law: a newline resets the column to 0 and performs exactly one scroll,
/// whatever the prior column was; it writes no cell of its own.
pub proof fn lemma_newline_resets_and_scrolls(v: WriterView)
    ensures
        step(v, NEWLINE_BYTE).column == 0,
        step(v, NEWLINE_BYTE).grid == scrolled(v.grid, v.attr),
        step(v, NEWLINE_BYTE).attr == v.attr,
{
}

/// Law: after any scroll the bottom row is entirely space characters carrying
/// the current attribute, and rows `0 .. BUFFER_HEIGHT - 1` hold exactly what
/// rows `1 .. BUFFER_HEIGHT` held before.
pub proof fn lemma_scroll_shape(grid: Seq<ScreenChar>, attr: ColorCode)
    requires
        grid.len() == BUFFER_HEIGHT * BUFFER_WIDTH,
    ensures
        scrolled(grid, attr).len() == grid.len(),
        forall|r: int, c: int|
            BUFFER_HEIGHT - 1 <= r < BUFFER_HEIGHT && 0 <= c < BUFFER_WIDTH
                ==> #[trigger] cell_of(scrolled(grid, attr), r, c) == blank_char(attr),
        forall|r: int, c: int|
            0 <= r < BUFFER_HEIGHT - 1 && 0 <= c < BUFFER_WIDTH
                ==> #[trigger] cell_of(scrolled(grid, attr), r, c) == cell_of(grid, r + 1, c),
{
}

/// Law: writing printable bytes that fit on the rest of the line advances the
/// column by their number, places them in order on the bottom row at the
/// columns where the cursor stood, and changes no other cell.
pub proof fn lemma_run_printable_fills_line(v: WriterView, s: Seq<u8>)
    requires
        view_wf(v),
        v.column + s.len() <= BUFFER_WIDTH,
        forall|i: int| 0 <= i < s.len() ==> is_printable(#[trigger] s[i]),
    ensures
        view_wf(run(v, s)),
        run(v, s).column == v.column + s.len(),
        run(v, s).attr == v.attr,
        forall|i: int|
            0 <= i < s.len() ==> run(v, s).grid[cell_index(BUFFER_HEIGHT - 1, v.column + i)] == (
            ScreenChar { ascii_character: #[trigger] s[i], color_char: v.attr }),
        forall|j: int|
            0 <= j < v.grid.len() && !(cell_index(BUFFER_HEIGHT - 1, v.column) <= j < cell_index(
                BUFFER_HEIGHT - 1,
                v.column,
            ) + s.len()) ==> #[trigger] run(v, s).grid[j] == v.grid[j],
    decreases s.len(),
{
    if s.len() > 0 {
        let s0 = s.drop_last();
        let b = s.last();
        assert(forall|i: int| 0 <= i < s0.len() ==> is_printable(#[trigger] s0[i]));
        lemma_run_printable_fills_line(v, s0);
        let v1 = run(v, s0);
        assert(run(v, s) == step(v1, glyph_of(b)));
        assert(glyph_of(b) == b);
        let base = cell_index(BUFFER_HEIGHT - 1, v.column);
        assert(cell_index(BUFFER_HEIGHT - 1, v1.column) == base + (s.len() - 1));
        assert forall|i: int| 0 <= i < s.len() implies run(v, s).grid[cell_index(
            BUFFER_HEIGHT - 1,
            v.column + i,
        )] == (ScreenChar { ascii_character: s[i], color_char: v.attr }) by {
            assert(cell_index(BUFFER_HEIGHT - 1, v.column + i) == base + i);
            if i < s.len() - 1 {
                assert(s0[i] == s[i]);
                assert(v1.grid[cell_index(BUFFER_HEIGHT - 1, v.column + i)] == (ScreenChar {
                    ascii_character: s0[i],
                    color_char: v.attr,
                }));
            }
        };
        assert forall|j: int|
            0 <= j < v.grid.len() && !(base <= j < base + s.len()) implies #[trigger] run(
            v,
            s,
        ).grid[j] == v.grid[j] by {
            assert(v1.grid[j] == v.grid[j]);
        };
    }
}

/// Law: writing exactly `BUFFER_WIDTH` printable bytes from column 0 leaves
/// the column at `BUFFER_WIDTH`; the next printable byte triggers a wrap —
/// one scroll, then placement at column 0 — and the column ends at 1.
pub proof fn lemma_full_line_then_wrap(v: WriterView, s: Seq<u8>, b: u8)
    requires
        view_wf(v),
        v.column == 0,
        s.len() == BUFFER_WIDTH,
        forall|i: int| 0 <= i < s.len() ==> is_printable(#[trigger] s[i]),
        is_printable(b),
    ensures
        run(v, s).column == BUFFER_WIDTH,
        step(run(v, s), b).column == 1,
        step(run(v, s), b).grid == scrolled(run(v, s).grid, v.attr).update(
            cell_index(BUFFER_HEIGHT - 1, 0),
            (ScreenChar { ascii_character: b, color_char: v.attr }),
        ),
{
    lemma_run_printable_fills_line(v, s);
    lemma_printable_advances_column(run(v, s), b);
}

/// Law: a scroll keeps every cell renderable — shifted cells were renderable
/// already and the cleared bottom row holds spaces.
pub proof fn lemma_scrolled_renderable(grid: Seq<ScreenChar>, attr: ColorCode)
    requires
        grid.len() == BUFFER_HEIGHT * BUFFER_WIDTH,
        all_renderable(grid),
    ensures
        all_renderable(scrolled(grid, attr)),
{
    assert forall|i: int| 0 <= i < scrolled(grid, attr).len() implies renderable(
        #[trigger] scrolled(grid, attr)[i],
    ) by {
        if i < (BUFFER_HEIGHT - 1) * BUFFER_WIDTH {
            assert(renderable(grid[i + BUFFER_WIDTH]));
        }
    };
}

/// Law: writing any byte sequence through the string path never produces a
/// cell whose character byte is outside the printable range or the
/// placeholder glyph: every written cell goes through `glyph_of`.
pub proof fn lemma_write_string_renderable(v: WriterView, s: Seq<u8>)
    requires
        view_wf(v),
        all_renderable(v.grid),
    ensures
        all_renderable(run(v, s).grid),
    decreases s.len(),
{
    if s.len() > 0 {
        let s0 = s.drop_last();
        lemma_write_string_renderable(v, s0);
        lemma_run_wf(v, s0);
        let v2 = run(v, s0);
        lemma_scrolled_renderable(v2.grid, v2.attr);
        assert(renderable(blank_char(v2.attr)));
        assert(is_printable(glyph_of(s.last())) || glyph_of(s.last()) == NEWLINE_BYTE || glyph_of(
            s.last(),
        ) == PLACEHOLDER_BYTE);
    }
}

} // verus!

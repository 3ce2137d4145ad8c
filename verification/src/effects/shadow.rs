//! Drop shadow.

use vstd::prelude::*;
use crate::color::{spec_darken, Color, Ratio};
use crate::grid::{
    painted,
    spec_blank,
    spec_blank_grid,
    spec_blit,
    spec_rect,
    spec_width,
    Cell,
    Grid,
    Painter,
};

verus! {

/// A drop shadow.
#[derive(Clone, Copy, Debug)]
pub struct Shadow {
    /// How far the shadow is moved: columns to the right, rows down.
    pub offset: (i32, i32),
    /// How much darker than the ink the shadow is: zero keeps the colour,
    /// one gives black.
    pub alpha: Ratio,
}

/// A dimension enlarged by the positive part of an offset, as far as the
/// machine's limit lets it grow.
pub open spec fn spec_grown(size: nat, offset: int) -> nat {
    let extra = if offset > 0 {
        offset
    } else {
        0
    };
    if size + extra > usize::MAX {
        usize::MAX as nat
    } else {
        (size + extra) as nat
    }
}

/// The foreground of a shadow cell: the darkened foreground of the ink.
pub open spec fn spec_shaded(fg: Option<Color>, amount: Ratio) -> Option<Color> {
    match fg {
        Some(color) => Some(spec_darken(color, amount)),
        None => None,
    }
}

/// Whether (`row`, `col`) is a visible cell of the grid.
pub open spec fn spec_is_ink(g: Seq<Seq<Cell>>, row: int, col: int) -> bool {
    0 <= row < g.len() && 0 <= col < g[row].len() && g[row][col].visible
}

/// The cell at (`row`, `col`) of a grid with its shadow: the ink of the
/// grid where there is ink; else, where the cell that lies the offset away
/// is ink, a visible cell with that character and its darkened colour;
/// else a blank cell. The shadow never covers ink.
pub open spec fn spec_shadow_cell(shadow: Shadow, g: Seq<Seq<Cell>>, row: int, col: int) -> Cell {
    let from_row = row - shadow.offset.1;
    let from_col = col - shadow.offset.0;
    if spec_is_ink(g, row, col) {
        g[row][col]
    } else if spec_is_ink(g, from_row, from_col) {
        Cell {
            ch: g[from_row][from_col].ch,
            fg: spec_shaded(g[from_row][from_col].fg, shadow.alpha),
            bg: None,
            visible: true,
        }
    } else {
        spec_blank()
    }
}

/// A grid with its shadow. With the offset (0, 0) it is the grid itself;
/// otherwise it is larger by the positive parts of the offset.
pub open spec fn spec_shadow(shadow: Shadow, g: Seq<Seq<Cell>>) -> Seq<Seq<Cell>> {
    if shadow.offset.0 == 0 && shadow.offset.1 == 0 {
        g
    } else {
        Seq::new(
            spec_grown(g.len(), shadow.offset.1 as int),
            |r: int|
                Seq::new(
                    spec_grown(spec_width(g), shadow.offset.0 as int),
                    |c: int| spec_shadow_cell(shadow, g, r, c),
                ),
        )
    }
}

/// A shadow with the offset (0, 0) leaves the grid as it is, in contents
/// and in dimensions.
pub proof fn lemma_shadow_without_offset(shadow: Shadow, g: Seq<Seq<Cell>>)
    requires
        shadow.offset == (0i32, 0i32),
    ensures
        spec_shadow(shadow, g) == g,
{
}

/// Whether (`sr`, `sc`) comes before (`row`, `col`) when reading row by row.
pub open spec fn spec_before(sr: int, sc: int, row: int, col: int) -> bool {
    sr < row || (sr == row && sc < col)
}

/// The shadow cell that ink casts.
pub open spec fn spec_shadow_of(shadow: Shadow, ink: Cell, cell: Cell) -> Cell {
    Cell { ch: ink.ch, fg: spec_shaded(ink.fg, shadow.alpha), bg: cell.bg, visible: true }
}

/// One write: the ink at (`row`, `col`) casts its shadow on the cell of
/// `out` that lies the offset away, where that lies inside `out` and is
/// not visible yet.
pub open spec fn spec_cast(
    shadow: Shadow,
    ink: Cell,
    out: Seq<Seq<Cell>>,
    row: int,
    col: int,
) -> Seq<Seq<Cell>> {
    let tr = row + shadow.offset.1;
    let tc = col + shadow.offset.0;
    if 0 <= tr < out.len() && 0 <= tc < out[tr].len() && !out[tr][tc].visible {
        out.update(tr, out[tr].update(tc, spec_shadow_of(shadow, ink, out[tr][tc])))
    } else {
        out
    }
}

/// The pass over the cells of `g` from (`row`, `col`) on, row by row: each
/// cell that is ink in `g` casts its shadow on `out`.
pub open spec fn spec_cast_from(
    shadow: Shadow,
    g: Seq<Seq<Cell>>,
    out: Seq<Seq<Cell>>,
    row: int,
    col: int,
) -> Seq<Seq<Cell>>
    decreases g.len() - row, spec_width(g) - col,
{
    if row < 0 || col < 0 || row >= g.len() {
        out
    } else if col >= spec_width(g) {
        spec_cast_from(shadow, g, out, row + 1, 0)
    } else if g[row][col].visible {
        spec_cast_from(shadow, g, spec_cast(shadow, g[row][col], out, row, col), row, col + 1)
    } else {
        spec_cast_from(shadow, g, out, row, col + 1)
    }
}

/// The shadow as it is made step by step: the ink of the grid is copied
/// onto a larger blank grid, and then every cell of ink, taken row by row,
/// casts its shadow where no cell is visible yet.
pub open spec fn spec_shadow_pass(shadow: Shadow, g: Seq<Seq<Cell>>) -> Seq<Seq<Cell>> {
    spec_cast_from(
        shadow,
        g,
        spec_blit(
            spec_blank_grid(
                spec_grown(g.len(), shadow.offset.1 as int),
                spec_grown(spec_width(g), shadow.offset.0 as int),
            ),
            g,
            0,
            0,
        ),
        0,
        0,
    )
}

/// The cell at (`tr`, `tc`) once all ink before (`row`, `col`) has cast
/// its shadow.
pub open spec fn spec_shadow_upto(
    shadow: Shadow,
    g: Seq<Seq<Cell>>,
    tr: int,
    tc: int,
    row: int,
    col: int,
) -> Cell {
    let from_row = tr - shadow.offset.1;
    let from_col = tc - shadow.offset.0;
    if spec_is_ink(g, tr, tc) {
        g[tr][tc]
    } else if spec_is_ink(g, from_row, from_col) && spec_before(from_row, from_col, row, col) {
        spec_shadow_of(shadow, g[from_row][from_col], spec_blank())
    } else {
        spec_blank()
    }
}

/// The state of the pass when all ink before (`row`, `col`) has cast its
/// shadow.
pub open spec fn spec_cast_state(
    shadow: Shadow,
    g: Seq<Seq<Cell>>,
    out: Seq<Seq<Cell>>,
    row: int,
    col: int,
) -> bool {
    &&& out.len() == spec_grown(g.len(), shadow.offset.1 as int)
    &&& forall|tr: int|
        0 <= tr < out.len() ==> (#[trigger] out[tr]).len() == spec_grown(
            spec_width(g),
            shadow.offset.0 as int,
        )
    &&& forall|tr: int, tc: int|
        0 <= tr < out.len() && 0 <= tc < out[tr].len() ==> #[trigger] out[tr][tc]
            == spec_shadow_upto(shadow, g, tr, tc, row, col)
}

/// From any state that the pass reaches, it ends in the grid with its shadow.
proof fn lemma_cast_from(shadow: Shadow, g: Seq<Seq<Cell>>, out: Seq<Seq<Cell>>, row: int, col: int)
    requires
        spec_rect(g),
        shadow.offset != (0i32, 0i32),
        0 <= row <= g.len(),
        0 <= col <= spec_width(g),
        spec_cast_state(shadow, g, out, row, col),
    ensures
        spec_cast_from(shadow, g, out, row, col) == spec_shadow(shadow, g),
    decreases g.len() - row, spec_width(g) - col,
{
    let goal = spec_shadow(shadow, g);
    if row >= g.len() {
        assert(out =~= goal) by {
            assert forall|tr: int| 0 <= tr < out.len() implies #[trigger] out[tr] =~= goal[tr] by {
                assert forall|tc: int| 0 <= tc < out[tr].len() implies out[tr][tc] == goal[tr][tc] by {
                    assert(out[tr][tc] == spec_shadow_upto(shadow, g, tr, tc, row, col));
                }
            }
        }
    } else if col >= spec_width(g) {
        assert(spec_cast_state(shadow, g, out, row + 1, 0)) by {
            assert forall|tr: int, tc: int| 0 <= tr < out.len() && 0 <= tc < out[tr].len() implies #[trigger] out[tr][tc]
                == spec_shadow_upto(shadow, g, tr, tc, row + 1, 0) by {
                let from_row = tr - shadow.offset.1;
                if 0 <= from_row < g.len() {
                    assert(g[from_row].len() == spec_width(g));
                }
            }
        }
        lemma_cast_from(shadow, g, out, row + 1, 0);
    } else if g[row][col].visible {
        let next = spec_cast(shadow, g[row][col], out, row, col);
        assert(g[row].len() == spec_width(g));
        assert(spec_cast_state(shadow, g, next, row, col + 1)) by {
            assert forall|tr: int| 0 <= tr < next.len() implies (#[trigger] next[tr]).len()
                == spec_grown(spec_width(g), shadow.offset.0 as int) by {
                assert(out[tr].len() == spec_grown(spec_width(g), shadow.offset.0 as int));
            }
            assert forall|tr: int, tc: int| 0 <= tr < next.len() && 0 <= tc < next[tr].len() implies #[trigger] next[tr][tc]
                == spec_shadow_upto(shadow, g, tr, tc, row, col + 1) by {
                assert(out[tr].len() == spec_grown(spec_width(g), shadow.offset.0 as int));
                assert(out[tr][tc] == spec_shadow_upto(shadow, g, tr, tc, row, col));
            }
        }
        lemma_cast_from(shadow, g, next, row, col + 1);
    } else {
        assert(spec_cast_state(shadow, g, out, row, col + 1)) by {
            assert forall|tr: int, tc: int| 0 <= tr < out.len() && 0 <= tc < out[tr].len() implies #[trigger] out[tr][tc]
                == spec_shadow_upto(shadow, g, tr, tc, row, col + 1) by {
                assert(out[tr][tc] == spec_shadow_upto(shadow, g, tr, tc, row, col));
            }
        }
        lemma_cast_from(shadow, g, out, row, col + 1);
    }
}

/// The grid with its shadow is what the steps make, where the offset is
/// not (0, 0): the ink is copied onto the larger grid, and every cell of
/// ink casts its shadow where no cell is visible yet.
pub proof fn lemma_shadow_fills_gaps(shadow: Shadow, g: Seq<Seq<Cell>>)
    requires
        spec_rect(g),
        shadow.offset != (0i32, 0i32),
    ensures
        spec_shadow_pass(shadow, g) == spec_shadow(shadow, g),
{
    let base = spec_blit(
        spec_blank_grid(
            spec_grown(g.len(), shadow.offset.1 as int),
            spec_grown(spec_width(g), shadow.offset.0 as int),
        ),
        g,
        0,
        0,
    );
    assert(spec_cast_state(shadow, g, base, 0, 0)) by {
        assert forall|tr: int, tc: int| 0 <= tr < base.len() && 0 <= tc < base[tr].len() implies #[trigger] base[tr][tc]
            == spec_shadow_upto(shadow, g, tr, tc, 0, 0) by {
            if 0 <= tr < g.len() {
                assert(g[tr].len() == spec_width(g));
            }
        }
    }
    lemma_cast_from(shadow, g, base, 0, 0);
}

fn grown(size: usize, offset: i32) -> (n: usize)
    ensures
        n == spec_grown(size as nat, offset as int),
{
    if offset <= 0 {
        size
    } else {
        let extra: usize = offset as usize;
        if size > usize::MAX - extra {
            usize::MAX
        } else {
            size + extra
        }
    }
}

/// The position that lies `offset` before `at`, where it is inside `size`.
fn shifted_back(at: usize, offset: i32, size: usize) -> (p: Option<usize>)
    ensures
        p is Some <==> 0 <= at - offset < size,
        p is Some ==> p->0 == at - offset,
{
    let pos: i128 = at as i128 - offset as i128;
    if pos >= 0 && pos < size as i128 {
        Some(pos as usize)
    } else {
        None
    }
}

struct ShadowPainter {
    shadow: Shadow,
}

impl Painter for ShadowPainter {
    closed spec fn spec_fits(&self, source: Seq<Seq<Cell>>, height: nat, width: nat) -> bool {
        true
    }

    closed spec fn spec_paint(&self, source: Seq<Seq<Cell>>, row: int, col: int) -> Cell {
        spec_shadow_cell(self.shadow, source, row, col)
    }

    fn paint(&self, source: &Grid, height: usize, width: usize, row: usize, col: usize) -> (cell:
        Cell) {
        let h = source.height();
        let w = source.width();
        proof {
            if row < h {
                assert(source@[row as int].len() == w);
            }
        }
        if row < h && col < w {
            let own = source.at(row, col);
            if own.visible {
                return own;
            }
        }
        match (shifted_back(row, self.shadow.offset.1, h), shifted_back(col, self.shadow.offset.0, w)) {
            (Some(from_row), Some(from_col)) => {
                assert(source@[from_row as int].len() == w);
                let ink = source.at(from_row, from_col);
                if ink.visible {
                    let fg = match ink.fg {
                        Some(color) => Some(color.darken(self.shadow.alpha)),
                        None => None,
                    };
                    return Cell { ch: ink.ch, fg, bg: None, visible: true };
                }
            },
            _ => {},
        }
        Cell { ch: ' ', fg: None, bg: None, visible: false }
    }
}

/// Adds a drop shadow to a grid.
pub fn apply_shadow(grid: &Grid, shadow: Shadow) -> (out: Grid)
    requires
        grid.wf(),
    ensures
        out.wf(),
        out@ == spec_shadow(shadow, grid@),
{
    if shadow.offset.0 == 0 && shadow.offset.1 == 0 {
        return grid.duplicate();
    }
    let height = grown(grid.height(), shadow.offset.1);
    let width = grown(grid.width(), shadow.offset.0);
    let painter = ShadowPainter { shadow };
    let out = painted(&painter, grid, height, width);
    assert(out@ =~= spec_shadow(shadow, grid@)) by {
        assert forall|r: int| 0 <= r < out@.len() implies #[trigger] out@[r] =~= spec_shadow(
            shadow,
            grid@,
        )[r] by {}
    }
    out
}

} // verus!

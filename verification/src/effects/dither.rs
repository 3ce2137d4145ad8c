//! Dot dither over chosen characters.

use vstd::prelude::*;
use crate::fill::{dither_char, should_dither, spec_dither_char, spec_should_dither, Dither};
use crate::grid::{painted, spec_width, Cell, Grid, Painter};

verus! {

/// A cell under a dot dither: a visible cell whose character is one of the
/// targets, at a position that the pattern dithers, is drawn with a dot.
/// Any other cell stays as it is.
pub open spec fn spec_dot_dither_cell(
    dither: Dither,
    targets: Seq<char>,
    cell: Cell,
    row: int,
    col: int,
) -> Cell {
    if cell.visible && targets.contains(cell.ch) && spec_should_dither(row, col, dither.mode) {
        Cell { ch: spec_dither_char(dither, row, col), ..cell }
    } else {
        cell
    }
}

/// A grid under a dot dither.
pub open spec fn spec_dot_dither(dither: Dither, targets: Seq<char>, g: Seq<Seq<Cell>>) -> Seq<
    Seq<Cell>,
> {
    Seq::new(
        g.len(),
        |r: int| Seq::new(g[r].len(), |c: int| spec_dot_dither_cell(dither, targets, g[r][c], r, c)),
    )
}

fn contains_char(targets: &[char], ch: char) -> (b: bool)
    ensures
        b == targets@.contains(ch),
{
    let mut i: usize = 0;
    while i < targets.len()
        invariant
            i <= targets@.len(),
            forall|k: int| 0 <= k < i ==> targets@[k] != ch,
        decreases targets@.len() - i,
    {
        if targets[i] == ch {
            return true;
        }
        i += 1;
    }
    false
}

struct DotPainter<'a> {
    dither: Dither,
    targets: &'a [char],
}

impl<'a> Painter for DotPainter<'a> {
    closed spec fn spec_fits(&self, source: Seq<Seq<Cell>>, height: nat, width: nat) -> bool {
        height == source.len() && width == spec_width(source)
    }

    closed spec fn spec_paint(&self, source: Seq<Seq<Cell>>, row: int, col: int) -> Cell {
        spec_dot_dither_cell(self.dither, self.targets@, source[row][col], row, col)
    }

    fn paint(&self, source: &Grid, height: usize, width: usize, row: usize, col: usize) -> (cell:
        Cell) {
        let cell = source.at(row, col);
        if cell.visible && contains_char(self.targets, cell.ch) && should_dither(
            row,
            col,
            self.dither.mode,
        ) {
            Cell { ch: dither_char(self.dither, row, col), ..cell }
        } else {
            cell
        }
    }
}

/// Draws dots over the visible cells whose character is one of `targets`,
/// where the pattern dithers.
pub fn apply_dot_dither(grid: &Grid, dither: Dither, targets: &[char]) -> (out: Grid)
    requires
        grid.wf(),
    ensures
        out.wf(),
        out@ == spec_dot_dither(dither, targets@, grid@),
{
    let painter = DotPainter { dither, targets };
    let out = painted(&painter, grid, grid.height(), grid.width());
    assert(out@ =~= spec_dot_dither(dither, targets@, grid@)) by {
        assert forall|r: int| 0 <= r < grid@.len() implies #[trigger] out@[r] =~= spec_dot_dither(
            dither,
            targets@,
            grid@,
        )[r] by {
            assert(grid@[r].len() == spec_width(grid@));
        }
    }
    out
}

} // verus!

//! Edge shade: a halo of one cell around the ink.

use vstd::prelude::*;
use crate::color::Ratio;
use crate::effects::shadow::{spec_before, spec_is_ink, spec_shaded};
use crate::grid::{painted, spec_rect, spec_width, Cell, Grid, Painter};

verus! {

/// An edge shade.
#[derive(Clone, Copy, Debug)]
pub struct EdgeShade {
    /// The character of the edge.
    pub ch: char,
    /// How much darker than the ink the edge is: zero keeps the colour, one
    /// gives black.
    pub darken: Ratio,
}

/// The row offset of neighbour number `k`, the neighbours taken row by row
/// from the top-left one to the bottom-right one.
pub open spec fn spec_neighbor_row(k: int) -> int {
    if k < 3 {
        -1
    } else if k < 5 {
        0
    } else {
        1
    }
}

/// The column offset of neighbour number `k`.
pub open spec fn spec_neighbor_col(k: int) -> int {
    if k == 0 || k == 3 || k == 5 {
        -1
    } else if k == 1 || k == 6 {
        0
    } else {
        1
    }
}

/// The number of the first neighbour from number `k` on that is ink; 8
/// where there is none. Ink is visited row by row, and a cell that was
/// claimed once is not claimed again, so the first neighbour in that order
/// is the one that claims (`row`, `col`) for its edge.
pub open spec fn spec_claimer(g: Seq<Seq<Cell>>, row: int, col: int, k: int) -> int
    decreases 8 - k,
{
    if k < 0 || k >= 8 {
        8
    } else if spec_is_ink(g, row + spec_neighbor_row(k), col + spec_neighbor_col(k)) {
        k
    } else {
        spec_claimer(g, row, col, k + 1)
    }
}

/// The edge cell that ink makes of a cell it claims: visible, with the
/// edge character and the darkened foreground of the ink; the background
/// stays.
pub open spec fn spec_edge_of(shade: EdgeShade, ink: Cell, cell: Cell) -> Cell {
    Cell { ch: shade.ch, fg: spec_shaded(ink.fg, shade.darken), bg: cell.bg, visible: true }
}

/// The cell at (`row`, `col`) of a grid with its edge: ink stays as it is;
/// a cell without ink that has ink among its eight neighbours becomes the
/// edge cell of the neighbour that claims it; any other cell stays as it
/// is. The edge is taken from the ink of the grid as it was, so an edge
/// casts no edge of its own.
pub open spec fn spec_edge_cell(shade: EdgeShade, g: Seq<Seq<Cell>>, row: int, col: int) -> Cell {
    let cell = g[row][col];
    let k = spec_claimer(g, row, col, 0);
    if cell.visible || k >= 8 {
        cell
    } else {
        spec_edge_of(shade, g[row + spec_neighbor_row(k)][col + spec_neighbor_col(k)], cell)
    }
}

/// A grid with its edge.
pub open spec fn spec_edge_shade(shade: EdgeShade, g: Seq<Seq<Cell>>) -> Seq<Seq<Cell>> {
    Seq::new(g.len(), |r: int| Seq::new(g[r].len(), |c: int| spec_edge_cell(shade, g, r, c)))
}

/// The row offset of the neighbour that ink visits as number `k`: above
/// and below first, then left and right, then the four corners.
pub open spec fn spec_visit_row(k: int) -> int {
    if k == 0 || k == 4 || k == 5 {
        -1
    } else if k == 1 || k == 6 || k == 7 {
        1
    } else {
        0
    }
}

/// The column offset of the neighbour that ink visits as number `k`.
pub open spec fn spec_visit_col(k: int) -> int {
    if k == 2 || k == 4 || k == 6 {
        -1
    } else if k == 3 || k == 5 || k == 7 {
        1
    } else {
        0
    }
}

/// One visit: the ink at (`row`, `col`) claims its neighbour number `k`
/// of `out`, where that lies inside the grid and is not visible yet.
pub open spec fn spec_claim(
    shade: EdgeShade,
    ink: Cell,
    out: Seq<Seq<Cell>>,
    row: int,
    col: int,
    k: int,
) -> Seq<Seq<Cell>> {
    let tr = row + spec_visit_row(k);
    let tc = col + spec_visit_col(k);
    if 0 <= tr < out.len() && 0 <= tc < out[tr].len() && !out[tr][tc].visible {
        out.update(tr, out[tr].update(tc, spec_edge_of(shade, ink, out[tr][tc])))
    } else {
        out
    }
}

/// The visits of the ink at (`row`, `col`) from number `k` on.
pub open spec fn spec_claim_all(
    shade: EdgeShade,
    ink: Cell,
    out: Seq<Seq<Cell>>,
    row: int,
    col: int,
    k: int,
) -> Seq<Seq<Cell>>
    decreases 8 - k,
{
    if k < 0 || k >= 8 {
        out
    } else {
        spec_claim_all(shade, ink, spec_claim(shade, ink, out, row, col, k), row, col, k + 1)
    }
}

/// The pass over the cells of `g` from (`row`, `col`) on, row by row: each
/// cell that is ink in `g` claims its neighbours in `out`.
pub open spec fn spec_pass(
    shade: EdgeShade,
    g: Seq<Seq<Cell>>,
    out: Seq<Seq<Cell>>,
    row: int,
    col: int,
) -> Seq<Seq<Cell>>
    decreases g.len() - row, spec_width(g) - col,
{
    if row < 0 || col < 0 || row >= g.len() {
        out
    } else if col >= spec_width(g) {
        spec_pass(shade, g, out, row + 1, 0)
    } else if g[row][col].visible {
        spec_pass(shade, g, spec_claim_all(shade, g[row][col], out, row, col, 0), row, col + 1)
    } else {
        spec_pass(shade, g, out, row, col + 1)
    }
}

/// The edge as one pass makes it: the pass reads the ink from the grid and
/// writes into a copy, and what was written first stays.
pub open spec fn spec_edge_pass(shade: EdgeShade, g: Seq<Seq<Cell>>) -> Seq<Seq<Cell>> {
    spec_pass(shade, g, g, 0, 0)
}

/// The cell at (`tr`, `tc`) once all ink before (`row`, `col`) has made
/// its visits.
pub open spec fn spec_edge_upto(
    shade: EdgeShade,
    g: Seq<Seq<Cell>>,
    tr: int,
    tc: int,
    row: int,
    col: int,
) -> Cell {
    let cell = g[tr][tc];
    let k = spec_claimer(g, tr, tc, 0);
    if cell.visible || k >= 8 || !spec_before(
        tr + spec_neighbor_row(k),
        tc + spec_neighbor_col(k),
        row,
        col,
    ) {
        cell
    } else {
        spec_edge_of(shade, g[tr + spec_neighbor_row(k)][tc + spec_neighbor_col(k)], cell)
    }
}

/// Whether the ink at (`row`, `col`) has visited (`tr`, `tc`) in its
/// visits before number `k`.
pub open spec fn spec_visited(tr: int, tc: int, row: int, col: int, k: int) -> bool {
    ||| (k > 0 && tr == row - 1 && tc == col)
    ||| (k > 1 && tr == row + 1 && tc == col)
    ||| (k > 2 && tr == row && tc == col - 1)
    ||| (k > 3 && tr == row && tc == col + 1)
    ||| (k > 4 && tr == row - 1 && tc == col - 1)
    ||| (k > 5 && tr == row - 1 && tc == col + 1)
    ||| (k > 6 && tr == row + 1 && tc == col - 1)
    ||| (k > 7 && tr == row + 1 && tc == col + 1)
}

/// The state of the pass when the ink at (`row`, `col`) has made its
/// visits before number `k`, and all ink before it all of theirs.
pub open spec fn spec_state(
    shade: EdgeShade,
    g: Seq<Seq<Cell>>,
    out: Seq<Seq<Cell>>,
    row: int,
    col: int,
    k: int,
) -> bool {
    &&& out.len() == g.len()
    &&& forall|tr: int| 0 <= tr < g.len() ==> (#[trigger] out[tr]).len() == g[tr].len()
    &&& forall|tr: int, tc: int|
        0 <= tr < g.len() && 0 <= tc < g[tr].len() ==> #[trigger] out[tr][tc] == (if spec_visited(
            tr,
            tc,
            row,
            col,
            k,
        ) {
            spec_edge_upto(shade, g, tr, tc, row, col + 1)
        } else {
            spec_edge_upto(shade, g, tr, tc, row, col)
        })
}

/// The claimer of a cell is one of its neighbours from `k` on, it is ink,
/// and no neighbour from `k` on that comes before it is ink.
proof fn lemma_claimer(g: Seq<Seq<Cell>>, tr: int, tc: int, k: int)
    requires
        0 <= k <= 8,
    ensures
        k <= spec_claimer(g, tr, tc, k) <= 8,
        spec_claimer(g, tr, tc, k) < 8 ==> spec_is_ink(
            g,
            tr + spec_neighbor_row(spec_claimer(g, tr, tc, k)),
            tc + spec_neighbor_col(spec_claimer(g, tr, tc, k)),
        ),
        forall|j: int|
            k <= j < 8 && spec_is_ink(g, tr + spec_neighbor_row(j), tc + spec_neighbor_col(j))
                ==> spec_claimer(g, tr, tc, k) <= j,
    decreases 8 - k,
{
    if k < 8 && !spec_is_ink(g, tr + spec_neighbor_row(k), tc + spec_neighbor_col(k)) {
        lemma_claimer(g, tr, tc, k + 1);
    }
}

/// The number under which a cell sees the ink that visits it as number `k`.
spec fn spec_seen_as(k: int) -> int {
    if k == 0 {
        6
    } else if k == 1 {
        1
    } else if k == 2 {
        4
    } else if k == 3 {
        3
    } else if k == 4 {
        7
    } else if k == 5 {
        5
    } else if k == 6 {
        2
    } else {
        0
    }
}

/// One visit keeps the state of the pass.
proof fn lemma_claim(
    shade: EdgeShade,
    g: Seq<Seq<Cell>>,
    out: Seq<Seq<Cell>>,
    row: int,
    col: int,
    k: int,
)
    requires
        spec_rect(g),
        0 <= row < g.len(),
        0 <= col < spec_width(g),
        g[row][col].visible,
        0 <= k < 8,
        spec_state(shade, g, out, row, col, k),
    ensures
        spec_state(shade, g, spec_claim(shade, g[row][col], out, row, col, k), row, col, k + 1),
{
    let next = spec_claim(shade, g[row][col], out, row, col, k);
    let vr = row + spec_visit_row(k);
    let vc = col + spec_visit_col(k);
    assert(g[row].len() == spec_width(g));
    assert forall|tr: int| 0 <= tr < g.len() implies (#[trigger] next[tr]).len() == g[tr].len() by {
        assert(out[tr].len() == g[tr].len());
    }
    assert forall|tr: int, tc: int| 0 <= tr < g.len() && 0 <= tc < g[tr].len() implies #[trigger] next[tr][tc]
        == (if spec_visited(tr, tc, row, col, k + 1) {
        spec_edge_upto(shade, g, tr, tc, row, col + 1)
    } else {
        spec_edge_upto(shade, g, tr, tc, row, col)
    }) by {
        assert(out[tr].len() == g[tr].len());
        assert(out[tr][tc] == (if spec_visited(tr, tc, row, col, k) {
            spec_edge_upto(shade, g, tr, tc, row, col + 1)
        } else {
            spec_edge_upto(shade, g, tr, tc, row, col)
        }));
        if tr == vr && tc == vc {
            let j = spec_seen_as(k);
            assert(tr + spec_neighbor_row(j) == row && tc + spec_neighbor_col(j) == col);
            assert(spec_is_ink(g, tr + spec_neighbor_row(j), tc + spec_neighbor_col(j)));
            lemma_claimer(g, tr, tc, 0);
            let first = spec_claimer(g, tr, tc, 0);
            assert(first <= j);
            assert(!spec_visited(tr, tc, row, col, k));
            assert(spec_visited(tr, tc, row, col, k + 1));
            assert(first < j ==> spec_before(
                tr + spec_neighbor_row(first),
                tc + spec_neighbor_col(first),
                row,
                col,
            ));
        } else {
            assert(next[tr][tc] == out[tr][tc]);
            assert(spec_visited(tr, tc, row, col, k + 1) == spec_visited(tr, tc, row, col, k));
        }
    }
}

/// The visits of one cell of ink carry the pass from that cell to the next.
proof fn lemma_claim_all(
    shade: EdgeShade,
    g: Seq<Seq<Cell>>,
    out: Seq<Seq<Cell>>,
    row: int,
    col: int,
    k: int,
)
    requires
        spec_rect(g),
        0 <= row < g.len(),
        0 <= col < spec_width(g),
        g[row][col].visible,
        0 <= k <= 8,
        spec_state(shade, g, out, row, col, k),
    ensures
        spec_state(
            shade,
            g,
            spec_claim_all(shade, g[row][col], out, row, col, k),
            row,
            col + 1,
            0,
        ),
    decreases 8 - k,
{
    if k >= 8 {
        assert forall|tr: int, tc: int| 0 <= tr < g.len() && 0 <= tc < g[tr].len() implies #[trigger] out[tr][tc]
            == spec_edge_upto(shade, g, tr, tc, row, col + 1) by {
            assert(out[tr].len() == g[tr].len());
            lemma_claimer(g, tr, tc, 0);
        }
    } else {
        lemma_claim(shade, g, out, row, col, k);
        lemma_claim_all(shade, g, spec_claim(shade, g[row][col], out, row, col, k), row, col, k + 1);
    }
}

/// From any state that the pass reaches, it ends in the grid with its edge.
proof fn lemma_pass(shade: EdgeShade, g: Seq<Seq<Cell>>, out: Seq<Seq<Cell>>, row: int, col: int)
    requires
        spec_rect(g),
        0 <= row <= g.len(),
        0 <= col <= spec_width(g),
        spec_state(shade, g, out, row, col, 0),
    ensures
        spec_pass(shade, g, out, row, col) == spec_edge_shade(shade, g),
    decreases g.len() - row, spec_width(g) - col,
{
    let goal = spec_edge_shade(shade, g);
    if row >= g.len() {
        assert(out =~= goal) by {
            assert forall|tr: int| 0 <= tr < g.len() implies #[trigger] out[tr] =~= goal[tr] by {
                assert forall|tc: int| 0 <= tc < g[tr].len() implies out[tr][tc] == goal[tr][tc] by {
                    lemma_claimer(g, tr, tc, 0);
                }
            }
        }
    } else if col >= spec_width(g) {
        assert(spec_state(shade, g, out, row + 1, 0, 0)) by {
            assert forall|tr: int, tc: int| 0 <= tr < g.len() && 0 <= tc < g[tr].len() implies #[trigger] out[tr][tc]
                == spec_edge_upto(shade, g, tr, tc, row + 1, 0) by {
                lemma_claimer(g, tr, tc, 0);
                let first = spec_claimer(g, tr, tc, 0);
                if first < 8 {
                    assert(g[tr + spec_neighbor_row(first)].len() == spec_width(g));
                }
            }
        }
        lemma_pass(shade, g, out, row + 1, 0);
    } else if g[row][col].visible {
        lemma_claim_all(shade, g, out, row, col, 0);
        lemma_pass(shade, g, spec_claim_all(shade, g[row][col], out, row, col, 0), row, col + 1);
    } else {
        assert(spec_state(shade, g, out, row, col + 1, 0)) by {
            assert forall|tr: int, tc: int| 0 <= tr < g.len() && 0 <= tc < g[tr].len() implies #[trigger] out[tr][tc]
                == spec_edge_upto(shade, g, tr, tc, row, col + 1) by {
                lemma_claimer(g, tr, tc, 0);
            }
        }
        lemma_pass(shade, g, out, row, col + 1);
    }
}

/// The grid with its edge is what one pass over the ink makes: every cell
/// of ink, taken row by row, claims those of its eight neighbours that are
/// not visible yet, and a cell that was claimed once stays with the ink
/// that claimed it first.
pub proof fn lemma_edge_is_first_writer(shade: EdgeShade, g: Seq<Seq<Cell>>)
    requires
        spec_rect(g),
    ensures
        spec_edge_pass(shade, g) == spec_edge_shade(shade, g),
{
    assert(spec_state(shade, g, g, 0, 0, 0)) by {
        assert forall|tr: int, tc: int| 0 <= tr < g.len() && 0 <= tc < g[tr].len() implies #[trigger] g[tr][tc]
            == spec_edge_upto(shade, g, tr, tc, 0, 0) by {
            lemma_claimer(g, tr, tc, 0);
        }
    }
    lemma_pass(shade, g, g, 0, 0);
}

/// The position one step from `at` in the direction `step`, where it is
/// inside `size`.
fn stepped(at: usize, step: i8, size: usize) -> (p: Option<usize>)
    requires
        -1 <= step <= 1,
    ensures
        p is Some <==> 0 <= at + step < size,
        p is Some ==> p->0 == at + step,
{
    if step < 0 {
        if at >= 1 && at - 1 < size {
            Some(at - 1)
        } else {
            None
        }
    } else if step == 0 {
        if at < size {
            Some(at)
        } else {
            None
        }
    } else {
        if at < usize::MAX && at + 1 < size {
            Some(at + 1)
        } else {
            None
        }
    }
}

fn neighbor_row(k: usize) -> (d: i8)
    ensures
        d == spec_neighbor_row(k as int),
        -1 <= d <= 1,
{
    if k < 3 {
        -1
    } else if k < 5 {
        0
    } else {
        1
    }
}

fn neighbor_col(k: usize) -> (d: i8)
    ensures
        d == spec_neighbor_col(k as int),
        -1 <= d <= 1,
{
    if k == 0 || k == 3 || k == 5 {
        -1
    } else if k == 1 || k == 6 {
        0
    } else {
        1
    }
}

struct EdgePainter {
    shade: EdgeShade,
}

impl Painter for EdgePainter {
    closed spec fn spec_fits(&self, source: Seq<Seq<Cell>>, height: nat, width: nat) -> bool {
        height == source.len() && width == spec_width(source)
    }

    closed spec fn spec_paint(&self, source: Seq<Seq<Cell>>, row: int, col: int) -> Cell {
        spec_edge_cell(self.shade, source, row, col)
    }

    fn paint(&self, source: &Grid, height: usize, width: usize, row: usize, col: usize) -> (cell:
        Cell) {
        let cell = source.at(row, col);
        if cell.visible {
            return cell;
        }
        let mut k: usize = 0;
        while k < 8
            invariant
                k <= 8,
                row < height,
                col < width,
                cell == source@[row as int][col as int],
                !cell.visible,
                source.wf(),
                height == source@.len(),
                width == spec_width(source@),
                spec_claimer(source@, row as int, col as int, 0) == spec_claimer(
                    source@,
                    row as int,
                    col as int,
                    k as int,
                ),
            decreases 8 - k,
        {
            match (stepped(row, neighbor_row(k), height), stepped(col, neighbor_col(k), width)) {
                (Some(r), Some(c)) => {
                    assert(source@[r as int].len() == width);
                    let ink = source.at(r, c);
                    if ink.visible {
                        assert(spec_is_ink(
                            source@,
                            row + spec_neighbor_row(k as int),
                            col + spec_neighbor_col(k as int),
                        ));
                        assert(spec_claimer(source@, row as int, col as int, k as int) == k);
                        let fg = match ink.fg {
                            Some(color) => Some(color.darken(self.shade.darken)),
                            None => None,
                        };
                        return Cell { ch: self.shade.ch, fg, bg: cell.bg, visible: true };
                    }
                },
                _ => {
                    proof {
                        let r = row + spec_neighbor_row(k as int);
                        if 0 <= r < height {
                            assert(source@[r].len() == width);
                        }
                    }
                },
            }
            k += 1;
        }
        cell
    }
}

/// Surrounds the ink of a grid with an edge of one cell.
pub fn apply_edge_shade(grid: &Grid, shade: EdgeShade) -> (out: Grid)
    requires
        grid.wf(),
    ensures
        out.wf(),
        out@ == spec_edge_shade(shade, grid@),
{
    let painter = EdgePainter { shade };
    let out = painted(&painter, grid, grid.height(), grid.width());
    assert(out@ =~= spec_edge_shade(shade, grid@)) by {
        assert forall|r: int| 0 <= r < grid@.len() implies #[trigger] out@[r] =~= spec_edge_shade(
            shade,
            grid@,
        )[r] by {
            assert(grid@[r].len() == spec_width(grid@));
        }
    }
    out
}

} // verus!

//! Layout: padding, alignment and the width of the banner.

use vstd::prelude::*;
use crate::grid::{
    painted,
    spec_blank,
    spec_blank_grid,
    spec_blit,
    spec_blit_hits,
    spec_rect,
    spec_width,
    Align,
    Cell,
    Grid,
    Padding,
    Painter,
};

verus! {

/// The sum of two sizes, held at the machine's limit.
pub open spec fn spec_capped_sum(a: nat, b: nat) -> nat {
    if a + b > usize::MAX {
        usize::MAX as nat
    } else {
        a + b
    }
}

/// A grid with blank cells around it. Only the visible cells of the grid
/// are carried over; the rest of the padded grid is blank.
pub open spec fn spec_pad(g: Seq<Seq<Cell>>, padding: Padding) -> Seq<Seq<Cell>> {
    spec_blit(
        spec_blank_grid(
            spec_capped_sum(spec_capped_sum(g.len(), padding.top as nat), padding.bottom as nat),
            spec_capped_sum(
                spec_capped_sum(spec_width(g), padding.left as nat),
                padding.right as nat,
            ),
        ),
        g,
        padding.top as nat,
        padding.left as nat,
    )
}

/// The width that the layout aims at, if any. An explicit width is the
/// target, whatever the greatest width is. Without an explicit width a
/// greatest width caps the present width. Without either there is no
/// target.
pub open spec fn spec_target_width(current: nat, width: Option<usize>, max_width: Option<usize>) -> Option<
    nat,
> {
    match width {
        Some(w) => Some(w as nat),
        None => match max_width {
            Some(limit) => Some(
                if current < limit {
                    current
                } else {
                    limit as nat
                },
            ),
            None => None,
        },
    }
}

/// How many of `extra` surplus columns stand on the left: none when
/// aligned to the left, half of them, rounded down, when centred, all of
/// them when aligned to the right.
pub open spec fn spec_left_share(extra: nat, align: Align) -> nat {
    match align {
        Align::Left => 0,
        Align::Center => extra / 2,
        Align::Right => extra,
    }
}

/// A grid widened to `target` columns by blank columns, shared between the
/// two sides by the alignment. Only the visible cells are carried over.
pub open spec fn spec_expand_width(g: Seq<Seq<Cell>>, target: nat, align: Align) -> Seq<Seq<Cell>> {
    spec_blit(
        spec_blank_grid(g.len(), target),
        g,
        0,
        spec_left_share((target - spec_width(g)) as nat, align),
    )
}

/// The column where the window of a clipped grid starts.
pub open spec fn spec_clip_start(width: nat, target: nat, align: Align) -> nat {
    if target >= width {
        0
    } else {
        spec_left_share((width - target) as nat, align)
    }
}

/// A grid cut down to a window of `target` columns, which the alignment
/// places. The cells of the window are carried over as they are; a window
/// wider than the grid is blank past the grid.
pub open spec fn spec_clip_width(g: Seq<Seq<Cell>>, target: nat, align: Align) -> Seq<Seq<Cell>> {
    Seq::new(
        g.len(),
        |r: int|
            Seq::new(
                target,
                |c: int|
                    if spec_clip_start(spec_width(g), target, align) + c < g[r].len() {
                        g[r][spec_clip_start(spec_width(g), target, align) + c]
                    } else {
                        spec_blank()
                    },
            ),
    )
}

/// A padded grid brought to its target width: widened where the target is
/// larger, clipped where it is smaller, and left alone where there is no
/// target or the width is the target already.
pub open spec fn spec_fit_width(g: Seq<Seq<Cell>>, target: Option<nat>, align: Align) -> Seq<
    Seq<Cell>,
> {
    match target {
        Some(t) => if t > spec_width(g) {
            spec_expand_width(g, t, align)
        } else if t < spec_width(g) {
            spec_clip_width(g, t, align)
        } else {
            g
        },
        None => g,
    }
}

/// The layout of a grid: padding first, then the width.
pub open spec fn spec_layout(
    g: Seq<Seq<Cell>>,
    padding: Padding,
    width: Option<usize>,
    max_width: Option<usize>,
    align: Align,
) -> Seq<Seq<Cell>> {
    let padded = spec_pad(g, padding);
    spec_fit_width(padded, spec_target_width(spec_width(padded), width, max_width), align)
}

/// An explicit width wins: whatever the greatest width is, the laid-out
/// grid has the rows of the padded grid, and each of them is exactly as
/// wide as the explicit width.
pub proof fn lemma_explicit_width_wins(
    g: Seq<Seq<Cell>>,
    padding: Padding,
    width: usize,
    max_width: Option<usize>,
    align: Align,
)
    requires
        spec_rect(g),
    ensures
        spec_target_width(spec_width(spec_pad(g, padding)), Some(width), max_width) == Some(
            width as nat,
        ),
        spec_layout(g, padding, Some(width), max_width, align).len() == spec_pad(g, padding).len(),
        forall|r: int|
            0 <= r < spec_pad(g, padding).len() ==> (#[trigger] spec_layout(
                g,
                padding,
                Some(width),
                max_width,
                align,
            )[r]).len() == width,
{
    let padded = spec_pad(g, padding);
    let out = spec_layout(g, padding, Some(width), max_width, align);
    assert forall|r: int| 0 <= r < padded.len() implies (#[trigger] out[r]).len() == width by {
        if width == spec_width(padded) {
            assert(padded[r].len() == padded[0].len());
        }
    }
}

/// Without an explicit width, a greatest width caps the width of the
/// padded grid: the laid-out grid is as wide as the smaller of the two.
pub proof fn lemma_max_width_caps(
    g: Seq<Seq<Cell>>,
    padding: Padding,
    limit: usize,
    align: Align,
)
    requires
        spec_rect(g),
    ensures
        spec_layout(g, padding, None, Some(limit), align).len() == spec_pad(g, padding).len(),
        forall|r: int|
            0 <= r < spec_pad(g, padding).len() ==> (#[trigger] spec_layout(
                g,
                padding,
                None,
                Some(limit),
                align,
            )[r]).len() == (if spec_width(spec_pad(g, padding)) < limit {
                spec_width(spec_pad(g, padding))
            } else {
                limit as nat
            }),
{
    let padded = spec_pad(g, padding);
    let out = spec_layout(g, padding, None, Some(limit), align);
    assert forall|r: int| 0 <= r < padded.len() implies (#[trigger] out[r]).len() == (if spec_width(
        padded,
    ) < limit {
        spec_width(padded)
    } else {
        limit as nat
    }) by {
        assert(padded[r].len() == padded[0].len());
    }
}

/// Clipping a grid and widening the result to the first width again, with
/// the same alignment, restores every visible cell of the window at its
/// place; every other cell is blank.
pub proof fn lemma_clip_then_expand(g: Seq<Seq<Cell>>, target: nat, align: Align)
    requires
        spec_rect(g),
        target <= spec_width(g),
    ensures
        ({
            let start = spec_clip_start(spec_width(g), target, align);
            let back = spec_expand_width(spec_clip_width(g, target, align), spec_width(g), align);
            &&& back.len() == g.len()
            &&& forall|r: int, c: int|
                0 <= r < g.len() && 0 <= c < spec_width(g) ==> (#[trigger] back[r][c]) == (if start
                    <= c < start + target && g[r][c].visible {
                    g[r][c]
                } else {
                    spec_blank()
                })
            &&& forall|r: int| 0 <= r < g.len() ==> (#[trigger] back[r]).len() == spec_width(g)
        }),
{
    let width = spec_width(g);
    let start = spec_clip_start(width, target, align);
    let clipped = spec_clip_width(g, target, align);
    let back = spec_expand_width(clipped, width, align);
    assert(clipped.len() == g.len());
    assert(spec_width(clipped) == target);
    let extra = (width - target) as nat;
    assert(spec_left_share(extra, align) == start);
    assert(start + target <= width) by {
        assert(extra / 2 <= extra);
    }
    assert forall|r: int, c: int| 0 <= r < g.len() && 0 <= c < width implies (#[trigger] back[r][c])
        == (if start <= c < start + target && g[r][c].visible {
        g[r][c]
    } else {
        spec_blank()
    }) by {
        assert(g[r].len() == width);
        if spec_blit_hits(clipped, 0, start, r, c) {
            assert(clipped[r][c - start] == g[r][c]);
        }
    }
}

fn capped_sum(a: usize, b: usize) -> (s: usize)
    ensures
        s == spec_capped_sum(a as nat, b as nat),
{
    if a > usize::MAX - b {
        usize::MAX
    } else {
        a + b
    }
}

fn left_share(extra: usize, align: Align) -> (n: usize)
    ensures
        n == spec_left_share(extra as nat, align),
        n <= extra,
{
    match align {
        Align::Left => 0,
        Align::Center => extra / 2,
        Align::Right => extra,
    }
}

/// Surrounds a grid with blank cells.
pub fn pad(grid: &Grid, padding: Padding) -> (out: Grid)
    requires
        grid.wf(),
    ensures
        out.wf(),
        out@ == spec_pad(grid@, padding),
{
    let height = capped_sum(capped_sum(grid.height(), padding.top), padding.bottom);
    let width = capped_sum(capped_sum(grid.width(), padding.left), padding.right);
    let mut out = Grid::new(height, width);
    out.blit(grid, padding.top, padding.left);
    out
}

/// Widens a grid to `target` columns.
fn expand_width(grid: &Grid, target: usize, align: Align) -> (out: Grid)
    requires
        grid.wf(),
        target >= spec_width(grid@),
    ensures
        out.wf(),
        out@ == spec_expand_width(grid@, target as nat, align),
{
    let extra = target - grid.width();
    let mut out = Grid::new(grid.height(), target);
    out.blit(grid, 0, left_share(extra, align));
    out
}

struct ClipPainter {
    start: usize,
}

impl Painter for ClipPainter {
    closed spec fn spec_fits(&self, source: Seq<Seq<Cell>>, height: nat, width: nat) -> bool {
        height == source.len()
    }

    closed spec fn spec_paint(&self, source: Seq<Seq<Cell>>, row: int, col: int) -> Cell {
        if self.start + col < source[row].len() {
            source[row][self.start + col]
        } else {
            spec_blank()
        }
    }

    fn paint(&self, source: &Grid, height: usize, width: usize, row: usize, col: usize) -> (cell:
        Cell) {
        assert(source@[row as int].len() == spec_width(source@));
        let w = source.width();
        if self.start < w && col < w - self.start {
            source.at(row, self.start + col)
        } else {
            Cell { ch: ' ', fg: None, bg: None, visible: false }
        }
    }
}

/// Cuts a grid down to a window of `target` columns.
pub fn clip_width(grid: &Grid, target: usize, align: Align) -> (out: Grid)
    requires
        grid.wf(),
    ensures
        out.wf(),
        out@ == spec_clip_width(grid@, target as nat, align),
{
    let width = grid.width();
    let start = if target >= width {
        0
    } else {
        left_share(width - target, align)
    };
    let painter = ClipPainter { start };
    let out = painted(&painter, grid, grid.height(), target);
    assert(out@ =~= spec_clip_width(grid@, target as nat, align)) by {
        assert forall|r: int| 0 <= r < out@.len() implies #[trigger] out@[r] =~= spec_clip_width(
            grid@,
            target as nat,
            align,
        )[r] by {}
    }
    out
}

/// The width that the layout aims at, if any: the explicit width where
/// there is one, else the present width capped by the greatest width.
pub fn target_width(current: usize, width: Option<usize>, max_width: Option<usize>) -> (t: Option<
    usize,
>)
    ensures
        match t {
            Some(v) => spec_target_width(current as nat, width, max_width) == Some(v as nat),
            None => spec_target_width(current as nat, width, max_width) is None,
        },
{
    match width {
        Some(w) => Some(w),
        None => match max_width {
            Some(limit) => Some(
                if current < limit {
                    current
                } else {
                    limit
                },
            ),
            None => None,
        },
    }
}

/// Lays a grid out: pads it, then brings it to the target width.
pub fn apply_layout(
    grid: Grid,
    padding: Padding,
    width: Option<usize>,
    max_width: Option<usize>,
    align: Align,
) -> (out: Grid)
    requires
        grid.wf(),
    ensures
        out.wf(),
        out@ == spec_layout(grid@, padding, width, max_width, align),
{
    let padded = pad(&grid, padding);
    match target_width(padded.width(), width, max_width) {
        Some(target) => {
            if target > padded.width() {
                expand_width(&padded, target, align)
            } else if target < padded.width() {
                clip_width(&padded, target, align)
            } else {
                padded
            }
        },
        None => padded,
    }
}

} // verus!

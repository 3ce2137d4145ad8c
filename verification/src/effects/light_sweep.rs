//! Light sweep: a band of light laid across the grid along an axis.

use vstd::prelude::*;
use crate::color::{lemma_lerp_zero, spec_lerp, Color, Ratio};
use crate::grid::{painted, spec_width, Cell, Grid, Painter};

verus! {

/// The axis a sweep runs along.
#[derive(Clone, Copy, Debug, PartialEq, Eq, Structural)]
pub enum SweepDirection {
    /// Left to right.
    Horizontal,
    /// Top to bottom.
    Vertical,
    /// From the top-left corner to the bottom-right corner.
    DiagonalDown,
    /// From the bottom-left corner to the top-right corner.
    DiagonalUp,
}

/// A band of light: the axis it lies across, and how strongly it brightens
/// at each step along the axis, from the first step to the last.
#[derive(Clone, Debug)]
pub struct SweepProfile {
    /// The axis.
    pub direction: SweepDirection,
    /// The strength at each step of the axis; a step past the end has none.
    pub strengths: Vec<Ratio>,
}

/// The number of the last step of an axis over a grid of the given
/// dimensions, a dimension of zero read as one: the last column, the last
/// row, or the sum of both.
pub open spec fn spec_axis_last(direction: SweepDirection, width: int, height: int) -> int {
    let w = if width < 1 {
        1
    } else {
        width
    };
    let h = if height < 1 {
        1
    } else {
        height
    };
    match direction {
        SweepDirection::Horizontal => w - 1,
        SweepDirection::Vertical => h - 1,
        SweepDirection::DiagonalDown => w + h - 2,
        SweepDirection::DiagonalUp => w + h - 2,
    }
}

/// The step of a cell along an axis: its column, its row, the sum of both,
/// or the row plus the distance of the column from the last column. On an
/// axis of a single step every cell stands at step zero. The position of
/// the cell is its step over the last step.
pub open spec fn spec_axis_step(
    direction: SweepDirection,
    row: int,
    col: int,
    width: int,
    height: int,
) -> int {
    let w = if width < 1 {
        1
    } else {
        width
    };
    if spec_axis_last(direction, width, height) <= 0 {
        0
    } else {
        match direction {
            SweepDirection::Horizontal => col,
            SweepDirection::Vertical => row,
            SweepDirection::DiagonalDown => row + col,
            SweepDirection::DiagonalUp => row + (w - 1 - col),
        }
    }
}

/// A cell under a sweep: a visible cell with a foreground is moved towards
/// the highlight by the strength at its step. A cell without ink, one
/// without a foreground, and one at a step without a strength stay as they
/// are.
pub open spec fn spec_sweep_cell(
    direction: SweepDirection,
    strengths: Seq<Ratio>,
    highlight: Color,
    cell: Cell,
    step: int,
) -> Cell {
    if cell.visible && 0 <= step < strengths.len() {
        match cell.fg {
            Some(color) => Cell { fg: Some(spec_lerp(color, highlight, strengths[step])), ..cell },
            None => cell,
        }
    } else {
        cell
    }
}

/// A grid under a sweep.
pub open spec fn spec_light_sweep(
    direction: SweepDirection,
    strengths: Seq<Ratio>,
    highlight: Color,
    g: Seq<Seq<Cell>>,
) -> Seq<Seq<Cell>> {
    Seq::new(
        g.len(),
        |r: int|
            Seq::new(
                g[r].len(),
                |c: int|
                    spec_sweep_cell(
                        direction,
                        strengths,
                        highlight,
                        g[r][c],
                        spec_axis_step(direction, r, c, spec_width(g) as int, g.len() as int),
                    ),
            ),
    )
}

/// A sweep changes foregrounds alone: the grid keeps its dimensions, and
/// every cell keeps its character, its background and its visibility. A
/// cell that is not visible, and one without a foreground, stays as it
/// is.
pub proof fn lemma_sweep_keeps_shape(
    direction: SweepDirection,
    strengths: Seq<Ratio>,
    highlight: Color,
    g: Seq<Seq<Cell>>,
)
    ensures
        spec_light_sweep(direction, strengths, highlight, g).len() == g.len(),
        forall|r: int|
            0 <= r < g.len() ==> (#[trigger] spec_light_sweep(
                direction,
                strengths,
                highlight,
                g,
            )[r]).len() == g[r].len(),
        forall|r: int, c: int|
            0 <= r < g.len() && 0 <= c < g[r].len() ==> {
                let cell = #[trigger] spec_light_sweep(direction, strengths, highlight, g)[r][c];
                &&& cell.ch == g[r][c].ch
                &&& cell.bg == g[r][c].bg
                &&& cell.visible == g[r][c].visible
                &&& cell.fg is Some == g[r][c].fg is Some
                &&& !g[r][c].visible ==> cell == g[r][c]
            },
{
}

/// A sweep without strength leaves the grid as it is: where every strength
/// is zero, by a zero numerator or a zero denominator, no cell changes.
/// This is the case of a cell outside the band, and of a band without
/// intensity or without width.
pub proof fn lemma_sweep_without_strength(
    direction: SweepDirection,
    strengths: Seq<Ratio>,
    highlight: Color,
    g: Seq<Seq<Cell>>,
)
    requires
        forall|i: int| 0 <= i < strengths.len() ==> (#[trigger] strengths[i]).part() == 0,
    ensures
        spec_light_sweep(direction, strengths, highlight, g) == g,
{
    let out = spec_light_sweep(direction, strengths, highlight, g);
    assert(out =~= g) by {
        assert forall|r: int| 0 <= r < g.len() implies #[trigger] out[r] =~= g[r] by {
            assert forall|c: int| 0 <= c < g[r].len() implies out[r][c] == g[r][c] by {
                let step = spec_axis_step(direction, r, c, spec_width(g) as int, g.len() as int);
                if g[r][c].visible && 0 <= step < strengths.len() {
                    match g[r][c].fg {
                        Some(color) => {
                            lemma_lerp_zero(color, highlight, strengths[step]);
                        },
                        None => {},
                    }
                }
            }
        }
    }
}

/// A cell at a step whose strength is zero stays as it is, whatever the
/// other strengths are.
pub proof fn lemma_sweep_cell_without_strength(
    direction: SweepDirection,
    strengths: Seq<Ratio>,
    highlight: Color,
    cell: Cell,
    step: int,
)
    requires
        0 <= step < strengths.len() ==> strengths[step].part() == 0,
    ensures
        spec_sweep_cell(direction, strengths, highlight, cell, step) == cell,
{
    if cell.visible && 0 <= step < strengths.len() {
        match cell.fg {
            Some(color) => {
                lemma_lerp_zero(color, highlight, strengths[step]);
            },
            None => {},
        }
    }
}

/// The number of the last step of an axis over a grid of the given
/// dimensions.
pub fn axis_last(direction: SweepDirection, width: usize, height: usize) -> (last: u128)
    ensures
        last == spec_axis_last(direction, width as int, height as int),
{
    let w: u128 = if width < 1 {
        1
    } else {
        width as u128
    };
    let h: u128 = if height < 1 {
        1
    } else {
        height as u128
    };
    match direction {
        SweepDirection::Horizontal => w - 1,
        SweepDirection::Vertical => h - 1,
        SweepDirection::DiagonalDown => w + h - 2,
        SweepDirection::DiagonalUp => w + h - 2,
    }
}

/// The step of a cell along an axis.
pub fn axis_t(direction: SweepDirection, row: usize, col: usize, width: usize, height: usize) -> (step:
    i128)
    ensures
        step == spec_axis_step(direction, row as int, col as int, width as int, height as int),
{
    let w: i128 = if width < 1 {
        1
    } else {
        width as i128
    };
    if axis_last(direction, width, height) == 0 {
        0
    } else {
        match direction {
            SweepDirection::Horizontal => col as i128,
            SweepDirection::Vertical => row as i128,
            SweepDirection::DiagonalDown => row as i128 + col as i128,
            SweepDirection::DiagonalUp => row as i128 + (w - 1 - col as i128),
        }
    }
}

/// The colour moved towards white by a factor.
pub fn brighten(color: Color, amount: Ratio) -> (c: Color)
    ensures
        c == spec_lerp(color, Color::Rgb(255, 255, 255), amount),
{
    color.lerp(Color::Rgb(255, 255, 255), amount)
}

struct SweepPainter<'a> {
    direction: SweepDirection,
    strengths: &'a Vec<Ratio>,
    highlight: Color,
}

impl<'a> Painter for SweepPainter<'a> {
    closed spec fn spec_fits(&self, source: Seq<Seq<Cell>>, height: nat, width: nat) -> bool {
        height == source.len() && width == spec_width(source)
    }

    closed spec fn spec_paint(&self, source: Seq<Seq<Cell>>, row: int, col: int) -> Cell {
        spec_sweep_cell(
            self.direction,
            self.strengths@,
            self.highlight,
            source[row][col],
            spec_axis_step(self.direction, row, col, spec_width(source) as int, source.len() as int),
        )
    }

    fn paint(&self, source: &Grid, height: usize, width: usize, row: usize, col: usize) -> (cell:
        Cell) {
        let cell = source.at(row, col);
        if !cell.visible {
            return cell;
        }
        let step = axis_t(self.direction, row, col, width, height);
        if step < 0 || step >= self.strengths.len() as i128 {
            return cell;
        }
        match cell.fg {
            Some(color) => Cell {
                fg: Some(color.lerp(self.highlight, self.strengths[step as usize])),
                ..cell
            },
            None => cell,
        }
    }
}

/// Lays a band of light of the given colour across a grid.
pub fn apply_light_sweep_tint(grid: &mut Grid, profile: &SweepProfile, highlight: Color)
    requires
        old(grid).wf(),
    ensures
        final(grid).wf(),
        final(grid)@ == spec_light_sweep(
            profile.direction,
            profile.strengths@,
            highlight,
            old(grid)@,
        ),
{
    let painter = SweepPainter {
        direction: profile.direction,
        strengths: &profile.strengths,
        highlight,
    };
    let out = painted(&painter, grid, grid.height(), grid.width());
    assert(out@ =~= spec_light_sweep(profile.direction, profile.strengths@, highlight, grid@)) by {
        assert forall|r: int| 0 <= r < grid@.len() implies #[trigger] out@[r] =~= spec_light_sweep(
            profile.direction,
            profile.strengths@,
            highlight,
            grid@,
        )[r] by {
            assert(grid@[r].len() == spec_width(grid@));
        }
    }
    *grid = out;
}

/// Lays a band of white light across a grid.
pub fn apply_light_sweep(grid: &mut Grid, profile: &SweepProfile)
    requires
        old(grid).wf(),
    ensures
        final(grid).wf(),
        final(grid)@ == spec_light_sweep(
            profile.direction,
            profile.strengths@,
            Color::Rgb(255, 255, 255),
            old(grid)@,
        ),
{
    apply_light_sweep_tint(grid, profile, Color::Rgb(255, 255, 255));
}

} // verus!

//! Gradients: a palette laid along an axis of the grid.

use vstd::prelude::*;
use vstd::arithmetic::div_mod::{lemma_fundamental_div_mod, lemma_fundamental_div_mod_converse};
use crate::color::{lemma_mix_zero, mix, spec_mix, spec_unit_part, Color, Palette};
use crate::grid::{spec_width, Cell, Grid};

verus! {

/// The axis a gradient runs along.
#[derive(Clone, Copy, Debug, PartialEq, Eq, Structural)]
pub enum GradientDirection {
    /// Top to bottom.
    Vertical,
    /// Left to right.
    Horizontal,
    /// Top-left to bottom-right.
    Diagonal,
}

/// Colour stops and the axis they are laid along.
#[derive(Clone, Debug)]
pub struct Gradient {
    stops: Vec<Color>,
    direction: GradientDirection,
}

/// The place of a cell along the axis, as the numerator and the denominator
/// of a fraction between zero and one: the row over the last row, the
/// column over the last column, or their sum over the sum of both. Where
/// the axis has a single place the fraction is zero.
pub open spec fn spec_position(
    direction: GradientDirection,
    row: int,
    col: int,
    height: int,
    width: int,
) -> (int, int) {
    let h = if height < 1 {
        1
    } else {
        height
    };
    let w = if width < 1 {
        1
    } else {
        width
    };
    match direction {
        GradientDirection::Vertical => if h <= 1 {
            (0, 1)
        } else {
            (row, h - 1)
        },
        GradientDirection::Horizontal => if w <= 1 {
            (0, 1)
        } else {
            (col, w - 1)
        },
        GradientDirection::Diagonal => if w + h <= 2 {
            (0, 1)
        } else {
            (row + col, w + h - 2)
        },
    }
}

/// The colour of a palette at the fraction `num / den` of its length. The
/// fraction is scaled to the index of the last stop; the whole part picks
/// the left stop, the stop after it (the last one at most) is the right
/// stop, and the remainder interpolates between the two. A palette of one
/// stop has that colour everywhere.
pub open spec fn spec_color_at(stops: Seq<Color>, num: int, den: int) -> Color
    recommends
        stops.len() > 0,
        den >= 1,
{
    if stops.len() == 1 {
        stops[0]
    } else {
        let last = stops.len() - 1;
        let scaled = spec_unit_part(num, den) * last;
        let left = scaled / den;
        let right = if left < last - 1 {
            left + 1
        } else {
            last
        };
        spec_mix(stops[left], stops[right], scaled % den, den)
    }
}

/// A cell under a gradient: a visible cell takes the colour of its place as
/// its foreground; any other cell, and every cell under an empty palette,
/// stays as it is.
pub open spec fn spec_gradient_cell(
    stops: Seq<Color>,
    direction: GradientDirection,
    cell: Cell,
    row: int,
    col: int,
    height: int,
    width: int,
) -> Cell {
    if stops.len() > 0 && cell.visible {
        let p = spec_position(direction, row, col, height, width);
        Cell { fg: Some(spec_color_at(stops, p.0, p.1)), ..cell }
    } else {
        cell
    }
}

/// A grid under a gradient.
pub open spec fn spec_apply_gradient(
    stops: Seq<Color>,
    direction: GradientDirection,
    g: Seq<Seq<Cell>>,
) -> Seq<Seq<Cell>> {
    Seq::new(
        g.len(),
        |r: int|
            Seq::new(
                g[r].len(),
                |c: int|
                    spec_gradient_cell(
                        stops,
                        direction,
                        g[r][c],
                        r,
                        c,
                        g.len() as int,
                        spec_width(g) as int,
                    ),
            ),
    )
}

/// At the start of the axis a palette has its first stop.
pub proof fn lemma_color_at_start(stops: Seq<Color>, den: int)
    requires
        stops.len() > 0,
        den >= 1,
    ensures
        spec_color_at(stops, 0, den) == stops[0],
{
    if stops.len() > 1 {
        let last = stops.len() - 1;
        assert(0 * last == 0) by (nonlinear_arith);
        assert(0int / den == 0 && 0int % den == 0) by (nonlinear_arith)
            requires
                den >= 1,
        ;
        let right = if 0 < last - 1 {
            1
        } else {
            last
        };
        lemma_mix_zero(stops[0], stops[right], 0, den);
    }
}

/// On a grid of a single visible cell, a gradient of any direction gives
/// the cell the first stop of its palette.
pub proof fn lemma_gradient_single_cell(
    stops: Seq<Color>,
    direction: GradientDirection,
    cell: Cell,
)
    requires
        stops.len() > 0,
        cell.visible,
    ensures
        spec_apply_gradient(stops, direction, seq![seq![cell]]) == seq![
            seq![Cell { fg: Some(stops[0]), ..cell }],
        ],
{
    let g = seq![seq![cell]];
    lemma_color_at_start(stops, 1);
    let out = spec_apply_gradient(stops, direction, g);
    assert(spec_position(direction, 0, 0, 1, 1) == (0int, 1int));
    assert(out[0] =~= seq![Cell { fg: Some(stops[0]), ..cell }]);
    assert(out =~= seq![seq![Cell { fg: Some(stops[0]), ..cell }]]);
}

/// The whole part and the remainder of `(a + b) * last / den`.
fn scale_position(a: usize, b: usize, last: usize, den: u128) -> (r: (u128, u128))
    requires
        1 <= den <= 0x2_0000_0000_0000_0000,
        a + b <= den,
    ensures
        r.0 == ((a + b) * last) / (den as int),
        r.1 == ((a + b) * last) % (den as int),
        r.0 <= last,
        r.1 < den,
{
    let x: u128 = a as u128;
    let y: u128 = b as u128;
    let m: u128 = last as u128;
    proof {
        assert(x * m <= 0xffff_ffff_ffff_ffff * 0xffff_ffff_ffff_ffff) by (nonlinear_arith)
            requires
                0 <= x <= 0xffff_ffff_ffff_ffff,
                0 <= m <= 0xffff_ffff_ffff_ffff,
        ;
        assert(y * m <= 0xffff_ffff_ffff_ffff * 0xffff_ffff_ffff_ffff) by (nonlinear_arith)
            requires
                0 <= y <= 0xffff_ffff_ffff_ffff,
                0 <= m <= 0xffff_ffff_ffff_ffff,
        ;
    }
    let xm: u128 = x * m;
    let ym: u128 = y * m;
    let q1: u128 = xm / den;
    let r1: u128 = xm % den;
    let q2: u128 = ym / den;
    let r2: u128 = ym % den;
    proof {
        lemma_fundamental_div_mod(xm as int, den as int);
        lemma_fundamental_div_mod(ym as int, den as int);
        assert(q1 <= xm) by (nonlinear_arith)
            requires
                xm == den * q1 + r1,
                den >= 1,
                r1 >= 0,
                q1 >= 0,
        ;
        assert(q2 <= ym) by (nonlinear_arith)
            requires
                ym == den * q2 + r2,
                den >= 1,
                r2 >= 0,
                q2 >= 0,
        ;
    }
    let ghost total = (a + b) * last;
    proof {
        assert(total == xm + ym) by (nonlinear_arith)
            requires
                total == (a + b) * last,
                xm == x * m,
                ym == y * m,
                x == a,
                y == b,
                m == last,
        ;
        assert(total <= den * m) by (nonlinear_arith)
            requires
                total == (a + b) * last,
                a + b <= den,
                m == last,
                m >= 0,
        ;
        assert(q1 + q2 <= m) by (nonlinear_arith)
            requires
                total == den * q1 + r1 + den * q2 + r2,
                total <= den * m,
                den >= 1,
                r1 >= 0,
                r2 >= 0,
        ;
    }
    assert(r1 < den && r2 < den);
    let sum: u128 = r1 + r2;
    let carry: u128 = if sum >= den {
        1
    } else {
        0
    };
    let whole: u128 = q1 + q2 + carry;
    let rest: u128 = if sum >= den {
        sum - den
    } else {
        sum
    };
    proof {
        assert(total == whole * den + rest) by (nonlinear_arith)
            requires
                total == den * q1 + r1 + den * q2 + r2,
                whole == q1 + q2 + carry,
                rest == r1 + r2 - carry * den,
        ;
        lemma_fundamental_div_mod_converse(total, den as int, whole as int, rest as int);
        assert(whole <= m) by (nonlinear_arith)
            requires
                total == whole * den + rest,
                total <= den * m,
                rest >= 0,
                den >= 1,
        ;
    }
    (whole, rest)
}

/// The colour of a palette at the fraction `(a + b) / den` of its length.
fn color_at(stops: &Vec<Color>, a: usize, b: usize, den: u128) -> (c: Color)
    requires
        stops@.len() > 0,
        1 <= den <= 0x2_0000_0000_0000_0000,
        a + b <= den,
    ensures
        c == spec_color_at(stops@, a + b, den as int),
{
    if stops.len() == 1 {
        return stops[0];
    }
    let last: usize = stops.len() - 1;
    let (whole, rest) = scale_position(a, b, last, den);
    let left: usize = whole as usize;
    let right: usize = if left < last - 1 {
        left + 1
    } else {
        last
    };
    mix(stops[left], stops[right], rest, den)
}

fn copy_colors(colors: &[Color]) -> (out: Vec<Color>)
    ensures
        out@ == colors@,
{
    let mut out: Vec<Color> = Vec::new();
    let mut i: usize = 0;
    while i < colors.len()
        invariant
            i <= colors@.len(),
            out@ == colors@.take(i as int),
        decreases colors@.len() - i,
    {
        out.push(colors[i]);
        i += 1;
        assert(out@ =~= colors@.take(i as int));
    }
    assert(colors@.take(colors@.len() as int) =~= colors@);
    out
}

impl Gradient {
    /// The colour stops, in order.
    pub closed spec fn spec_stops(&self) -> Seq<Color> {
        self.stops@
    }

    /// The axis.
    pub closed spec fn spec_direction(&self) -> GradientDirection {
        self.direction
    }

    /// A gradient of the given stops along the given axis.
    pub fn new(stops: Vec<Color>, direction: GradientDirection) -> (g: Gradient)
        ensures
            g.spec_stops() == stops@,
            g.spec_direction() == direction,
    {
        Gradient { stops, direction }
    }

    /// A gradient from top to bottom.
    pub fn vertical(palette: Palette) -> (g: Gradient)
        ensures
            g.spec_stops() == palette@,
            g.spec_direction() == GradientDirection::Vertical,
    {
        Gradient::new(copy_colors(palette.colors()), GradientDirection::Vertical)
    }

    /// A gradient from left to right.
    pub fn horizontal(palette: Palette) -> (g: Gradient)
        ensures
            g.spec_stops() == palette@,
            g.spec_direction() == GradientDirection::Horizontal,
    {
        Gradient::new(copy_colors(palette.colors()), GradientDirection::Horizontal)
    }

    /// A gradient from the top-left corner to the bottom-right corner.
    pub fn diagonal(palette: Palette) -> (g: Gradient)
        ensures
            g.spec_stops() == palette@,
            g.spec_direction() == GradientDirection::Diagonal,
    {
        Gradient::new(copy_colors(palette.colors()), GradientDirection::Diagonal)
    }

    /// A copy of the gradient.
    pub fn duplicate(&self) -> (g: Gradient)
        ensures
            g.spec_stops() == self.spec_stops(),
            g.spec_direction() == self.spec_direction(),
    {
        Gradient { stops: copy_colors(self.stops.as_slice()), direction: self.direction }
    }

    /// The colour of the cell at (`row`, `col`) of a grid of the given
    /// dimensions.
    fn color_of(&self, row: usize, col: usize, height: usize, width: usize) -> (c: Color)
        requires
            self.spec_stops().len() > 0,
            row < height,
            col < width,
        ensures
            c == spec_color_at(
                self.spec_stops(),
                spec_position(self.spec_direction(), row as int, col as int, height as int, width as int).0,
                spec_position(self.spec_direction(), row as int, col as int, height as int, width as int).1,
            ),
    {
        match self.direction {
            GradientDirection::Vertical => {
                if height <= 1 {
                    color_at(&self.stops, 0, 0, 1)
                } else {
                    color_at(&self.stops, row, 0, (height - 1) as u128)
                }
            },
            GradientDirection::Horizontal => {
                if width <= 1 {
                    color_at(&self.stops, 0, 0, 1)
                } else {
                    color_at(&self.stops, 0, col, (width - 1) as u128)
                }
            },
            GradientDirection::Diagonal => {
                let den: u128 = width as u128 + height as u128;
                if den <= 2 {
                    color_at(&self.stops, 0, 0, 1)
                } else {
                    color_at(&self.stops, row, col, den - 2)
                }
            },
        }
    }

    /// Colours the visible cells of a grid along the axis. An empty palette
    /// leaves the grid as it is.
    pub fn apply(&self, grid: &mut Grid)
        requires
            old(grid).wf(),
        ensures
            final(grid).wf(),
            final(grid)@ == spec_apply_gradient(
                self.spec_stops(),
                self.spec_direction(),
                old(grid)@,
            ),
    {
        let ghost goal = spec_apply_gradient(self.spec_stops(), self.spec_direction(), grid@);
        if self.stops.len() == 0 {
            assert(grid@ =~= goal) by {
                assert forall|r: int| 0 <= r < grid@.len() implies #[trigger] grid@[r] =~= goal[r] by {}
            }
            return ;
        }
        let height = grid.height();
        let width = grid.width();
        let mut cells: Vec<Vec<Cell>> = Vec::new();
        let mut r: usize = 0;
        while r < height
            invariant
                r <= height,
                grid.wf(),
                grid@ == old(grid)@,
                height == grid@.len(),
                width == spec_width(grid@),
                self.spec_stops().len() > 0,
                goal == spec_apply_gradient(self.spec_stops(), self.spec_direction(), grid@),
                cells@.len() == r,
                forall|k: int| 0 <= k < r ==> (#[trigger] cells@[k])@ == goal[k],
            decreases height - r,
        {
            let mut row: Vec<Cell> = Vec::new();
            let mut c: usize = 0;
            assert(grid@[r as int].len() == width);
            while c < width
                invariant
                    c <= width,
                    r < height,
                    grid.wf(),
                    height == grid@.len(),
                    width == spec_width(grid@),
                    grid@[r as int].len() == width,
                    self.spec_stops().len() > 0,
                    goal == spec_apply_gradient(self.spec_stops(), self.spec_direction(), grid@),
                    row@.len() == c,
                    forall|k: int| 0 <= k < c ==> #[trigger] row@[k] == goal[r as int][k],
                decreases width - c,
            {
                let cell = grid.at(r, c);
                let colored = if cell.visible {
                    Cell { fg: Some(self.color_of(r, c, height, width)), ..cell }
                } else {
                    cell
                };
                row.push(colored);
                c += 1;
            }
            assert(row@ =~= goal[r as int]);
            cells.push(row);
            r += 1;
        }
        *grid = Grid::from_cells(cells);
        assert(grid@ =~= goal);
        assert(grid.wf()) by {
            assert forall|k: int| 0 <= k < grid@.len() implies (#[trigger] grid@[k]).len()
                == spec_width(grid@) by {
                assert(old(grid)@[k].len() == width);
                assert(old(grid)@[0].len() == width);
            }
        }
    }
}

} // verus!

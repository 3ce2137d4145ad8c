//! Fills and dither patterns.

use vstd::prelude::*;
use crate::grid::{painted, spec_width, Cell, Grid, Painter};
use crate::text::to_chars;

verus! {

/// What the visible cells of a grid are drawn with.
#[derive(Clone, Copy, Debug)]
pub enum Fill {
    /// One character for every visible cell.
    Solid(char),
    /// `#` for every visible cell.
    Blocks,
    /// The characters of the glyphs.
    Keep,
    /// A block character, with an optional dither pattern over it.
    Pixel {
        /// The block character.
        block: char,
        /// The dither pattern.
        dither: Option<Dither>,
    },
}

/// A dither pattern and its two dot characters.
#[derive(Clone, Copy, Debug)]
pub struct Dither {
    /// Which cells are dithered.
    pub mode: DitherMode,
    /// The dot for cells whose row and column have an even sum.
    pub dot: char,
    /// The dot for cells whose row and column have an odd sum.
    pub alt: char,
}

/// The rule that decides which cells are dithered.
#[derive(Clone, Copy, Debug)]
pub enum DitherMode {
    /// The cells whose row and column sum to a multiple of the period.
    Checker {
        /// The period; zero dithers nothing.
        period: u8,
    },
    /// The cells whose hash lies under the threshold.
    Noise {
        /// The seed of the hash.
        seed: u32,
        /// The threshold, out of 256.
        threshold: u8,
    },
}

/// The product of two 32-bit numbers, reduced to 32 bits.
pub open spec fn spec_mul32(x: u32, y: u32) -> u32 {
    ((x as nat * y as nat) % 0x1_0000_0000) as u32
}

/// The 32-bit hash of a seed and two coordinates: the seed is combined
/// with the coordinates, each multiplied by an odd constant, and the result
/// is mixed by three rounds of shift, exclusive or and multiplication.
pub open spec fn spec_hash(seed: u32, x: u32, y: u32) -> u32 {
    let v0 = seed ^ spec_mul32(x, 0x9E3779B1) ^ spec_mul32(y, 0x85EBCA77);
    let v1 = v0 ^ (v0 >> 16);
    let v2 = spec_mul32(v1, 0x7FEB352D);
    let v3 = v2 ^ (v2 >> 15);
    let v4 = spec_mul32(v3, 0x846CA68B);
    v4 ^ (v4 >> 16)
}

/// A coordinate reduced to 32 bits.
pub open spec fn spec_low32(n: int) -> u32 {
    (n % 0x1_0000_0000) as u32
}

/// Whether the cell at (`row`, `col`) is dithered. Under a checker pattern
/// it is where the sum of row and column is a multiple of the period, and
/// never where the period is zero; under a noise pattern it is where the
/// low byte of the hash of seed, row and column lies under the threshold.
pub open spec fn spec_should_dither(row: int, col: int, mode: DitherMode) -> bool {
    match mode {
        DitherMode::Checker { period } => period != 0 && (row + col) % (period as int) == 0,
        DitherMode::Noise { seed, threshold } => (spec_hash(seed, spec_low32(row), spec_low32(col))
            & 0xFF) < threshold as u32,
    }
}

/// The dot that a dithered cell is drawn with.
pub open spec fn spec_dither_char(dither: Dither, row: int, col: int) -> char {
    if (row + col) % 2 == 0 {
        dither.dot
    } else {
        dither.alt
    }
}

/// The two dots that a text names: its first character, or a middle dot
/// where it is empty, and its second character, or the first dot again
/// where it has none.
pub open spec fn spec_parse_dots(dots: Seq<char>) -> (char, char) {
    let first = if dots.len() > 0 {
        dots[0]
    } else {
        '·'
    };
    let second = if dots.len() > 1 {
        dots[1]
    } else {
        first
    };
    (first, second)
}

/// A cell under a fill. A cell that is not visible stays as it is.
pub open spec fn spec_fill_cell(fill: Fill, cell: Cell, row: int, col: int) -> Cell {
    if !cell.visible {
        cell
    } else {
        match fill {
            Fill::Solid(ch) => Cell { ch, ..cell },
            Fill::Blocks => Cell { ch: '#', ..cell },
            Fill::Keep => cell,
            Fill::Pixel { block, dither } => match dither {
                Some(d) => if spec_should_dither(row, col, d.mode) {
                    Cell { ch: spec_dither_char(d, row, col), ..cell }
                } else {
                    Cell { ch: block, ..cell }
                },
                None => Cell { ch: block, ..cell },
            },
        }
    }
}

/// A grid under a fill.
pub open spec fn spec_apply_fill(fill: Fill, g: Seq<Seq<Cell>>) -> Seq<Seq<Cell>> {
    Seq::new(g.len(), |r: int| Seq::new(g[r].len(), |c: int| spec_fill_cell(fill, g[r][c], r, c)))
}

/// The 32-bit hash of a seed and two coordinates.
pub fn mix(seed: u32, x: u32, y: u32) -> (h: u32)
    ensures
        h == spec_hash(seed, x, y),
{
    let mut v: u32 = seed ^ x.wrapping_mul(0x9E3779B1) ^ y.wrapping_mul(0x85EBCA77);
    v = v ^ (v >> 16);
    v = v.wrapping_mul(0x7FEB352D);
    v = v ^ (v >> 15);
    v = v.wrapping_mul(0x846CA68B);
    v = v ^ (v >> 16);
    v
}

/// Whether the cell at (`row`, `col`) is dithered. The answer depends on
/// the position and the mode alone.
pub fn should_dither(row: usize, col: usize, mode: DitherMode) -> (b: bool)
    ensures
        b == spec_should_dither(row as int, col as int, mode),
{
    match mode {
        DitherMode::Checker { period } => {
            if period == 0 {
                false
            } else {
                (row as u128 + col as u128) % (period as u128) == 0
            }
        },
        DitherMode::Noise { seed, threshold } => {
            let x: u32 = (row as u128 % 0x1_0000_0000) as u32;
            let y: u32 = (col as u128 % 0x1_0000_0000) as u32;
            let hash = mix(seed, x, y);
            (hash & 0xFF) < threshold as u32
        },
    }
}

/// The dot that a dithered cell is drawn with.
pub fn dither_char(dither: Dither, row: usize, col: usize) -> (ch: char)
    ensures
        ch == spec_dither_char(dither, row as int, col as int),
{
    if (row as u128 + col as u128) % 2 == 0 {
        dither.dot
    } else {
        dither.alt
    }
}

/// The two dots that a text names.
pub fn parse_dots(dots: &str) -> (pair: (char, char))
    ensures
        pair == spec_parse_dots(dots@),
{
    let chars = to_chars(dots);
    let first = if chars.len() > 0 {
        chars[0]
    } else {
        '·'
    };
    let second = if chars.len() > 1 {
        chars[1]
    } else {
        first
    };
    (first, second)
}

impl Dither {
    /// A checker pattern with the dots that `dots` names.
    pub fn checker(period: u8, dots: &str) -> (d: Dither)
        ensures
            d.mode == (DitherMode::Checker { period }),
            (d.dot, d.alt) == spec_parse_dots(dots@),
    {
        let (dot, alt) = parse_dots(dots);
        Dither { mode: DitherMode::Checker { period }, dot, alt }
    }

    /// A noise pattern with the dots that `dots` names.
    pub fn noise(seed: u32, threshold: u8, dots: &str) -> (d: Dither)
        ensures
            d.mode == (DitherMode::Noise { seed, threshold }),
            (d.dot, d.alt) == spec_parse_dots(dots@),
    {
        let (dot, alt) = parse_dots(dots);
        Dither { mode: DitherMode::Noise { seed, threshold }, dot, alt }
    }
}

impl Fill {
    /// The fill with `#`.
    pub fn default_blocks() -> (f: Fill)
        ensures
            f == Fill::Blocks,
    {
        Fill::Blocks
    }

    /// The fill with a block character, without dither.
    pub fn pixel(block: char) -> (f: Fill)
        ensures
            f == (Fill::Pixel { block, dither: None }),
    {
        Fill::Pixel { block, dither: None }
    }

    /// The fill with a block character under a dither pattern.
    pub fn pixel_with_dither(block: char, dither: Dither) -> (f: Fill)
        ensures
            f == (Fill::Pixel { block, dither: Some(dither) }),
    {
        Fill::Pixel { block, dither: Some(dither) }
    }
}

struct FillPainter {
    fill: Fill,
}

impl Painter for FillPainter {
    closed spec fn spec_fits(&self, source: Seq<Seq<Cell>>, height: nat, width: nat) -> bool {
        height == source.len() && width == spec_width(source)
    }

    closed spec fn spec_paint(&self, source: Seq<Seq<Cell>>, row: int, col: int) -> Cell {
        spec_fill_cell(self.fill, source[row][col], row, col)
    }

    fn paint(&self, source: &Grid, height: usize, width: usize, row: usize, col: usize) -> (cell:
        Cell) {
        let cell = source.at(row, col);
        if !cell.visible {
            return cell;
        }
        match self.fill {
            Fill::Solid(ch) => Cell { ch, ..cell },
            Fill::Blocks => Cell { ch: '#', ..cell },
            Fill::Keep => cell,
            Fill::Pixel { block, dither } => match dither {
                Some(d) => if should_dither(row, col, d.mode) {
                    Cell { ch: dither_char(d, row, col), ..cell }
                } else {
                    Cell { ch: block, ..cell }
                },
                None => Cell { ch: block, ..cell },
            },
        }
    }
}

/// Draws the visible cells of a grid with a fill.
pub fn apply_fill(grid: &mut Grid, fill: Fill)
    requires
        old(grid).wf(),
    ensures
        final(grid).wf(),
        final(grid)@ == spec_apply_fill(fill, old(grid)@),
{
    let painter = FillPainter { fill };
    let out = painted(&painter, grid, grid.height(), grid.width());
    assert(out@ =~= spec_apply_fill(fill, grid@)) by {
        assert forall|r: int| 0 <= r < grid@.len() implies #[trigger] out@[r] =~= spec_apply_fill(
            fill,
            grid@,
        )[r] by {
            assert(grid@[r].len() == spec_width(grid@));
        }
    }
    *grid = out;
}

} // verus!

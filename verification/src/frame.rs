//! Frames: a border of one cell around a grid.

use vstd::prelude::*;
use crate::color::Color;
use crate::gradient::{spec_apply_gradient, Gradient, GradientDirection};
use crate::grid::{painted, spec_blit, spec_width, Cell, Grid, Painter};
use crate::layout::spec_capped_sum;

verus! {

/// The built-in borders.
#[derive(Clone, Copy, Debug, PartialEq, Eq, Structural)]
pub enum FrameStyle {
    /// Single lines.
    Single,
    /// Double lines.
    Double,
    /// Single lines with rounded corners.
    Rounded,
    /// Heavy lines.
    Heavy,
    /// Plus, minus and bar.
    Ascii,
}

/// The characters of a border.
#[derive(Clone, Copy, Debug, PartialEq, Eq, Structural)]
pub struct FrameChars {
    /// Top-left corner.
    pub top_left: char,
    /// Top-right corner.
    pub top_right: char,
    /// Bottom-left corner.
    pub bottom_left: char,
    /// Bottom-right corner.
    pub bottom_right: char,
    /// Horizontal line.
    pub horizontal: char,
    /// Vertical line.
    pub vertical: char,
}

/// How a border is coloured.
#[derive(Clone, Debug)]
pub enum FramePaint {
    /// One colour for the whole border.
    Solid(Color),
    /// A gradient over the bounds of the frame.
    Gradient(Gradient),
}

/// A border and its colouring.
#[derive(Clone, Debug)]
pub struct Frame {
    chars: FrameChars,
    paint: Option<FramePaint>,
}

/// How a border is coloured, as plain values.
pub ghost enum PaintModel {
    /// No colour.
    Plain,
    /// One colour for the whole border.
    Solid(Color),
    /// A gradient of these stops along this axis.
    Gradient(Seq<Color>, GradientDirection),
}

/// The characters of a built-in border.
pub open spec fn spec_style_chars(style: FrameStyle) -> FrameChars {
    match style {
        FrameStyle::Single => FrameChars {
            top_left: '┌',
            top_right: '┐',
            bottom_left: '└',
            bottom_right: '┘',
            horizontal: '─',
            vertical: '│',
        },
        FrameStyle::Double => FrameChars {
            top_left: '╔',
            top_right: '╗',
            bottom_left: '╚',
            bottom_right: '╝',
            horizontal: '═',
            vertical: '║',
        },
        FrameStyle::Rounded => FrameChars {
            top_left: '╭',
            top_right: '╮',
            bottom_left: '╰',
            bottom_right: '╯',
            horizontal: '─',
            vertical: '│',
        },
        FrameStyle::Heavy => FrameChars {
            top_left: '┏',
            top_right: '┓',
            bottom_left: '┗',
            bottom_right: '┛',
            horizontal: '━',
            vertical: '┃',
        },
        FrameStyle::Ascii => FrameChars {
            top_left: '+',
            top_right: '+',
            bottom_left: '+',
            bottom_right: '+',
            horizontal: '-',
            vertical: '|',
        },
    }
}

/// The character at (`row`, `col`) of the border of a grid of the given
/// dimensions; a space inside the border.
pub open spec fn spec_border_char(chars: FrameChars, row: int, col: int, height: int, width: int) -> char {
    if row == 0 && col == 0 {
        chars.top_left
    } else if row == 0 && col == width - 1 {
        chars.top_right
    } else if row == height - 1 && col == 0 {
        chars.bottom_left
    } else if row == height - 1 && col == width - 1 {
        chars.bottom_right
    } else if row == 0 || row == height - 1 {
        chars.horizontal
    } else if col == 0 || col == width - 1 {
        chars.vertical
    } else {
        ' '
    }
}

/// The cell that holds a character of the border: visible unless the
/// character is a space, without colours.
pub open spec fn spec_border_cell(ch: char) -> Cell {
    Cell { ch, fg: None, bg: None, visible: ch != ' ' }
}

/// The empty frame of the given dimensions: the border around blank cells.
pub open spec fn spec_border(chars: FrameChars, height: nat, width: nat) -> Seq<Seq<Cell>> {
    Seq::new(
        height,
        |r: int|
            Seq::new(
                width,
                |c: int| spec_border_cell(spec_border_char(chars, r, c, height as int, width as int)),
            ),
    )
}

/// A grid whose visible cells have the given foreground.
pub open spec fn spec_solid_color(g: Seq<Seq<Cell>>, color: Color) -> Seq<Seq<Cell>> {
    Seq::new(
        g.len(),
        |r: int|
            Seq::new(
                g[r].len(),
                |c: int|
                    if g[r][c].visible {
                        Cell { fg: Some(color), ..g[r][c] }
                    } else {
                        g[r][c]
                    },
            ),
    )
}

/// The empty frame after colouring.
pub open spec fn spec_painted_border(border: Seq<Seq<Cell>>, paint: PaintModel) -> Seq<Seq<Cell>> {
    match paint {
        PaintModel::Plain => border,
        PaintModel::Solid(color) => spec_solid_color(border, color),
        PaintModel::Gradient(stops, direction) => spec_apply_gradient(stops, direction, border),
    }
}

/// A grid inside a frame: the border is drawn on a grid that is two rows
/// higher and two columns wider, it is coloured, and the visible cells of
/// the grid are set inside it, one cell from the top and from the left.
pub open spec fn spec_frame(g: Seq<Seq<Cell>>, chars: FrameChars, paint: PaintModel) -> Seq<
    Seq<Cell>,
> {
    spec_blit(
        spec_painted_border(
            spec_border(chars, spec_capped_sum(g.len(), 2), spec_capped_sum(spec_width(g), 2)),
            paint,
        ),
        g,
        1,
        1,
    )
}

impl FrameStyle {
    /// The characters of the border.
    pub fn chars(self) -> (c: FrameChars)
        ensures
            c == spec_style_chars(self),
    {
        match self {
            FrameStyle::Single => FrameChars::new('┌', '┐', '└', '┘', '─', '│'),
            FrameStyle::Double => FrameChars::new('╔', '╗', '╚', '╝', '═', '║'),
            FrameStyle::Rounded => FrameChars::new('╭', '╮', '╰', '╯', '─', '│'),
            FrameStyle::Heavy => FrameChars::new('┏', '┓', '┗', '┛', '━', '┃'),
            FrameStyle::Ascii => FrameChars::new('+', '+', '+', '+', '-', '|'),
        }
    }
}

impl FrameChars {
    /// The border with the given characters.
    pub fn new(
        top_left: char,
        top_right: char,
        bottom_left: char,
        bottom_right: char,
        horizontal: char,
        vertical: char,
    ) -> (c: FrameChars)
        ensures
            c == (FrameChars {
                top_left,
                top_right,
                bottom_left,
                bottom_right,
                horizontal,
                vertical,
            }),
    {
        FrameChars { top_left, top_right, bottom_left, bottom_right, horizontal, vertical }
    }
}

impl FramePaint {
    /// The colouring as plain values.
    pub open spec fn model(&self) -> PaintModel {
        match self {
            FramePaint::Solid(color) => PaintModel::Solid(*color),
            FramePaint::Gradient(gradient) => PaintModel::Gradient(
                gradient.spec_stops(),
                gradient.spec_direction(),
            ),
        }
    }
}

impl Frame {
    /// The characters of the border.
    pub closed spec fn spec_chars(&self) -> FrameChars {
        self.chars
    }

    /// The colouring of the border.
    pub closed spec fn spec_paint(&self) -> PaintModel {
        match self.paint {
            Some(paint) => paint.model(),
            None => PaintModel::Plain,
        }
    }

    /// A frame with a built-in border, without colour.
    pub fn new(style: FrameStyle) -> (f: Frame)
        ensures
            f.spec_chars() == spec_style_chars(style),
            f.spec_paint() == PaintModel::Plain,
    {
        Frame { chars: style.chars(), paint: None }
    }

    /// A frame with the given border, without colour.
    pub fn custom(chars: FrameChars) -> (f: Frame)
        ensures
            f.spec_chars() == chars,
            f.spec_paint() == PaintModel::Plain,
    {
        Frame { chars, paint: None }
    }

    /// The frame in one colour.
    pub fn color(self, color: Color) -> (f: Frame)
        ensures
            f.spec_chars() == self.spec_chars(),
            f.spec_paint() == PaintModel::Solid(color),
    {
        Frame { chars: self.chars, paint: Some(FramePaint::Solid(color)) }
    }

    /// The frame under a gradient.
    pub fn gradient(self, gradient: Gradient) -> (f: Frame)
        ensures
            f.spec_chars() == self.spec_chars(),
            f.spec_paint() == PaintModel::Gradient(gradient.spec_stops(), gradient.spec_direction()),
    {
        Frame { chars: self.chars, paint: Some(FramePaint::Gradient(gradient)) }
    }

    /// The characters of the border.
    pub fn chars(&self) -> (c: FrameChars)
        ensures
            c == self.spec_chars(),
    {
        self.chars
    }

    /// The colouring of the border, if it has one.
    pub fn paint(&self) -> (p: Option<&FramePaint>)
        ensures
            match p {
                Some(paint) => self.spec_paint() == paint.model(),
                None => self.spec_paint() == PaintModel::Plain,
            },
    {
        self.paint.as_ref()
    }

    /// A copy of the frame.
    pub fn duplicate(&self) -> (f: Frame)
        ensures
            f.spec_chars() == self.spec_chars(),
            f.spec_paint() == self.spec_paint(),
    {
        let paint = match &self.paint {
            Some(FramePaint::Solid(color)) => Some(FramePaint::Solid(*color)),
            Some(FramePaint::Gradient(gradient)) => Some(FramePaint::Gradient(gradient.duplicate())),
            None => None,
        };
        Frame { chars: self.chars, paint }
    }
}

struct BorderPainter {
    chars: FrameChars,
}

impl Painter for BorderPainter {
    closed spec fn spec_fits(&self, source: Seq<Seq<Cell>>, height: nat, width: nat) -> bool {
        true
    }

    closed spec fn spec_paint(&self, source: Seq<Seq<Cell>>, row: int, col: int) -> Cell {
        spec_border_cell(
            spec_border_char(
                self.chars,
                row,
                col,
                spec_capped_sum(source.len(), 2) as int,
                spec_capped_sum(spec_width(source), 2) as int,
            ),
        )
    }

    fn paint(&self, source: &Grid, height: usize, width: usize, row: usize, col: usize) -> (cell:
        Cell) {
        let h = capped_plus_two(source.height());
        let w = capped_plus_two(source.width());
        let ch = if row == 0 && col == 0 {
            self.chars.top_left
        } else if row == 0 && col == w - 1 {
            self.chars.top_right
        } else if row == h - 1 && col == 0 {
            self.chars.bottom_left
        } else if row == h - 1 && col == w - 1 {
            self.chars.bottom_right
        } else if row == 0 || row == h - 1 {
            self.chars.horizontal
        } else if col == 0 || col == w - 1 {
            self.chars.vertical
        } else {
            ' '
        };
        Cell { ch, fg: None, bg: None, visible: ch != ' ' }
    }
}

struct SolidPainter {
    color: Color,
}

impl Painter for SolidPainter {
    closed spec fn spec_fits(&self, source: Seq<Seq<Cell>>, height: nat, width: nat) -> bool {
        height == source.len() && width == spec_width(source)
    }

    closed spec fn spec_paint(&self, source: Seq<Seq<Cell>>, row: int, col: int) -> Cell {
        if source[row][col].visible {
            Cell { fg: Some(self.color), ..source[row][col] }
        } else {
            source[row][col]
        }
    }

    fn paint(&self, source: &Grid, height: usize, width: usize, row: usize, col: usize) -> (cell:
        Cell) {
        let cell = source.at(row, col);
        if cell.visible {
            Cell { fg: Some(self.color), ..cell }
        } else {
            cell
        }
    }
}

fn capped_plus_two(n: usize) -> (m: usize)
    ensures
        m == spec_capped_sum(n as nat, 2),
        m >= 2,
{
    if n > usize::MAX - 2 {
        usize::MAX
    } else {
        n + 2
    }
}

/// Gives every visible cell of a grid one foreground colour.
pub fn apply_solid_color(grid: &mut Grid, color: Color)
    requires
        old(grid).wf(),
    ensures
        final(grid).wf(),
        final(grid)@ == spec_solid_color(old(grid)@, color),
{
    let painter = SolidPainter { color };
    let out = painted(&painter, grid, grid.height(), grid.width());
    assert(out@ =~= spec_solid_color(grid@, color)) by {
        assert forall|r: int| 0 <= r < grid@.len() implies #[trigger] out@[r] =~= spec_solid_color(
            grid@,
            color,
        )[r] by {
            assert(grid@[r].len() == spec_width(grid@));
        }
    }
    *grid = out;
}

/// Sets a grid inside a frame.
pub fn apply_frame(grid: Grid, frame: &Frame) -> (framed: Grid)
    requires
        grid.wf(),
    ensures
        framed.wf(),
        framed@ == spec_frame(grid@, frame.spec_chars(), frame.spec_paint()),
{
    let height = capped_plus_two(grid.height());
    let width = capped_plus_two(grid.width());
    let painter = BorderPainter { chars: frame.chars() };
    let mut framed = painted(&painter, &grid, height, width);
    assert(framed@ =~= spec_border(frame.spec_chars(), height as nat, width as nat)) by {
        assert forall|r: int| 0 <= r < framed@.len() implies #[trigger] framed@[r] =~= spec_border(
            frame.spec_chars(),
            height as nat,
            width as nat,
        )[r] by {}
    }
    match frame.paint() {
        Some(FramePaint::Solid(color)) => {
            apply_solid_color(&mut framed, *color);
        },
        Some(FramePaint::Gradient(gradient)) => {
            gradient.apply(&mut framed);
        },
        None => {},
    }
    framed.blit(&grid, 1, 1);
    framed
}

} // verus!

//! The grid of cells that every stage of the pipeline reads and writes.

use vstd::prelude::*;
use crate::color::Color;
use crate::text::spec_rows;

verus! {

/// One character position of the grid.
#[derive(Clone, Copy, Debug)]
pub struct Cell {
    /// Character drawn at this position.
    pub ch: char,
    /// Foreground colour.
    pub fg: Option<Color>,
    /// Background colour.
    pub bg: Option<Color>,
    /// Whether the cell holds ink; a cell without ink is drawn as a blank.
    pub visible: bool,
}

/// A rectangular, row-major matrix of cells.
#[derive(Clone, Debug)]
pub struct Grid {
    cells: Vec<Vec<Cell>>,
}

/// Horizontal alignment.
#[derive(Clone, Copy, Debug, PartialEq, Eq, Structural)]
pub enum Align {
    /// Align to the left.
    Left,
    /// Centre.
    Center,
    /// Align to the right.
    Right,
}

/// Blank cells added around a grid.
#[derive(Clone, Copy, Debug)]
pub struct Padding {
    /// Rows above.
    pub top: usize,
    /// Rows below.
    pub bottom: usize,
    /// Columns on the left.
    pub left: usize,
    /// Columns on the right.
    pub right: usize,
}

/// The cell without ink: a space, no colours, not visible.
pub open spec fn spec_blank() -> Cell {
    Cell { ch: ' ', fg: None, bg: None, visible: false }
}

/// The cell that a character of a glyph row becomes: visible unless it is a space.
pub open spec fn spec_cell_of(ch: char) -> Cell {
    Cell { ch, fg: None, bg: None, visible: ch != ' ' }
}

/// A grid of `height` rows and `width` columns of blank cells.
pub open spec fn spec_blank_grid(height: nat, width: nat) -> Seq<Seq<Cell>> {
    Seq::new(height, |r: int| Seq::new(width, |c: int| spec_blank()))
}

/// The width of a matrix: the length of its first row, zero without rows.
pub open spec fn spec_width(g: Seq<Seq<Cell>>) -> nat {
    if g.len() == 0 {
        0
    } else {
        g[0].len()
    }
}

/// All rows have the same length.
pub open spec fn spec_rect(g: Seq<Seq<Cell>>) -> bool {
    forall|r: int| 0 <= r < g.len() ==> (#[trigger] g[r]).len() == spec_width(g)
}

/// Whether a row holds a visible cell.
pub open spec fn spec_row_has_visible(row: Seq<Cell>) -> bool {
    exists|c: int| 0 <= c < row.len() && (#[trigger] row[c]).visible
}

/// The length of the longest row, zero without rows.
pub open spec fn spec_max_len(rows: Seq<Seq<char>>) -> nat
    decreases rows.len(),
{
    if rows.len() == 0 {
        0
    } else {
        let rest = spec_max_len(rows.drop_last());
        if rows.last().len() > rest {
            rows.last().len()
        } else {
            rest
        }
    }
}

/// A row of characters as cells, padded on the right with blanks to `width`.
pub open spec fn spec_padded_row(row: Seq<char>, width: nat) -> Seq<Cell> {
    Seq::new(
        width,
        |c: int|
            if c < row.len() {
                spec_cell_of(row[c])
            } else {
                spec_blank()
            },
    )
}

/// The grid that rows of characters become: as wide as the longest row.
pub open spec fn spec_from_char_rows(rows: Seq<Seq<char>>) -> Seq<Seq<Cell>> {
    Seq::new(rows.len(), |r: int| spec_padded_row(rows[r], spec_max_len(rows)))
}

/// No row is longer than the longest row.
pub proof fn lemma_max_len_bounds(rows: Seq<Seq<char>>, i: int)
    requires
        0 <= i < rows.len(),
    ensures
        rows[i].len() <= spec_max_len(rows),
    decreases rows.len(),
{
    if i < rows.len() - 1 {
        lemma_max_len_bounds(rows.drop_last(), i);
    }
}

/// The shape of a grid made from rows of characters: it has as many rows
/// as were given, every row is as wide as the longest of them, and every
/// cell holds its character, or a space past the end of its row, without
/// colours, and is visible exactly where its character is not a space.
pub proof fn lemma_from_char_rows_shape(rows: Seq<Seq<char>>)
    ensures
        spec_from_char_rows(rows).len() == rows.len(),
        spec_rect(spec_from_char_rows(rows)),
        rows.len() > 0 ==> spec_width(spec_from_char_rows(rows)) == spec_max_len(rows),
        forall|r: int, c: int|
            0 <= r < rows.len() && 0 <= c < spec_max_len(rows) ==> {
                let cell = #[trigger] spec_from_char_rows(rows)[r][c];
                &&& cell.ch == (if c < rows[r].len() {
                    rows[r][c]
                } else {
                    ' '
                })
                &&& cell.visible == (cell.ch != ' ')
                &&& cell.fg is None
                &&& cell.bg is None
            },
{
    let g = spec_from_char_rows(rows);
    assert forall|r: int| 0 <= r < g.len() implies (#[trigger] g[r]).len() == spec_width(g) by {
        assert(g[r].len() == spec_max_len(rows));
        assert(g[0].len() == spec_max_len(rows));
    }
}

/// `base` with the visible cells of `other` copied over it, the top-left
/// corner of `other` at row `top` and column `left`; what falls outside
/// `base` is dropped.
pub open spec fn spec_blit(
    base: Seq<Seq<Cell>>,
    other: Seq<Seq<Cell>>,
    top: nat,
    left: nat,
) -> Seq<Seq<Cell>> {
    Seq::new(
        base.len(),
        |r: int|
            Seq::new(
                base[r].len(),
                |c: int|
                    if spec_blit_hits(other, top, left, r, c) {
                        other[r - top][c - left]
                    } else {
                        base[r][c]
                    },
            ),
    )
}

/// Whether position (`r`, `c`) of the target lies under a visible cell of
/// `other` placed at (`top`, `left`).
pub open spec fn spec_blit_hits(other: Seq<Seq<Cell>>, top: nat, left: nat, r: int, c: int) -> bool {
    &&& top <= r < top + other.len()
    &&& left <= c < left + other[r - top].len()
    &&& other[r - top][c - left].visible
}

/// The first row at or after `from` that holds a visible cell; the number
/// of rows where there is none.
pub open spec fn spec_first_ink_row(g: Seq<Seq<Cell>>, from: int) -> int
    decreases g.len() - from,
{
    if from < 0 || from >= g.len() {
        g.len() as int
    } else if spec_row_has_visible(g[from]) {
        from
    } else {
        spec_first_ink_row(g, from + 1)
    }
}

/// One past the last row before `to` that holds a visible cell; zero where
/// there is none.
pub open spec fn spec_last_ink_end(g: Seq<Seq<Cell>>, to: int) -> int
    decreases to,
{
    if to <= 0 || to > g.len() {
        0
    } else if spec_row_has_visible(g[to - 1]) {
        to
    } else {
        spec_last_ink_end(g, to - 1)
    }
}

/// The grid without its blank rows at the top and at the bottom. A grid
/// without ink loses all its rows.
pub open spec fn spec_trim_vertical(g: Seq<Seq<Cell>>) -> Seq<Seq<Cell>> {
    let top = spec_first_ink_row(g, 0);
    let bottom = spec_last_ink_end(g, g.len() as int);
    if top >= bottom {
        Seq::empty()
    } else {
        g.subrange(top, bottom)
    }
}

/// The end of the ink lies between zero and `to`.
pub proof fn lemma_last_ink_end_range(g: Seq<Seq<Cell>>, to: int)
    requires
        0 <= to <= g.len(),
    ensures
        0 <= spec_last_ink_end(g, to) <= to,
    decreases to,
{
    if to > 0 && !spec_row_has_visible(g[to - 1]) {
        lemma_last_ink_end_range(g, to - 1);
    }
}

impl View for Grid {
    type V = Seq<Seq<Cell>>;

    closed spec fn view(&self) -> Seq<Seq<Cell>> {
        Seq::new(self.cells@.len(), |r: int| self.cells@[r]@)
    }
}

fn blank() -> (c: Cell)
    ensures
        c == spec_blank(),
{
    Cell { ch: ' ', fg: None, bg: None, visible: false }
}

fn cell_of(ch: char) -> (c: Cell)
    ensures
        c == spec_cell_of(ch),
{
    Cell { ch, fg: None, bg: None, visible: ch != ' ' }
}

fn blank_row(width: usize) -> (row: Vec<Cell>)
    ensures
        row@ == Seq::new(width as nat, |c: int| spec_blank()),
{
    let mut row: Vec<Cell> = Vec::new();
    let mut c: usize = 0;
    while c < width
        invariant
            c <= width,
            row@ == Seq::new(c as nat, |c: int| spec_blank()),
        decreases width - c,
    {
        row.push(blank());
        c += 1;
        assert(row@ =~= Seq::new(c as nat, |c: int| spec_blank()));
    }
    row
}

fn padded_row(line: &Vec<char>, width: usize) -> (row: Vec<Cell>)
    requires
        line@.len() <= width,
    ensures
        row@ == spec_padded_row(line@, width as nat),
{
    let mut row: Vec<Cell> = Vec::new();
    let mut c: usize = 0;
    while c < width
        invariant
            c <= width,
            line@.len() <= width,
            row@.len() == c,
            forall|k: int| 0 <= k < c ==> #[trigger] row@[k] == spec_padded_row(line@, width as nat)[k],
        decreases width - c,
    {
        let cell = if c < line.len() {
            cell_of(line[c])
        } else {
            blank()
        };
        row.push(cell);
        c += 1;
    }
    assert(row@ =~= spec_padded_row(line@, width as nat));
    row
}

/// Whether a row holds a visible cell.
pub fn row_has_visible(row: &Vec<Cell>) -> (b: bool)
    ensures
        b == spec_row_has_visible(row@),
{
    let mut c: usize = 0;
    while c < row.len()
        invariant
            c <= row.len(),
            forall|k: int| 0 <= k < c ==> !(#[trigger] row@[k]).visible,
        decreases row.len() - c,
    {
        if row[c].visible {
            return true;
        }
        c += 1;
    }
    false
}

fn copy_row(row: &Vec<Cell>) -> (out: Vec<Cell>)
    ensures
        out@ == row@,
{
    let mut out: Vec<Cell> = Vec::new();
    let mut c: usize = 0;
    while c < row.len()
        invariant
            c <= row.len(),
            out@ == row@.take(c as int),
        decreases row.len() - c,
    {
        out.push(row[c]);
        c += 1;
        assert(out@ =~= row@.take(c as int));
    }
    assert(row@.take(row.len() as int) =~= row@);
    out
}

impl Grid {
    /// The grid is rectangular.
    pub open spec fn wf(&self) -> bool {
        spec_rect(self@)
    }

    /// A grid of blank cells with the given dimensions.
    pub fn new(height: usize, width: usize) -> (g: Grid)
        ensures
            g.wf(),
            g@ == spec_blank_grid(height as nat, width as nat),
    {
        let mut cells: Vec<Vec<Cell>> = Vec::new();
        let mut r: usize = 0;
        while r < height
            invariant
                r <= height,
                cells@.len() == r,
                forall|i: int| 0 <= i < r ==> (#[trigger] cells@[i])@ == Seq::new(width as nat, |c: int| spec_blank()),
            decreases height - r,
        {
            cells.push(blank_row(width));
            r += 1;
        }
        let g = Grid { cells };
        assert(g@ =~= spec_blank_grid(height as nat, width as nat));
        g
    }

    /// A grid from rows of characters. Short rows are padded on the right
    /// with blank cells, so that the grid is as wide as the longest row.
    pub fn from_char_rows(rows: Vec<Vec<char>>) -> (g: Grid)
        ensures
            g.wf(),
            g@ == spec_from_char_rows(spec_rows(rows@)),
    {
        let ghost src = spec_rows(rows@);
        let mut width: usize = 0;
        let mut i: usize = 0;
        while i < rows.len()
            invariant
                i <= rows.len(),
                width == spec_max_len(src.take(i as int)),
                src == spec_rows(rows@),
            decreases rows.len() - i,
        {
            proof {
                assert(src.take(i as int + 1).drop_last() =~= src.take(i as int));
            }
            if rows[i].len() > width {
                width = rows[i].len();
            }
            i += 1;
        }
        assert(src.take(rows.len() as int) =~= src);
        let mut cells: Vec<Vec<Cell>> = Vec::new();
        let mut r: usize = 0;
        while r < rows.len()
            invariant
                r <= rows.len(),
                src == spec_rows(rows@),
                width == spec_max_len(src),
                cells@.len() == r,
                forall|k: int| 0 <= k < r ==> (#[trigger] cells@[k])@ == spec_padded_row(src[k], width as nat),
            decreases rows.len() - r,
        {
            proof {
                lemma_max_len_bounds(src, r as int);
            }
            let row = padded_row(&rows[r], width);
            cells.push(row);
            r += 1;
        }
        let g = Grid { cells };
        assert(g@ =~= spec_from_char_rows(src));
        assert(g.wf()) by {
            assert forall|k: int| 0 <= k < g@.len() implies (#[trigger] g@[k]).len() == spec_width(g@) by {
                assert(g@[k] == spec_padded_row(src[k], width as nat));
                assert(g@[0] == spec_padded_row(src[0], width as nat));
            }
        }
        g
    }

    /// Number of rows.
    pub fn height(&self) -> (h: usize)
        ensures
            h == self@.len(),
    {
        self.cells.len()
    }

    /// Number of columns: the length of the first row, zero without rows.
    pub fn width(&self) -> (w: usize)
        ensures
            w == spec_width(self@),
    {
        if self.cells.len() == 0 {
            0
        } else {
            self.cells[0].len()
        }
    }

    /// The cell at a position, or `None` outside the grid.
    pub fn cell(&self, row: usize, col: usize) -> (c: Option<&Cell>)
        ensures
            c is Some <==> (row < self@.len() && col < self@[row as int].len()),
            c is Some ==> *c->0 == self@[row as int][col as int],
    {
        if row < self.cells.len() {
            if col < self.cells[row].len() {
                return Some(&self.cells[row][col]);
            }
        }
        None
    }

    /// Mutable access to the cell at a position, or `None` outside the grid.
    pub fn cell_mut(&mut self, row: usize, col: usize) -> (c: Option<&mut Cell>)
        ensures
            c is Some <==> (row < old(self)@.len() && col < old(self)@[row as int].len()),
            c is Some ==> *c->0 == old(self)@[row as int][col as int],
            c is Some ==> final(self)@ == old(self)@.update(
                row as int,
                old(self)@[row as int].update(col as int, *final(c->0)),
            ),
            c is None ==> final(self)@ == old(self)@,
    {
        if row < self.cells.len() {
            if col < self.cells[row].len() {
                return Some(&mut self.cells[row][col]);
            }
        }
        None
    }

    /// Writes a cell at a position. Outside the grid nothing is written;
    /// the result says whether the position was inside.
    pub fn set(&mut self, row: usize, col: usize, cell: Cell) -> (done: bool)
        ensures
            done <==> (row < old(self)@.len() && col < old(self)@[row as int].len()),
            done ==> final(self)@ == old(self)@.update(
                row as int,
                old(self)@[row as int].update(col as int, cell),
            ),
            !done ==> final(self)@ == old(self)@,
    {
        if row < self.cells.len() {
            if col < self.cells[row].len() {
                self.cells[row][col] = cell;
                assert(self@ =~= old(self)@.update(
                    row as int,
                    old(self)@[row as int].update(col as int, cell),
                ));
                return true;
            }
        }
        false
    }

    /// The rows of the grid.
    pub fn rows(&self) -> (rows: &[Vec<Cell>])
        ensures
            rows@.len() == self@.len(),
            forall|r: int| 0 <= r < rows@.len() ==> (#[trigger] rows@[r])@ == self@[r],
    {
        self.cells.as_slice()
    }

    /// The rows of the grid, for writing: the grid holds afterwards what
    /// the caller has left in them.
    pub fn rows_mut(&mut self) -> (rows: &mut [Vec<Cell>])
        ensures
            rows@.len() == old(self)@.len(),
            forall|r: int| 0 <= r < rows@.len() ==> (#[trigger] rows@[r])@ == old(self)@[r],
            final(self)@.len() == final(rows)@.len(),
            forall|r: int|
                0 <= r < final(rows)@.len() ==> #[trigger] final(self)@[r] == final(rows)@[r]@,
    {
        self.cells.as_mut_slice()
    }

    /// The cell at a position inside the grid.
    pub(crate) fn at(&self, row: usize, col: usize) -> (c: Cell)
        requires
            row < self@.len(),
            col < self@[row as int].len(),
        ensures
            c == self@[row as int][col as int],
    {
        self.cells[row][col]
    }

    /// The grid that holds the given rows.
    pub(crate) fn from_cells(cells: Vec<Vec<Cell>>) -> (g: Grid)
        ensures
            g@.len() == cells@.len(),
            forall|r: int| 0 <= r < cells@.len() ==> (#[trigger] g@[r]) == cells@[r]@,
    {
        Grid { cells }
    }

    /// A copy of the rows from `top` up to `bottom`.
    fn copy_rows(&self, top: usize, bottom: usize) -> (g: Grid)
        requires
            top <= bottom <= self@.len(),
        ensures
            g@ == self@.subrange(top as int, bottom as int),
    {
        let mut cells: Vec<Vec<Cell>> = Vec::new();
        let mut r: usize = top;
        while r < bottom
            invariant
                top <= r <= bottom <= self@.len(),
                cells@.len() == r - top,
                forall|k: int| 0 <= k < r - top ==> (#[trigger] cells@[k])@ == self@[top + k],
            decreases bottom - r,
        {
            cells.push(copy_row(&self.cells[r]));
            r += 1;
        }
        let g = Grid { cells };
        assert(g@ =~= self@.subrange(top as int, bottom as int));
        g
    }

    /// A copy of the grid.
    pub fn duplicate(&self) -> (g: Grid)
        ensures
            g@ == self@,
    {
        let g = self.copy_rows(0, self.cells.len());
        assert(self@.subrange(0, self@.len() as int) =~= self@);
        g
    }

    /// Copies the visible cells of `other` onto this grid, the top-left
    /// corner of `other` at row `top` and column `left`. Cells of `other`
    /// that fall outside this grid are dropped.
    pub fn blit(&mut self, other: &Grid, top: usize, left: usize)
        requires
            old(self).wf(),
            other.wf(),
        ensures
            final(self).wf(),
            final(self)@ == spec_blit(old(self)@, other@, top as nat, left as nat),
    {
        let h = self.height();
        let w = self.width();
        let rows: usize = if top >= h {
            0
        } else if other.height() < h - top {
            other.height()
        } else {
            h - top
        };
        let cols: usize = if left >= w {
            0
        } else if other.width() < w - left {
            other.width()
        } else {
            w - left
        };
        let ghost goal = spec_blit(old(self)@, other@, top as nat, left as nat);
        let mut r: usize = 0;
        while r < rows
            invariant
                r <= rows,
                other.wf(),
                old(self).wf(),
                h == old(self)@.len(),
                w == spec_width(old(self)@),
                rows <= other@.len(),
                rows > 0 ==> top + rows <= h,
                cols <= spec_width(other@),
                cols > 0 ==> left + cols <= w,
                cols == 0 ==> (left >= w || spec_width(other@) == 0),
                cols > 0 ==> (cols == spec_width(other@) || left + cols == w),
                goal == spec_blit(old(self)@, other@, top as nat, left as nat),
                self@.len() == h,
                forall|i: int| 0 <= i < h ==> (#[trigger] self@[i]).len() == w,
                forall|i: int, j: int|
                    0 <= i < h && 0 <= j < w ==> #[trigger] self@[i][j] == (if i < top + r {
                        goal[i][j]
                    } else {
                        old(self)@[i][j]
                    }),
            decreases rows - r,
        {
            let mut c: usize = 0;
            while c < cols
                invariant
                    c <= cols,
                    r < rows,
                    other.wf(),
                    old(self).wf(),
                    h == old(self)@.len(),
                    w == spec_width(old(self)@),
                    rows <= other@.len(),
                    top + rows <= h,
                    cols <= spec_width(other@),
                    cols > 0 ==> left + cols <= w,
                    goal == spec_blit(old(self)@, other@, top as nat, left as nat),
                    self@.len() == h,
                    forall|i: int| 0 <= i < h ==> (#[trigger] self@[i]).len() == w,
                    forall|i: int, j: int|
                        0 <= i < h && 0 <= j < w ==> #[trigger] self@[i][j] == (if i < top + r || (i
                            == top + r && j < left + c) {
                            goal[i][j]
                        } else {
                            old(self)@[i][j]
                        }),
                decreases cols - c,
            {
                let cell = other.at(r, c);
                if cell.visible {
                    self.set(top + r, left + c, cell);
                }
                c += 1;
            }
            r += 1;
        }
        assert(self@ =~= goal) by {
            assert forall|i: int| 0 <= i < h implies #[trigger] self@[i] =~= goal[i] by {
                assert forall|j: int| 0 <= j < w implies self@[i][j] == goal[i][j] by {}
            }
        }
    }

    /// The grid without its blank rows at the top and at the bottom.
    pub fn trim_vertical(&self) -> (g: Grid)
        ensures
            g@ == spec_trim_vertical(self@),
            self.wf() ==> g.wf(),
    {
        let n = self.cells.len();
        let mut top: usize = 0;
        while top < n && !row_has_visible(&self.cells[top])
            invariant
                top <= n,
                n == self@.len(),
                spec_first_ink_row(self@, 0) == spec_first_ink_row(self@, top as int),
            decreases n - top,
        {
            top += 1;
        }
        let mut bottom: usize = n;
        while bottom > top && !row_has_visible(&self.cells[bottom - 1])
            invariant
                top <= bottom <= n,
                n == self@.len(),
                spec_last_ink_end(self@, n as int) == spec_last_ink_end(self@, bottom as int),
                top < n ==> spec_row_has_visible(self@[top as int]),
                top < n ==> top < bottom,
            decreases bottom,
        {
            bottom -= 1;
        }
        proof {
            if top == n {
                lemma_last_ink_end_range(self@, n as int);
            }
        }
        let g = self.copy_rows(top, bottom);
        assert(g@ =~= spec_trim_vertical(self@));
        assert(self.wf() ==> g.wf()) by {
            if self.wf() {
                assert forall|k: int| 0 <= k < g@.len() implies (#[trigger] g@[k]).len()
                    == spec_width(g@) by {
                    assert(g@[k] == self@[top + k]);
                    assert(g@[0] == self@[top + 0]);
                }
            }
        }
        g
    }
}

impl From<usize> for Padding {
    fn from(value: usize) -> (p: Padding) {
        Padding::uniform(value)
    }
}

impl vstd::std_specs::convert::FromSpecImpl<usize> for Padding {
    open spec fn obeys_from_spec() -> bool {
        true
    }

    open spec fn from_spec(value: usize) -> Padding {
        Padding { top: value, bottom: value, left: value, right: value }
    }
}

impl From<(usize, usize, usize, usize)> for Padding {
    fn from(values: (usize, usize, usize, usize)) -> (p: Padding) {
        Padding { top: values.0, right: values.1, bottom: values.2, left: values.3 }
    }
}

impl vstd::std_specs::convert::FromSpecImpl<(usize, usize, usize, usize)> for Padding {
    open spec fn obeys_from_spec() -> bool {
        true
    }

    open spec fn from_spec(values: (usize, usize, usize, usize)) -> Padding {
        Padding { top: values.0, right: values.1, bottom: values.2, left: values.3 }
    }
}

impl Padding {
    /// The same padding on all four sides.
    pub fn uniform(value: usize) -> (p: Padding)
        ensures
            p.top == value,
            p.bottom == value,
            p.left == value,
            p.right == value,
    {
        Padding { top: value, bottom: value, left: value, right: value }
    }
}

/// A rule that gives every position of a new grid its cell, reading a
/// source grid.
pub trait Painter {
    /// Whether the rule can paint a grid of the given dimensions from the
    /// source.
    spec fn spec_fits(&self, source: Seq<Seq<Cell>>, height: nat, width: nat) -> bool;

    /// The cell at a position of the new grid.
    spec fn spec_paint(&self, source: Seq<Seq<Cell>>, row: int, col: int) -> Cell;

    /// The cell at a position of the new grid.
    fn paint(&self, source: &Grid, height: usize, width: usize, row: usize, col: usize) -> (cell:
        Cell)
        requires
            source.wf(),
            self.spec_fits(source@, height as nat, width as nat),
            row < height,
            col < width,
        ensures
            cell == self.spec_paint(source@, row as int, col as int),
    ;
}

/// The grid of the given dimensions that a rule paints from a source.
pub open spec fn spec_painted<P: Painter>(
    painter: &P,
    source: Seq<Seq<Cell>>,
    height: nat,
    width: nat,
) -> Seq<Seq<Cell>> {
    Seq::new(height, |r: int| Seq::new(width, |c: int| painter.spec_paint(source, r, c)))
}

/// Paints a grid of the given dimensions by a rule.
pub fn painted<P: Painter>(painter: &P, source: &Grid, height: usize, width: usize) -> (g: Grid)
    requires
        source.wf(),
        painter.spec_fits(source@, height as nat, width as nat),
    ensures
        g.wf(),
        g@ == spec_painted(painter, source@, height as nat, width as nat),
{
    let ghost goal = spec_painted(painter, source@, height as nat, width as nat);
    let mut cells: Vec<Vec<Cell>> = Vec::new();
    let mut r: usize = 0;
    while r < height
        invariant
            r <= height,
            source.wf(),
            painter.spec_fits(source@, height as nat, width as nat),
            goal == spec_painted(painter, source@, height as nat, width as nat),
            cells@.len() == r,
            forall|k: int| 0 <= k < r ==> (#[trigger] cells@[k])@ == goal[k],
        decreases height - r,
    {
        let mut row: Vec<Cell> = Vec::new();
        let mut c: usize = 0;
        while c < width
            invariant
                c <= width,
                r < height,
                source.wf(),
                painter.spec_fits(source@, height as nat, width as nat),
                goal == spec_painted(painter, source@, height as nat, width as nat),
                row@.len() == c,
                forall|k: int| 0 <= k < c ==> #[trigger] row@[k] == goal[r as int][k],
            decreases width - c,
        {
            let cell = painter.paint(source, height, width, r, c);
            row.push(cell);
            c += 1;
        }
        assert(row@ =~= goal[r as int]);
        cells.push(row);
        r += 1;
    }
    let g = Grid { cells };
    assert(g@ =~= goal);
    assert(g.wf()) by {
        assert forall|k: int| 0 <= k < g@.len() implies (#[trigger] g@[k]).len() == spec_width(
            g@,
        ) by {
            assert(g@[k] == goal[k]);
            assert(g@[0] == goal[0]);
        }
    }
    g
}

} // verus!

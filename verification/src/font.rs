//! Bitmap fonts: glyph lookup and the layout of a text into a grid.

use vstd::prelude::*;
use crate::grid::{spec_from_char_rows, Grid};
use crate::text::{spec_lines, spec_rows, spec_upper, split_lines, to_chars, to_upper};

pub mod figlet;

verus! {

/// The bitmap of one character: rows of characters.
#[derive(Clone, Debug)]
pub struct Glyph {
    rows: Vec<Vec<char>>,
}

/// A bitmap font: one glyph for each printable ASCII character, from the
/// space to the tilde, and a fallback glyph for every other character.
#[derive(Clone, Debug)]
pub struct Font {
    height: usize,
    glyphs: Vec<Glyph>,
    fallback: Glyph,
}

/// What a font holds.
pub ghost struct FontModel {
    /// The number of rows of every glyph.
    pub height: nat,
    /// The glyphs of the mapped characters, the glyph of the space first.
    pub glyphs: Seq<Seq<Seq<char>>>,
    /// The glyph for a character without a glyph of its own.
    pub fallback: Seq<Seq<char>>,
}

/// The number of mapped characters: the printable ASCII range.
pub open spec fn spec_mapped_count() -> nat {
    95
}

/// Whether a character has a glyph of its own once it is upper-cased.
pub open spec fn spec_is_mapped(m: FontModel, ch: char) -> bool {
    32 <= spec_upper(ch) as int && spec_upper(ch) as int - 32 < m.glyphs.len()
}

/// The glyph drawn for a character: that of its upper-case form where the
/// font maps it, the fallback otherwise.
pub open spec fn spec_glyph_of(m: FontModel, ch: char) -> Seq<Seq<char>> {
    if spec_is_mapped(m, ch) {
        m.glyphs[spec_upper(ch) as int - 32]
    } else {
        m.fallback
    }
}

/// Every glyph of the font, the fallback too, has exactly `height` rows,
/// and the font maps the whole printable ASCII range.
pub open spec fn spec_font_wf(m: FontModel) -> bool {
    &&& m.glyphs.len() == spec_mapped_count()
    &&& m.fallback.len() == m.height
    &&& forall|k: int| 0 <= k < m.glyphs.len() ==> (#[trigger] m.glyphs[k]).len() == m.height
}

/// `count` spaces.
pub open spec fn spec_spaces(count: nat) -> Seq<char> {
    Seq::new(count, |i: int| ' ')
}

/// Row `row` of a line of text: the glyph rows of its characters side by
/// side, with `kerning` spaces between two neighbours.
pub open spec fn spec_line_row(m: FontModel, line: Seq<char>, kerning: nat, row: int) -> Seq<char>
    decreases line.len(),
{
    if line.len() == 0 {
        Seq::empty()
    } else {
        let gap = if line.len() > 1 {
            spec_spaces(kerning)
        } else {
            Seq::empty()
        };
        spec_line_row(m, line.drop_last(), kerning, row) + gap + spec_glyph_of(m, line.last())[row]
    }
}

/// The rows of a line of text: as many as the font is high.
pub open spec fn spec_line_rows(m: FontModel, line: Seq<char>, kerning: nat) -> Seq<Seq<char>> {
    Seq::new(m.height, |row: int| spec_line_row(m, line, kerning, row))
}

/// The rows of several lines of text, one line below the other, with
/// `line_gap` empty rows between two neighbours.
pub open spec fn spec_text_rows(
    m: FontModel,
    lines: Seq<Seq<char>>,
    kerning: nat,
    line_gap: nat,
) -> Seq<Seq<char>>
    decreases lines.len(),
{
    if lines.len() == 0 {
        Seq::empty()
    } else {
        let gap = if lines.len() > 1 {
            Seq::new(line_gap, |i: int| Seq::<char>::empty())
        } else {
            Seq::empty()
        };
        spec_text_rows(m, lines.drop_last(), kerning, line_gap) + gap + spec_line_rows(
            m,
            lines.last(),
            kerning,
        )
    }
}

/// The grid that a text is laid out into: its lines one below the other,
/// every row padded with blank cells to the width of the longest. A cell is
/// visible unless its character is a space.
pub open spec fn spec_render_text(
    m: FontModel,
    text: Seq<char>,
    kerning: nat,
    line_gap: nat,
) -> Seq<Seq<crate::grid::Cell>> {
    spec_from_char_rows(spec_text_rows(m, spec_lines(text), kerning, line_gap))
}

/// The width of the glyph rows of a line in row `row`, without kerning.
pub open spec fn spec_ink_width(m: FontModel, line: Seq<char>, row: int) -> nat
    decreases line.len(),
{
    if line.len() == 0 {
        0
    } else {
        spec_ink_width(m, line.drop_last(), row) + spec_glyph_of(m, line.last())[row].len()
    }
}

/// A row of a line is as wide as the glyph rows of its characters together
/// with `kerning` columns for every character but the last.
pub proof fn lemma_line_row_width(m: FontModel, line: Seq<char>, kerning: nat, row: int)
    ensures
        spec_line_row(m, line, kerning, row).len() == spec_ink_width(m, line, row) + (if line.len()
            == 0 {
            0
        } else {
            (line.len() - 1) * kerning
        }),
    decreases line.len(),
{
    if line.len() > 0 {
        lemma_line_row_width(m, line.drop_last(), kerning, row);
        let n = line.len() as int;
        if n > 1 {
            assert((n - 1) * kerning == (n - 2) * kerning + kerning) by (nonlinear_arith);
        } else {
            assert((n - 1) * kerning == 0) by (nonlinear_arith)
                requires
                    n == 1,
            ;
        }
    }
}

/// The rows of a text: every line takes as many rows as the font is high,
/// and `line_gap` rows stand between two lines.
pub proof fn lemma_text_rows_count(m: FontModel, lines: Seq<Seq<char>>, kerning: nat, line_gap: nat)
    ensures
        spec_text_rows(m, lines, kerning, line_gap).len() == (if lines.len() == 0 {
            0
        } else {
            lines.len() * m.height + (lines.len() - 1) * line_gap
        }),
    decreases lines.len(),
{
    if lines.len() > 0 {
        lemma_text_rows_count(m, lines.drop_last(), kerning, line_gap);
        let n = lines.len() as int;
        let h = m.height as int;
        let gap = line_gap as int;
        if n > 1 {
            assert(n * h + (n - 1) * gap == ((n - 1) * h + (n - 2) * gap) + gap + h)
                by (nonlinear_arith);
        } else {
            assert(n * h + (n - 1) * gap == h) by (nonlinear_arith)
                requires
                    n == 1,
            ;
        }
    }
}

/// The grid of a text: it has the rows of its lines and the gaps between
/// them, it is rectangular and as wide as its longest row, and every cell
/// is without colours and visible exactly where its character is not a
/// space. A text without lines gives a grid without rows.
pub proof fn lemma_render_text_shape(m: FontModel, text: Seq<char>, kerning: nat, line_gap: nat)
    ensures
        ({
            let lines = spec_lines(text);
            let rows = spec_text_rows(m, lines, kerning, line_gap);
            let g = spec_render_text(m, text, kerning, line_gap);
            &&& g.len() == (if lines.len() == 0 {
                0
            } else {
                lines.len() * m.height + (lines.len() - 1) * line_gap
            })
            &&& crate::grid::spec_rect(g)
            &&& g.len() > 0 ==> crate::grid::spec_width(g) == crate::grid::spec_max_len(rows)
            &&& forall|r: int, c: int|
                0 <= r < g.len() && 0 <= c < crate::grid::spec_max_len(rows) ==> {
                    let cell = #[trigger] g[r][c];
                    &&& cell.ch == (if c < rows[r].len() {
                        rows[r][c]
                    } else {
                        ' '
                    })
                    &&& cell.visible == (cell.ch != ' ')
                    &&& cell.fg is None
                    &&& cell.bg is None
                }
        }),
{
    let lines = spec_lines(text);
    lemma_text_rows_count(m, lines, kerning, line_gap);
    crate::grid::lemma_from_char_rows_shape(spec_text_rows(m, lines, kerning, line_gap));
}

/// In a well-formed font every character is drawn with a glyph of exactly
/// the height of the font, and a character that the font does not map is
/// drawn with the fallback.
pub proof fn lemma_glyph_height(m: FontModel, ch: char)
    requires
        spec_font_wf(m),
    ensures
        spec_glyph_of(m, ch).len() == m.height,
        !spec_is_mapped(m, ch) ==> spec_glyph_of(m, ch) == m.fallback,
{
}

/// A font that was read from a description draws every character with a
/// glyph of exactly the height that the description declares; each of the
/// 95 printable characters that have no lower-case form of their own is
/// drawn with its own glyph, and an unmapped character with the fallback.
pub proof fn lemma_parsed_glyph_height(data: Seq<char>, ch: char)
    requires
        figlet::spec_parse(data) is Ok,
    ensures
        spec_glyph_of(figlet::spec_parse(data)->Ok_0, ch).len() == (figlet::spec_parse(
            data,
        )->Ok_0).height,
        32 <= spec_upper(ch) as int <= 126 ==> spec_glyph_of(figlet::spec_parse(data)->Ok_0, ch) == (
        figlet::spec_parse(data)->Ok_0).glyphs[spec_upper(ch) as int - 32],
        !(32 <= spec_upper(ch) as int <= 126) ==> spec_glyph_of(figlet::spec_parse(data)->Ok_0, ch)
            == (figlet::spec_parse(data)->Ok_0).fallback,
{
    figlet::lemma_parsed_font_wf(data);
}

impl View for Glyph {
    type V = Seq<Seq<char>>;

    closed spec fn view(&self) -> Seq<Seq<char>> {
        spec_rows(self.rows@)
    }
}

impl View for Font {
    type V = FontModel;

    closed spec fn view(&self) -> FontModel {
        FontModel {
            height: self.height as nat,
            glyphs: Seq::new(self.glyphs@.len(), |k: int| self.glyphs@[k]@),
            fallback: self.fallback@,
        }
    }
}

impl Glyph {
    /// The glyph with the given rows.
    pub(crate) fn from_rows(rows: Vec<Vec<char>>) -> (g: Glyph)
        ensures
            g@ == spec_rows(rows@),
    {
        Glyph { rows }
    }

    /// A copy of the glyph.
    pub(crate) fn duplicate(&self) -> (g: Glyph)
        ensures
            g@ == self@,
    {
        let mut rows: Vec<Vec<char>> = Vec::new();
        let mut r: usize = 0;
        while r < self.rows.len()
            invariant
                r <= self.rows@.len(),
                rows@.len() == r,
                forall|k: int| 0 <= k < r ==> (#[trigger] rows@[k])@ == self.rows@[k]@,
            decreases self.rows@.len() - r,
        {
            let row = &self.rows[r];
            let copy = crate::text::slice_chars(row, 0, row.len());
            assert(copy@ =~= row@);
            rows.push(copy);
            r += 1;
        }
        let g = Glyph { rows };
        assert(g@ =~= self@);
        g
    }

    /// The width of the glyph: the length of its first row, zero without rows.
    pub fn width(&self) -> (w: usize)
        ensures
            w == (if self@.len() == 0 {
                0
            } else {
                self@[0].len()
            }),
    {
        if self.rows.len() == 0 {
            0
        } else {
            self.rows[0].len()
        }
    }

    /// The number of rows of the glyph.
    pub fn height(&self) -> (h: usize)
        ensures
            h == self@.len(),
    {
        self.rows.len()
    }

    /// Row `row` of the glyph, or `None` past its last row.
    pub fn row(&self, row: usize) -> (r: Option<&Vec<char>>)
        ensures
            r is Some <==> row < self@.len(),
            r is Some ==> r->0@ == self@[row as int],
    {
        if row < self.rows.len() {
            Some(&self.rows[row])
        } else {
            None
        }
    }

    /// Row `row` of the glyph.
    fn row_at(&self, row: usize) -> (r: &Vec<char>)
        requires
            row < self@.len(),
        ensures
            r@ == self@[row as int],
    {
        &self.rows[row]
    }
}

impl Font {
    /// Every glyph has as many rows as the font is high.
    pub open spec fn wf(&self) -> bool {
        spec_font_wf(self@)
    }

    /// The font with the given height, glyphs and fallback.
    pub(crate) fn assemble(height: usize, glyphs: Vec<Glyph>, fallback: Glyph) -> (f: Font)
        ensures
            f@.height == height,
            f@.glyphs.len() == glyphs@.len(),
            forall|k: int| 0 <= k < glyphs@.len() ==> (#[trigger] f@.glyphs[k]) == glyphs@[k]@,
            f@.fallback == fallback@,
    {
        Font { height, glyphs, fallback }
    }

    /// Reads a font from its description.
    pub fn from_figlet_str(data: &str) -> (r: Result<Font, figlet::FigletError>)
        ensures
            match r {
                Ok(font) => figlet::spec_parse(data@) == Ok::<FontModel, figlet::FigletError>(font@)
                    && font.wf(),
                Err(e) => figlet::spec_parse(data@) == Err::<FontModel, figlet::FigletError>(e),
            },
    {
        figlet::parse(data)
    }

    /// The number of rows of every glyph.
    pub fn height(&self) -> (h: usize)
        ensures
            h == self@.height,
    {
        self.height
    }

    /// The glyph drawn for a character: that of its upper-case form where
    /// the font maps it, the fallback otherwise.
    pub fn glyph(&self, ch: char) -> (g: &Glyph)
        ensures
            g@ == spec_glyph_of(self@, ch),
            !spec_is_mapped(self@, ch) ==> g@ == self@.fallback,
            self.wf() ==> g@.len() == self@.height,
    {
        let upper = to_upper(ch);
        let code: u32 = upper as u32;
        if code >= 32 && ((code - 32) as usize) < self.glyphs.len() {
            assert(self@.glyphs[code - 32] == self.glyphs@[code - 32]@);
            &self.glyphs[(code - 32) as usize]
        } else {
            &self.fallback
        }
    }
}

fn append_chars(target: &mut Vec<char>, source: &Vec<char>)
    ensures
        final(target)@ == old(target)@ + source@,
{
    let mut i: usize = 0;
    while i < source.len()
        invariant
            i <= source@.len(),
            target@ == old(target)@ + source@.take(i as int),
        decreases source@.len() - i,
    {
        target.push(source[i]);
        i += 1;
        assert(target@ =~= old(target)@ + source@.take(i as int));
    }
    assert(source@.take(source@.len() as int) =~= source@);
}

fn append_spaces(target: &mut Vec<char>, count: usize)
    ensures
        final(target)@ == old(target)@ + spec_spaces(count as nat),
{
    let mut i: usize = 0;
    while i < count
        invariant
            i <= count,
            target@ == old(target)@ + spec_spaces(i as nat),
        decreases count - i,
    {
        target.push(' ');
        i += 1;
        assert(target@ =~= old(target)@ + spec_spaces(i as nat));
    }
}

/// Row `row` of a line of text.
fn render_line_row(line: &Vec<char>, font: &Font, kerning: usize, row: usize) -> (out: Vec<char>)
    requires
        font.wf(),
        row < font@.height,
    ensures
        out@ == spec_line_row(font@, line@, kerning as nat, row as int),
{
    let mut out: Vec<char> = Vec::new();
    let mut i: usize = 0;
    assert(line@.take(0) =~= Seq::<char>::empty());
    while i < line.len()
        invariant
            i <= line@.len(),
            font.wf(),
            row < font@.height,
            out@ == spec_line_row(font@, line@.take(i as int), kerning as nat, row as int),
        decreases line@.len() - i,
    {
        proof {
            assert(line@.take(i as int + 1).drop_last() =~= line@.take(i as int));
            assert(line@.take(i as int + 1).last() == line@[i as int]);
        }
        if i > 0 {
            append_spaces(&mut out, kerning);
        }
        let glyph = font.glyph(line[i]);
        append_chars(&mut out, glyph.row_at(row));
        i += 1;
        assert(out@ =~= spec_line_row(font@, line@.take(i as int), kerning as nat, row as int));
    }
    assert(line@.take(line@.len() as int) =~= line@);
    out
}

/// Appends the rows of a line of text.
fn render_line(rows: &mut Vec<Vec<char>>, line: &Vec<char>, font: &Font, kerning: usize)
    requires
        font.wf(),
    ensures
        spec_rows(final(rows)@) == spec_rows(old(rows)@) + spec_line_rows(
            font@,
            line@,
            kerning as nat,
        ),
{
    let height = font.height();
    let mut row: usize = 0;
    let ghost goal = spec_line_rows(font@, line@, kerning as nat);
    assert(goal.take(0) =~= Seq::<Seq<char>>::empty());
    assert(spec_rows(rows@) + Seq::<Seq<char>>::empty() =~= spec_rows(rows@));
    while row < height
        invariant
            row <= height,
            height == font@.height,
            font.wf(),
            goal == spec_line_rows(font@, line@, kerning as nat),
            spec_rows(rows@) == spec_rows(old(rows)@) + goal.take(row as int),
        decreases height - row,
    {
        let ghost before = spec_rows(rows@);
        let chars = render_line_row(line, font, kerning, row);
        rows.push(chars);
        assert(spec_rows(rows@) =~= before.push(goal[row as int]));
        row += 1;
        assert(spec_rows(old(rows)@) + goal.take(row as int) =~= (spec_rows(old(rows)@) + goal.take(
            row as int - 1,
        )).push(goal[row as int - 1]));
    }
    assert(goal.take(height as int) =~= goal);
}

/// Lays a text out into a grid. The text is split into lines; each line is
/// drawn with `kerning` blank columns between two characters, and the lines
/// stand one below the other with `line_gap` blank rows between them.
pub fn render_text(text: &str, font: &Font, kerning: usize, line_gap: usize) -> (g: Grid)
    requires
        font.wf(),
    ensures
        g.wf(),
        g@ == spec_render_text(font@, text@, kerning as nat, line_gap as nat),
{
    let chars = to_chars(text);
    let lines = split_lines(&chars);
    let ghost all = spec_lines(text@);
    let mut rows: Vec<Vec<char>> = Vec::new();
    let mut i: usize = 0;
    assert(all.take(0) =~= Seq::<Seq<char>>::empty());
    assert(spec_rows(rows@) =~= Seq::<Seq<char>>::empty());
    while i < lines.len()
        invariant
            i <= lines@.len(),
            font.wf(),
            all == spec_rows(lines@),
            spec_rows(rows@) == spec_text_rows(font@, all.take(i as int), kerning as nat, line_gap as nat),
        decreases lines@.len() - i,
    {
        proof {
            assert(all.take(i as int + 1).drop_last() =~= all.take(i as int));
            assert(all.take(i as int + 1).last() == lines@[i as int]@);
        }
        if i > 0 {
            let mut k: usize = 0;
            let ghost before = spec_rows(rows@);
            assert(before + Seq::new(0, |j: int| Seq::<char>::empty()) =~= before);
            while k < line_gap
                invariant
                    k <= line_gap,
                    spec_rows(rows@) == before + Seq::new(k as nat, |j: int| Seq::<char>::empty()),
                decreases line_gap - k,
            {
                let ghost prev = spec_rows(rows@);
                rows.push(Vec::new());
                assert(spec_rows(rows@) =~= prev.push(Seq::<char>::empty()));
                k += 1;
                assert(before + Seq::new(k as nat, |j: int| Seq::<char>::empty()) =~= (before
                    + Seq::new((k - 1) as nat, |j: int| Seq::<char>::empty())).push(
                    Seq::<char>::empty(),
                ));
            }
        }
        render_line(&mut rows, &lines[i], font, kerning);
        i += 1;
    }
    assert(all.take(lines@.len() as int) =~= all);
    let g = Grid::from_char_rows(rows);
    g
}

} // verus!

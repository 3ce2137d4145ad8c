//! The reader of line-oriented bitmap font descriptions.
//!
//! A description starts with a header line: the magic tag `flf2a`, directly
//! followed by the hardblank character, then, separated by white space, the
//! height of the glyphs, the baseline, the greatest length of a row, the
//! layout flag and the number of comment lines. After the comment lines
//! come the glyphs of the printable ASCII characters, from the space to the
//! tilde, each with as many rows as the header says.

use vstd::prelude::*;
use super::{spec_font_wf, Font, FontModel, Glyph};
use crate::text::{
    is_signed_in_range,
    next_word,
    parse_unsigned,
    slice_chars,
    spec_lines,
    spec_next_word,
    spec_parse_signed,
    spec_parse_unsigned,
    spec_rows,
    spec_strip_trailing,
    split_lines,
    strip_trailing,
    to_chars,
};

verus! {

/// Why a font description could not be read.
#[derive(Clone, Copy, Debug, PartialEq, Eq, Structural)]
pub enum FigletError {
    /// The header lacks its magic tag or a field.
    InvalidHeader,
    /// The description ends before all glyph rows were read.
    MissingData,
    /// A field of the header is not a number.
    InvalidNumber,
}

/// What the header of a description says.
pub ghost struct HeaderModel {
    /// The character that stands for a space inside a glyph row.
    pub hardblank: char,
    /// The number of rows of every glyph.
    pub height: nat,
    /// The number of comment lines between the header and the glyphs.
    pub comment_lines: nat,
}

/// Whether a line starts with the magic tag and one more character.
pub open spec fn spec_has_magic(line: Seq<char>) -> bool {
    &&& line.len() >= 6
    &&& line[0] == 'f'
    &&& line[1] == 'l'
    &&& line[2] == 'f'
    &&& line[3] == '2'
    &&& line[4] == 'a'
}

/// The unsigned field that is the first word at or after `from`: its value
/// and the place where it ends. A missing word is an invalid header; a word
/// that writes no number, or one above the machine's limit, is an invalid
/// number.
pub open spec fn spec_unsigned_field(line: Seq<char>, from: int) -> Result<(nat, int), FigletError> {
    match spec_next_word(line, from) {
        None => Err(FigletError::InvalidHeader),
        Some((start, end)) => match spec_parse_unsigned(line.subrange(start, end)) {
            Some(v) => if v <= usize::MAX {
                Ok((v, end))
            } else {
                Err(FigletError::InvalidNumber)
            },
            None => Err(FigletError::InvalidNumber),
        },
    }
}

/// The signed 32-bit field that is the first word at or after `from`: the
/// place where it ends.
pub open spec fn spec_signed_field(line: Seq<char>, from: int) -> Result<int, FigletError> {
    match spec_next_word(line, from) {
        None => Err(FigletError::InvalidHeader),
        Some((start, end)) => match spec_parse_signed(line.subrange(start, end)) {
            Some(v) => if -0x8000_0000 <= v <= 0x7fff_ffff {
                Ok(end)
            } else {
                Err(FigletError::InvalidNumber)
            },
            None => Err(FigletError::InvalidNumber),
        },
    }
}

/// What a header line says. The first word holds the magic tag and the
/// hardblank; five fields follow it, and the first that is missing or
/// malformed decides the error.
pub open spec fn spec_parse_header(line: Seq<char>) -> Result<HeaderModel, FigletError> {
    if !spec_has_magic(line) {
        Err(FigletError::InvalidHeader)
    } else {
        match spec_next_word(line, 0) {
            None => Err(FigletError::InvalidHeader),
            Some((tag_start, tag_end)) => match spec_unsigned_field(line, tag_end) {
                Err(e) => Err(e),
                Ok((height, height_end)) => match spec_unsigned_field(line, height_end) {
                    Err(e) => Err(e),
                    Ok((baseline, baseline_end)) => match spec_unsigned_field(line, baseline_end) {
                        Err(e) => Err(e),
                        Ok((max_length, max_length_end)) => match spec_signed_field(
                            line,
                            max_length_end,
                        ) {
                            Err(e) => Err(e),
                            Ok(layout_end) => match spec_unsigned_field(line, layout_end) {
                                Err(e) => Err(e),
                                Ok((comment_lines, comment_end)) => Ok(
                                    HeaderModel { hardblank: line[5], height, comment_lines },
                                ),
                            },
                        },
                    },
                },
            },
        }
    }
}

/// The end-of-line marker of a description: the last character of the
/// first glyph row, or `@` where that row is missing or empty.
pub open spec fn spec_end_mark(lines: Seq<Seq<char>>, start: int) -> char {
    if 0 <= start < lines.len() && lines[start].len() > 0 {
        lines[start].last()
    } else {
        '@'
    }
}

/// A glyph row as it is kept: without the end-of-line markers at its end,
/// and with a space in place of every hardblank.
pub open spec fn spec_clean_line(line: Seq<char>, end_mark: char, hardblank: char) -> Seq<char> {
    let kept = spec_strip_trailing(line, end_mark);
    Seq::new(
        kept.len(),
        |i: int|
            if kept[i] == hardblank {
                ' '
            } else {
                kept[i]
            },
    )
}

/// The rows of glyph number `k`, where the glyph rows start at line `start`.
pub open spec fn spec_glyph_rows(
    lines: Seq<Seq<char>>,
    start: int,
    height: nat,
    k: int,
    end_mark: char,
    hardblank: char,
) -> Seq<Seq<char>> {
    Seq::new(height, |j: int| spec_clean_line(lines[start + k * height + j], end_mark, hardblank))
}

/// The font whose glyph rows start at line `start`. The glyph of the
/// question mark is the fallback.
pub open spec fn spec_font_of(
    lines: Seq<Seq<char>>,
    start: int,
    hardblank: char,
    height: nat,
) -> FontModel {
    let end_mark = spec_end_mark(lines, start);
    let glyphs = Seq::new(
        95,
        |k: int| spec_glyph_rows(lines, start, height, k, end_mark, hardblank),
    );
    FontModel { height, glyphs, fallback: glyphs[31] }
}

/// The font that a description holds, or the reason why it holds none: an
/// invalid header where the text is empty or its first line is no header,
/// missing data where fewer lines follow the header than the comments and
/// the rows of all 95 glyphs take.
pub open spec fn spec_parse(data: Seq<char>) -> Result<FontModel, FigletError> {
    let lines = spec_lines(data);
    if lines.len() == 0 {
        Err(FigletError::InvalidHeader)
    } else {
        match spec_parse_header(lines[0]) {
            Err(e) => Err(e),
            Ok(header) => if lines.len() - 1 < header.comment_lines + 95 * header.height {
                Err(FigletError::MissingData)
            } else {
                Ok(
                    spec_font_of(
                        lines,
                        1 + header.comment_lines as int,
                        header.hardblank,
                        header.height,
                    ),
                )
            },
        }
    }
}

/// A font that was read from a description is well formed: each of its 95
/// glyphs, and its fallback, has exactly the height that the header gives.
pub proof fn lemma_parsed_font_wf(data: Seq<char>)
    requires
        spec_parse(data) is Ok,
    ensures
        spec_font_wf(spec_parse(data)->Ok_0),
{
}

fn unsigned_field(line: &Vec<char>, from: usize) -> (r: Result<(usize, usize), FigletError>)
    requires
        from <= line@.len(),
    ensures
        match r {
            Ok((value, end)) => spec_unsigned_field(line@, from as int) == Ok::<
                (nat, int),
                FigletError,
            >((value as nat, end as int)) && end <= line@.len(),
            Err(e) => spec_unsigned_field(line@, from as int) == Err::<(nat, int), FigletError>(e),
        },
{
    match next_word(line, from) {
        None => Err(FigletError::InvalidHeader),
        Some((start, end)) => {
            let word = slice_chars(line, start, end);
            match parse_unsigned(&word, usize::MAX as u64) {
                Some(v) => Ok((v as usize, end)),
                None => Err(FigletError::InvalidNumber),
            }
        },
    }
}

fn signed_field(line: &Vec<char>, from: usize) -> (r: Result<usize, FigletError>)
    requires
        from <= line@.len(),
    ensures
        match r {
            Ok(end) => spec_signed_field(line@, from as int) == Ok::<int, FigletError>(end as int)
                && end <= line@.len(),
            Err(e) => spec_signed_field(line@, from as int) == Err::<int, FigletError>(e),
        },
{
    match next_word(line, from) {
        None => Err(FigletError::InvalidHeader),
        Some((start, end)) => {
            let word = slice_chars(line, start, end);
            if is_signed_in_range(&word, 0x8000_0000, 0x7fff_ffff) {
                Ok(end)
            } else {
                Err(FigletError::InvalidNumber)
            }
        },
    }
}

/// Reads a header line: the hardblank, the height of the glyphs and the
/// number of comment lines.
pub fn parse_header(line: &Vec<char>) -> (r: Result<(char, usize, usize), FigletError>)
    ensures
        match r {
            Ok((hardblank, height, comment_lines)) => spec_parse_header(line@) == Ok::<
                HeaderModel,
                FigletError,
            >(
                HeaderModel {
                    hardblank,
                    height: height as nat,
                    comment_lines: comment_lines as nat,
                },
            ),
            Err(e) => spec_parse_header(line@) == Err::<HeaderModel, FigletError>(e),
        },
{
    if line.len() < 6 || line[0] != 'f' || line[1] != 'l' || line[2] != 'f' || line[3] != '2'
        || line[4] != 'a' {
        return Err(FigletError::InvalidHeader);
    }
    let hardblank = line[5];
    let tag_end = match next_word(line, 0) {
        None => {
            return Err(FigletError::InvalidHeader);
        },
        Some((start, end)) => end,
    };
    let (height, height_end) = match unsigned_field(line, tag_end) {
        Err(e) => {
            return Err(e);
        },
        Ok(field) => field,
    };
    let (baseline, baseline_end) = match unsigned_field(line, height_end) {
        Err(e) => {
            return Err(e);
        },
        Ok(field) => field,
    };
    let (max_length, max_length_end) = match unsigned_field(line, baseline_end) {
        Err(e) => {
            return Err(e);
        },
        Ok(field) => field,
    };
    let layout_end = match signed_field(line, max_length_end) {
        Err(e) => {
            return Err(e);
        },
        Ok(end) => end,
    };
    let (comment_lines, comment_end) = match unsigned_field(line, layout_end) {
        Err(e) => {
            return Err(e);
        },
        Ok(field) => field,
    };
    Ok((hardblank, height, comment_lines))
}

/// A glyph row as it is kept: without the end-of-line markers at its end,
/// and with a space in place of every hardblank.
pub fn clean_line(line: &Vec<char>, end_mark: char, hardblank: char) -> (out: Vec<char>)
    ensures
        out@ == spec_clean_line(line@, end_mark, hardblank),
{
    let kept = strip_trailing(line, end_mark);
    let mut out: Vec<char> = Vec::new();
    let mut i: usize = 0;
    while i < kept.len()
        invariant
            i <= kept@.len(),
            out@.len() == i,
            forall|k: int| 0 <= k < i ==> #[trigger] out@[k] == (if kept@[k] == hardblank {
                ' '
            } else {
                kept@[k]
            }),
        decreases kept@.len() - i,
    {
        let c = kept[i];
        let kept_char = if c == hardblank {
            ' '
        } else {
            c
        };
        out.push(kept_char);
        i += 1;
    }
    assert(out@ =~= spec_clean_line(line@, end_mark, hardblank));
    out
}

/// Reads the rows of one glyph, which start at line `first`.
fn read_glyph(
    lines: &Vec<Vec<char>>,
    first: usize,
    height: usize,
    end_mark: char,
    hardblank: char,
) -> (g: Glyph)
    requires
        first + height <= lines@.len(),
    ensures
        g@ == Seq::new(
            height as nat,
            |j: int| spec_clean_line(lines@[first + j]@, end_mark, hardblank),
        ),
{
    let mut rows: Vec<Vec<char>> = Vec::new();
    let mut j: usize = 0;
    let count = lines.len();
    while j < height
        invariant
            j <= height,
            count == lines@.len(),
            first + height <= lines@.len(),
            rows@.len() == j,
            forall|i: int| 0 <= i < j ==> (#[trigger] rows@[i])@ == spec_clean_line(
                lines@[first + i]@,
                end_mark,
                hardblank,
            ),
        decreases height - j,
    {
        rows.push(clean_line(&lines[first + j], end_mark, hardblank));
        j += 1;
    }
    let g = Glyph::from_rows(rows);
    assert(g@ =~= Seq::new(
        height as nat,
        |j: int| spec_clean_line(lines@[first + j]@, end_mark, hardblank),
    ));
    g
}

/// Reads a font from its description.
pub fn parse(data: &str) -> (r: Result<Font, FigletError>)
    ensures
        match r {
            Ok(font) => spec_parse(data@) == Ok::<FontModel, FigletError>(font@) && font.wf(),
            Err(e) => spec_parse(data@) == Err::<FontModel, FigletError>(e),
        },
{
    let chars = to_chars(data);
    let lines = split_lines(&chars);
    let ghost all = spec_lines(data@);
    if lines.len() == 0 {
        return Err(FigletError::InvalidHeader);
    }
    assert(all[0] == lines@[0]@);
    let (hardblank, height, comment_lines) = match parse_header(&lines[0]) {
        Err(e) => {
            return Err(e);
        },
        Ok(header) => header,
    };
    let count = lines.len();
    let available = count - 1;
    if comment_lines > available {
        return Err(FigletError::MissingData);
    }
    let rest = available - comment_lines;
    if height > rest / 95 {
        return Err(FigletError::MissingData);
    }
    let start = 1 + comment_lines;
    let end_mark = if start < lines.len() && lines[start].len() > 0 {
        lines[start][lines[start].len() - 1]
    } else {
        '@'
    };
    assert(end_mark == spec_end_mark(all, start as int)) by {
        if start < lines@.len() {
            assert(all[start as int] == lines@[start as int]@);
        }
    }
    let mut glyphs: Vec<Glyph> = Vec::new();
    let mut k: usize = 0;
    let mut first: usize = start;
    while k < 95
        invariant
            k <= 95,
            first == start + k * height,
            start + 95 * height <= lines@.len(),
            count == lines@.len(),
            all == spec_rows(lines@),
            glyphs@.len() == k,
            forall|i: int| 0 <= i < k ==> (#[trigger] glyphs@[i])@ == spec_glyph_rows(
                all,
                start as int,
                height as nat,
                i,
                end_mark,
                hardblank,
            ),
        decreases 95 - k,
    {
        assert(first + height == start + (k + 1) * height) by (nonlinear_arith)
            requires
                first == start + k * height,
        ;
        assert((k + 1) * height <= 95 * height) by (nonlinear_arith)
            requires
                k < 95,
        ;
        let glyph = read_glyph(&lines, first, height, end_mark, hardblank);
        assert(glyph@ =~= spec_glyph_rows(
            all,
            start as int,
            height as nat,
            k as int,
            end_mark,
            hardblank,
        ));
        glyphs.push(glyph);
        first += height;
        k += 1;
    }
    let fallback = glyphs[31].duplicate();
    let font = Font::assemble(height, glyphs, fallback);
    proof {
        let goal = spec_font_of(all, start as int, hardblank, height as nat);
        assert(font@.glyphs =~= goal.glyphs);
        assert(font@.fallback == goal.fallback);
        assert(font@ == goal);
    }
    Ok(font)
}

} // verus!

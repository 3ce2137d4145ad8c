//! The emitter: a grid as text with ANSI colour codes.

use vstd::prelude::*;
use crate::color::{Color, ColorMode};
use crate::grid::{Cell, Grid};

verus! {

/// `String::push` appends one character to the string.
pub assume_specification[ String::push ](s: &mut String, ch: char)
    ensures
        final(s)@ == old(s)@.push(ch),
;

/// The decimal digits of a number, without leading zeros.
pub open spec fn spec_decimal(n: nat) -> Seq<char>
    decreases n,
{
    if n < 10 {
        seq![(48 + n) as u8 as char]
    } else {
        spec_decimal(n / 10).push((48 + n % 10) as u8 as char)
    }
}

/// The code that resets the colours.
pub open spec fn spec_reset() -> Seq<char> {
    seq!['\x1b', '[', '0', 'm']
}

/// The index of an RGB colour in the 256-colour palette. A grey below 8 is
/// the black of the colour cube, 16, and one above 248 its white, 231; any
/// other grey falls into the ramp of 24 greys from 232 on, ten values to a
/// step, the last step taking what lies past it. Any other colour has each
/// channel scaled to six levels and lies in the cube, at
/// `16 + 36 * red + 6 * green + blue`.
pub open spec fn spec_rgb_to_ansi256(r: u8, g: u8, b: u8) -> u8 {
    if r == g && g == b {
        if r < 8 {
            16u8
        } else if r > 248 {
            231u8
        } else if (r - 8) / 10 >= 24 {
            255u8
        } else {
            (232 + (r - 8) / 10) as u8
        }
    } else {
        (16 + 36 * (r * 5 / 255) + 6 * (g * 5 / 255) + (b * 5 / 255)) as u8
    }
}

/// The code that selects an index of the 256-colour palette.
pub open spec fn spec_index_code(code: u8) -> Seq<char> {
    seq!['\x1b', '[', '3', '8', ';', '5', ';'] + spec_decimal(code as nat) + seq!['m']
}

/// The code that selects a foreground colour. In true-colour mode an RGB
/// colour is written with its three channels, in 256-colour mode with its
/// index in the palette; an indexed colour is written with its index in
/// both. The other modes have no codes.
pub open spec fn spec_fg_code(color: Color, mode: ColorMode) -> Seq<char> {
    match mode {
        ColorMode::TrueColor => match color {
            Color::Rgb(r, g, b) => seq!['\x1b', '[', '3', '8', ';', '2', ';'] + spec_decimal(
                r as nat,
            ) + seq![';'] + spec_decimal(g as nat) + seq![';'] + spec_decimal(b as nat) + seq!['m'],
            Color::Ansi256(code) => spec_index_code(code),
        },
        ColorMode::Ansi256 => match color {
            Color::Ansi256(code) => spec_index_code(code),
            Color::Rgb(r, g, b) => spec_index_code(spec_rgb_to_ansi256(r, g, b)),
        },
        _ => Seq::empty(),
    }
}

/// Whether a mode writes colour codes.
pub open spec fn spec_has_color(mode: ColorMode) -> bool {
    mode == ColorMode::TrueColor || mode == ColorMode::Ansi256
}

/// The character a cell is drawn with: its own where it is visible, a
/// space where it is not.
pub open spec fn spec_shown_char(cell: Cell) -> char {
    if cell.visible {
        cell.ch
    } else {
        ' '
    }
}

/// The foreground a cell is drawn with: its own where it is visible, none
/// where it is not.
pub open spec fn spec_shown_fg(cell: Cell) -> Option<Color> {
    if cell.visible {
        cell.fg
    } else {
        None
    }
}

/// The foreground that is selected after the cells were written: that of
/// the last cell, none before the first.
pub open spec fn spec_open_fg(cells: Seq<Cell>) -> Option<Color> {
    if cells.len() == 0 {
        None
    } else {
        spec_shown_fg(cells.last())
    }
}

/// The cells of a row with their colour codes. A code is written only
/// where the foreground differs from that of the cell before: the code of
/// the new colour, or a reset where the cell has none.
pub open spec fn spec_colored_cells(cells: Seq<Cell>, mode: ColorMode) -> Seq<char>
    decreases cells.len(),
{
    if cells.len() == 0 {
        Seq::empty()
    } else {
        let before = cells.drop_last();
        let fg = spec_shown_fg(cells.last());
        let change = if fg != spec_open_fg(before) {
            match fg {
                Some(color) => spec_fg_code(color, mode),
                None => spec_reset(),
            }
        } else {
            Seq::empty()
        };
        spec_colored_cells(before, mode) + change + seq![spec_shown_char(cells.last())]
    }
}

/// The characters of a row, without codes.
pub open spec fn spec_plain_cells(cells: Seq<Cell>) -> Seq<char> {
    Seq::new(cells.len(), |c: int| spec_shown_char(cells[c]))
}

/// A row as text. In a colour mode a row that ends with a colour selected
/// ends with a reset, so every row starts without one.
pub open spec fn spec_emit_row(cells: Seq<Cell>, mode: ColorMode) -> Seq<char> {
    if spec_has_color(mode) {
        spec_colored_cells(cells, mode) + (if spec_open_fg(cells) is Some {
            spec_reset()
        } else {
            Seq::empty()
        })
    } else {
        spec_plain_cells(cells)
    }
}

/// A grid as text: its rows, with a line feed between two rows and none
/// after the last.
pub open spec fn spec_emit(g: Seq<Seq<Cell>>, mode: ColorMode) -> Seq<char>
    decreases g.len(),
{
    if g.len() == 0 {
        Seq::empty()
    } else if g.len() == 1 {
        spec_emit_row(g[0], mode)
    } else {
        spec_emit(g.drop_last(), mode) + seq!['\n'] + spec_emit_row(g.last(), mode)
    }
}

/// Text in the plain mode holds no escape character, as long as no cell
/// of the grid holds one.
pub proof fn lemma_plain_row_has_no_codes(cells: Seq<Cell>, mode: ColorMode)
    requires
        !spec_has_color(mode),
        forall|c: int| 0 <= c < cells.len() ==> (#[trigger] cells[c]).ch != '\x1b',
    ensures
        spec_emit_row(cells, mode).len() == cells.len(),
        forall|i: int|
            0 <= i < cells.len() ==> (#[trigger] spec_emit_row(cells, mode)[i]) != '\x1b',
{
}

/// The index of an RGB colour in the 256-colour palette.
pub fn rgb_to_ansi256(r: u8, g: u8, b: u8) -> (code: u8)
    ensures
        code == spec_rgb_to_ansi256(r, g, b),
{
    if r == g && g == b {
        if r < 8 {
            return 16;
        }
        if r > 248 {
            return 231;
        }
        let step: u8 = (r - 8) / 10;
        if step >= 24 {
            return 255;
        }
        return 232 + step;
    }
    let rc: u16 = r as u16 * 5 / 255;
    let gc: u16 = g as u16 * 5 / 255;
    let bc: u16 = b as u16 * 5 / 255;
    (16 + 36 * rc + 6 * gc + bc) as u8
}

fn digit_char(d: u8) -> (c: char)
    requires
        d < 10,
    ensures
        c == (48 + d) as u8 as char,
{
    (48 + d) as char
}

fn push_decimal(out: &mut String, n: u8)
    ensures
        final(out)@ == old(out)@ + spec_decimal(n as nat),
{
    let ghost start = out@;
    if n >= 100 {
        out.push(digit_char(n / 100));
        out.push(digit_char(n / 10 % 10));
        out.push(digit_char(n % 10));
        proof {
            let a = (n / 100) as nat;
            assert(spec_decimal(a) == seq![(48 + a) as u8 as char]);
            assert(spec_decimal((n / 10) as nat) == spec_decimal(a).push(
                (48 + (n / 10) as nat % 10) as u8 as char,
            ));
            assert(spec_decimal(n as nat) == spec_decimal((n / 10) as nat).push(
                (48 + n as nat % 10) as u8 as char,
            ));
            assert(out@ =~= start + spec_decimal(n as nat));
        }
    } else if n >= 10 {
        out.push(digit_char(n / 10));
        out.push(digit_char(n % 10));
        proof {
            let a = (n / 10) as nat;
            assert(spec_decimal(a) == seq![(48 + a) as u8 as char]);
            assert(spec_decimal(n as nat) == spec_decimal(a).push(
                (48 + n as nat % 10) as u8 as char,
            ));
            assert(out@ =~= start + spec_decimal(n as nat));
        }
    } else {
        out.push(digit_char(n));
        assert(out@ =~= start + spec_decimal(n as nat));
    }
}

fn push_reset(out: &mut String)
    ensures
        final(out)@ == old(out)@ + spec_reset(),
{
    out.push('\x1b');
    out.push('[');
    out.push('0');
    out.push('m');
    assert(out@ =~= old(out)@ + spec_reset());
}

fn push_index_code(out: &mut String, code: u8)
    ensures
        final(out)@ == old(out)@ + spec_index_code(code),
{
    out.push('\x1b');
    out.push('[');
    out.push('3');
    out.push('8');
    out.push(';');
    out.push('5');
    out.push(';');
    push_decimal(out, code);
    out.push('m');
    assert(out@ =~= old(out)@ + spec_index_code(code));
}

/// Appends the code that selects a foreground colour.
pub fn push_fg_code(out: &mut String, color: Color, mode: ColorMode)
    ensures
        final(out)@ == old(out)@ + spec_fg_code(color, mode),
{
    match mode {
        ColorMode::TrueColor => match color {
            Color::Rgb(r, g, b) => {
                out.push('\x1b');
                out.push('[');
                out.push('3');
                out.push('8');
                out.push(';');
                out.push('2');
                out.push(';');
                push_decimal(out, r);
                out.push(';');
                push_decimal(out, g);
                out.push(';');
                push_decimal(out, b);
                out.push('m');
                assert(out@ =~= old(out)@ + spec_fg_code(color, mode));
            },
            Color::Ansi256(code) => {
                push_index_code(out, code);
            },
        },
        ColorMode::Ansi256 => {
            let code = match color {
                Color::Ansi256(v) => v,
                Color::Rgb(r, g, b) => rgb_to_ansi256(r, g, b),
            };
            push_index_code(out, code);
        },
        _ => {
            assert(out@ =~= old(out)@ + spec_fg_code(color, mode));
        },
    }
}

fn same_fg(a: Option<Color>, b: Option<Color>) -> (same: bool)
    ensures
        same == (a == b),
{
    match (a, b) {
        (Some(x), Some(y)) => x == y,
        (None, None) => true,
        _ => false,
    }
}

fn emit_row(out: &mut String, row: &Vec<Cell>, mode: ColorMode)
    ensures
        final(out)@ == old(out)@ + spec_emit_row(row@, mode),
{
    let colored = match mode {
        ColorMode::TrueColor => true,
        ColorMode::Ansi256 => true,
        _ => false,
    };
    let ghost start = out@;
    let mut current: Option<Color> = None;
    let mut c: usize = 0;
    assert(row@.take(0) =~= Seq::<Cell>::empty());
    assert(out@ =~= start + Seq::<char>::empty());
    while c < row.len()
        invariant
            c <= row@.len(),
            colored == spec_has_color(mode),
            colored ==> current == spec_open_fg(row@.take(c as int)),
            colored ==> out@ == start + spec_colored_cells(row@.take(c as int), mode),
            !colored ==> out@ == start + spec_plain_cells(row@.take(c as int)),
        decreases row@.len() - c,
    {
        let cell = row[c];
        let ch = if cell.visible {
            cell.ch
        } else {
            ' '
        };
        let ghost before = row@.take(c as int);
        let ghost upto = row@.take(c as int + 1);
        let ghost text = out@;
        proof {
            assert(upto.drop_last() =~= before);
            assert(upto.last() == cell);
        }
        if colored {
            let fg = if cell.visible {
                cell.fg
            } else {
                None
            };
            if !same_fg(fg, current) {
                match fg {
                    Some(color) => {
                        push_fg_code(out, color, mode);
                    },
                    None => {
                        push_reset(out);
                    },
                }
                current = fg;
            } else {
                assert(out@ =~= text + Seq::<char>::empty());
            }
            out.push(ch);
            assert(out@ =~= start + spec_colored_cells(upto, mode));
        } else {
            out.push(ch);
            assert(out@ =~= start + spec_plain_cells(upto));
        }
        c += 1;
    }
    assert(row@.take(row@.len() as int) =~= row@);
    if colored && current.is_some() {
        push_reset(out);
        assert(out@ =~= start + spec_emit_row(row@, mode));
    } else {
        assert(out@ =~= start + spec_emit_row(row@, mode));
    }
}

/// Writes a grid as text. The plain mode, and a mode that was left to the
/// caller to resolve, write the characters alone.
pub fn emit_ansi(grid: &Grid, color_mode: ColorMode) -> (out: String)
    ensures
        out@ == spec_emit(grid@, color_mode),
{
    let mut out = String::new();
    let rows = grid.rows();
    let mut r: usize = 0;
    assert(grid@.take(0) =~= Seq::<Seq<Cell>>::empty());
    while r < rows.len()
        invariant
            r <= rows@.len(),
            rows@.len() == grid@.len(),
            forall|k: int| 0 <= k < rows@.len() ==> (#[trigger] rows@[k])@ == grid@[k],
            out@ == spec_emit(grid@.take(r as int), color_mode),
        decreases rows@.len() - r,
    {
        let ghost before = grid@.take(r as int);
        let ghost upto = grid@.take(r as int + 1);
        proof {
            assert(upto.drop_last() =~= before);
            assert(upto.last() == rows@[r as int]@);
        }
        if r > 0 {
            out.push('\n');
        }
        emit_row(&mut out, &rows[r], color_mode);
        proof {
            if r == 0 {
                assert(out@ =~= spec_emit_row(upto[0], color_mode));
            } else {
                assert(out@ =~= spec_emit(before, color_mode) + seq!['\n'] + spec_emit_row(
                    upto.last(),
                    color_mode,
                ));
            }
        }
        r += 1;
    }
    assert(grid@.take(grid@.len() as int) =~= grid@);
    out
}

} // verus!

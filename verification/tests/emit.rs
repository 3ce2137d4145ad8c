use tui_banner::color::{Color, ColorMode};
use tui_banner::emit::{emit_ansi, push_fg_code, rgb_to_ansi256};
use tui_banner::grid::{Cell, Grid};

fn grid_of(rows: &[&str]) -> Grid {
    Grid::from_char_rows(rows.iter().map(|r| r.chars().collect()).collect())
}

fn paint(grid: &mut Grid, r: usize, c: usize, color: Color) {
    grid.cell_mut(r, c).unwrap().fg = Some(color);
}

#[test]
fn plain_emission_of_one_cell_is_its_character() {
    let grid = grid_of(&["X"]);
    let text = emit_ansi(&grid, ColorMode::NoColor);
    assert_eq!(text, "X");
    assert!(!text.contains('\x1b'));
    let mut colored = grid_of(&["X"]);
    paint(&mut colored, 0, 0, Color::Rgb(1, 2, 3));
    assert_eq!(emit_ansi(&colored, ColorMode::NoColor), "X");
}

#[test]
fn plain_emission_joins_rows_with_line_feeds() {
    let grid = grid_of(&["ab", " c"]);
    assert_eq!(emit_ansi(&grid, ColorMode::NoColor), "ab\n c");
    assert_eq!(emit_ansi(&Grid::new(0, 0), ColorMode::NoColor), "");
    assert_eq!(emit_ansi(&Grid::new(3, 0), ColorMode::NoColor), "\n\n");
    assert_eq!(emit_ansi(&Grid::new(2, 2), ColorMode::TrueColor), "  \n  ");
}

#[test]
fn an_unresolved_mode_writes_plain_text() {
    let mut grid = grid_of(&["ab"]);
    paint(&mut grid, 0, 0, Color::Rgb(1, 2, 3));
    assert_eq!(emit_ansi(&grid, ColorMode::Auto), "ab");
}

#[test]
fn true_colour_writes_the_three_channels() {
    let mut grid = grid_of(&["X"]);
    paint(&mut grid, 0, 0, Color::Rgb(0, 128, 255));
    assert_eq!(emit_ansi(&grid, ColorMode::TrueColor), "\x1b[38;2;0;128;255mX\x1b[0m");
}

#[test]
fn an_unchanged_colour_is_not_written_again() {
    let mut grid = grid_of(&["abc"]);
    paint(&mut grid, 0, 0, Color::Rgb(1, 2, 3));
    paint(&mut grid, 0, 1, Color::Rgb(1, 2, 3));
    paint(&mut grid, 0, 2, Color::Rgb(9, 9, 9));
    assert_eq!(
        emit_ansi(&grid, ColorMode::TrueColor),
        "\x1b[38;2;1;2;3mab\x1b[38;2;9;9;9mc\x1b[0m"
    );
}

#[test]
fn a_cell_without_colour_after_a_coloured_one_resets() {
    let mut grid = grid_of(&["a b", "c  "]);
    paint(&mut grid, 0, 0, Color::Rgb(1, 2, 3));
    paint(&mut grid, 0, 2, Color::Rgb(1, 2, 3));
    paint(&mut grid, 1, 0, Color::Rgb(4, 5, 6));
    assert_eq!(
        emit_ansi(&grid, ColorMode::TrueColor),
        "\x1b[38;2;1;2;3ma\x1b[0m \x1b[38;2;1;2;3mb\x1b[0m\n\x1b[38;2;4;5;6mc\x1b[0m  "
    );
}

#[test]
fn every_row_selects_its_colour_anew() {
    let mut grid = grid_of(&["a", "b"]);
    paint(&mut grid, 0, 0, Color::Rgb(1, 2, 3));
    paint(&mut grid, 1, 0, Color::Rgb(1, 2, 3));
    assert_eq!(
        emit_ansi(&grid, ColorMode::TrueColor),
        "\x1b[38;2;1;2;3ma\x1b[0m\n\x1b[38;2;1;2;3mb\x1b[0m"
    );
}

#[test]
fn rows_without_colour_have_no_codes() {
    let grid = grid_of(&["ab", "cd"]);
    assert_eq!(emit_ansi(&grid, ColorMode::TrueColor), "ab\ncd");
    assert_eq!(emit_ansi(&grid, ColorMode::Ansi256), "ab\ncd");
}

#[test]
fn indexed_mode_writes_the_palette_index() {
    let mut grid = grid_of(&["abc"]);
    paint(&mut grid, 0, 0, Color::Rgb(255, 0, 0));
    paint(&mut grid, 0, 1, Color::Ansi256(7));
    paint(&mut grid, 0, 2, Color::Rgb(128, 128, 128));
    assert_eq!(
        emit_ansi(&grid, ColorMode::Ansi256),
        "\x1b[38;5;196ma\x1b[38;5;7mb\x1b[38;5;244mc\x1b[0m"
    );
}

#[test]
fn true_colour_writes_an_indexed_colour_by_its_index() {
    let mut grid = grid_of(&["a"]);
    paint(&mut grid, 0, 0, Color::Ansi256(200));
    assert_eq!(emit_ansi(&grid, ColorMode::TrueColor), "\x1b[38;5;200ma\x1b[0m");
}

#[test]
fn invisible_cells_are_drawn_as_spaces_without_colour() {
    let mut grid = Grid::new(1, 3);
    *grid.cell_mut(0, 0).unwrap() =
        Cell { ch: 'a', fg: Some(Color::Rgb(1, 2, 3)), bg: None, visible: true };
    *grid.cell_mut(0, 1).unwrap() =
        Cell { ch: 'b', fg: Some(Color::Rgb(1, 2, 3)), bg: None, visible: false };
    *grid.cell_mut(0, 2).unwrap() =
        Cell { ch: 'c', fg: Some(Color::Rgb(1, 2, 3)), bg: None, visible: true };
    assert_eq!(emit_ansi(&grid, ColorMode::NoColor), "a c");
    assert_eq!(
        emit_ansi(&grid, ColorMode::TrueColor),
        "\x1b[38;2;1;2;3ma\x1b[0m \x1b[38;2;1;2;3mc\x1b[0m"
    );
}

#[test]
fn codes_are_pushed_for_each_mode() {
    let mut out = String::from(">");
    push_fg_code(&mut out, Color::Rgb(10, 200, 3), ColorMode::TrueColor);
    assert_eq!(out, ">\x1b[38;2;10;200;3m");
    let mut indexed = String::new();
    push_fg_code(&mut indexed, Color::Rgb(254, 128, 3), ColorMode::Ansi256);
    assert_eq!(indexed, "\x1b[38;5;172m");
    let mut plain = String::from("x");
    push_fg_code(&mut plain, Color::Rgb(1, 2, 3), ColorMode::NoColor);
    push_fg_code(&mut plain, Color::Ansi256(3), ColorMode::Auto);
    assert_eq!(plain, "x");
    let mut zero = String::new();
    push_fg_code(&mut zero, Color::Ansi256(0), ColorMode::Ansi256);
    assert_eq!(zero, "\x1b[38;5;0m");
}

#[test]
fn greys_map_to_the_ramp() {
    assert_eq!(rgb_to_ansi256(0, 0, 0), 16);
    assert_eq!(rgb_to_ansi256(7, 7, 7), 16);
    assert_eq!(rgb_to_ansi256(8, 8, 8), 232);
    assert_eq!(rgb_to_ansi256(17, 17, 17), 232);
    assert_eq!(rgb_to_ansi256(18, 18, 18), 233);
    assert_eq!(rgb_to_ansi256(128, 128, 128), 244);
    assert_eq!(rgb_to_ansi256(247, 247, 247), 255);
    assert_eq!(rgb_to_ansi256(248, 248, 248), 255);
    assert_eq!(rgb_to_ansi256(249, 249, 249), 231);
    assert_eq!(rgb_to_ansi256(255, 255, 255), 231);
}

#[test]
fn colours_map_to_the_cube() {
    assert_eq!(rgb_to_ansi256(255, 0, 0), 196);
    assert_eq!(rgb_to_ansi256(0, 255, 0), 46);
    assert_eq!(rgb_to_ansi256(0, 0, 255), 21);
    assert_eq!(rgb_to_ansi256(254, 128, 3), 172);
    assert_eq!(rgb_to_ansi256(100, 150, 200), 67);
    assert_eq!(rgb_to_ansi256(1, 0, 0), 16);
    assert_eq!(rgb_to_ansi256(255, 255, 254), 230);
}

use tui_banner::frame::{apply_frame, Frame, FrameStyle};
use tui_banner::grid::Grid;

#[test]
fn wraps_grid_with_frame() {
    let grid = Grid::from_char_rows(vec![vec!['A']]);
    let frame = Frame::new(FrameStyle::Single);
    let framed = apply_frame(grid, &frame);

    assert_eq!(framed.height(), 3);
    assert_eq!(framed.width(), 3);
    assert_eq!(framed.cell(0, 0).unwrap().ch, '┌');
    assert_eq!(framed.cell(0, 2).unwrap().ch, '┐');
    assert_eq!(framed.cell(2, 0).unwrap().ch, '└');
    assert_eq!(framed.cell(2, 2).unwrap().ch, '┘');
    assert_eq!(framed.cell(1, 1).unwrap().ch, 'A');
}

#[test]
fn built_in_styles_have_their_characters() {
    let single = FrameStyle::Single.chars();
    assert_eq!(
        (single.top_left, single.top_right, single.bottom_left, single.bottom_right),
        ('┌', '┐', '└', '┘')
    );
    assert_eq!((single.horizontal, single.vertical), ('─', '│'));
    let double = FrameStyle::Double.chars();
    assert_eq!((double.top_left, double.horizontal, double.vertical), ('╔', '═', '║'));
    let rounded = FrameStyle::Rounded.chars();
    assert_eq!((rounded.top_left, rounded.bottom_right), ('╭', '╯'));
    let heavy = FrameStyle::Heavy.chars();
    assert_eq!((heavy.top_right, heavy.bottom_left, heavy.horizontal), ('┓', '┗', '━'));
    let ascii = FrameStyle::Ascii.chars();
    assert_eq!(ascii, tui_banner::frame::FrameChars::new('+', '+', '+', '+', '-', '|'));
}

#[test]
fn frame_draws_edges_and_keeps_the_inside() {
    let grid = Grid::from_char_rows(vec![vec!['a', ' ', 'b'], vec![' ', 'c', ' ']]);
    let framed = apply_frame(grid, &Frame::new(FrameStyle::Ascii));
    let rows: Vec<String> =
        framed.rows().iter().map(|row| row.iter().map(|cell| cell.ch).collect()).collect();
    assert_eq!(rows, vec!["+---+", "|a b|", "| c |", "+---+"]);
    assert!(!framed.cell(1, 2).unwrap().visible);
    assert!(framed.cell(0, 1).unwrap().visible);
    assert_eq!(framed.cell(0, 1).unwrap().fg, None);
}

#[test]
fn frame_around_an_empty_grid_is_four_corners() {
    let framed = apply_frame(Grid::new(0, 0), &Frame::new(FrameStyle::Ascii));
    assert_eq!(framed.height(), 2);
    assert_eq!(framed.width(), 2);
    let rows: Vec<String> =
        framed.rows().iter().map(|row| row.iter().map(|cell| cell.ch).collect()).collect();
    assert_eq!(rows, vec!["++", "++"]);
}

#[test]
fn a_solid_frame_colours_the_border_only() {
    let grid = Grid::from_char_rows(vec![vec!['a']]);
    let frame = Frame::new(FrameStyle::Single).color(tui_banner::color::Color::Rgb(1, 2, 3));
    let framed = apply_frame(grid, &frame);
    for (r, c) in [(0, 0), (0, 1), (0, 2), (1, 0), (1, 2), (2, 0), (2, 1), (2, 2)] {
        assert_eq!(framed.cell(r, c).unwrap().fg, Some(tui_banner::color::Color::Rgb(1, 2, 3)));
    }
    assert_eq!(framed.cell(1, 1).unwrap().fg, None);
    assert_eq!(framed.cell(1, 1).unwrap().ch, 'a');
}

#[test]
fn a_gradient_frame_runs_over_the_outer_bounds() {
    let grid = Grid::from_char_rows(vec![vec!['a']]);
    let palette = tui_banner::color::Palette::from_hex(&["#000000", "#FFFFFF"]);
    let frame = Frame::new(FrameStyle::Single).gradient(tui_banner::gradient::Gradient::vertical(palette));
    let framed = apply_frame(grid, &frame);
    assert_eq!(framed.cell(0, 1).unwrap().fg, Some(tui_banner::color::Color::Rgb(0, 0, 0)));
    assert_eq!(framed.cell(1, 0).unwrap().fg, Some(tui_banner::color::Color::Rgb(128, 128, 128)));
    assert_eq!(framed.cell(2, 2).unwrap().fg, Some(tui_banner::color::Color::Rgb(255, 255, 255)));
    assert_eq!(framed.cell(1, 1).unwrap().fg, None);
}

#[test]
fn a_space_in_the_border_is_invisible() {
    let grid = Grid::from_char_rows(vec![vec!['a']]);
    let chars = tui_banner::frame::FrameChars::new('*', '*', '*', '*', ' ', '|');
    let framed = apply_frame(grid, &Frame::custom(chars).color(tui_banner::color::Color::Ansi256(1)));
    assert!(!framed.cell(0, 1).unwrap().visible);
    assert_eq!(framed.cell(0, 1).unwrap().fg, None);
    assert!(framed.cell(1, 0).unwrap().visible);
    assert_eq!(framed.cell(1, 0).unwrap().fg, Some(tui_banner::color::Color::Ansi256(1)));
}

#[test]
fn frame_accessors_give_what_was_set() {
    let frame = Frame::new(FrameStyle::Heavy);
    assert_eq!(frame.chars(), FrameStyle::Heavy.chars());
    assert!(frame.paint().is_none());
    let solid = frame.color(tui_banner::color::Color::Rgb(1, 1, 1));
    assert!(matches!(
        solid.paint(),
        Some(tui_banner::frame::FramePaint::Solid(tui_banner::color::Color::Rgb(1, 1, 1)))
    ));
}

use tui_banner::color::{Color, Palette};
use tui_banner::gradient::{Gradient, GradientDirection};
use tui_banner::grid::Grid;

fn solid(height: usize, width: usize) -> Grid {
    Grid::from_char_rows(vec![vec!['#'; width]; height])
}

fn black_to_white() -> Palette {
    Palette::from_hex(&["#000000", "#FFFFFF"])
}

fn fg(grid: &Grid, r: usize, c: usize) -> Option<Color> {
    grid.cell(r, c).unwrap().fg
}

#[test]
fn vertical_gradient_over_three_rows() {
    let mut grid = solid(3, 2);
    Gradient::vertical(black_to_white()).apply(&mut grid);
    for c in 0..2 {
        assert_eq!(fg(&grid, 0, c), Some(Color::Rgb(0, 0, 0)));
        assert_eq!(fg(&grid, 1, c), Some(Color::Rgb(128, 128, 128)));
        assert_eq!(fg(&grid, 2, c), Some(Color::Rgb(255, 255, 255)));
    }
}

#[test]
fn horizontal_gradient_over_four_columns() {
    let mut grid = solid(1, 4);
    Gradient::horizontal(black_to_white()).apply(&mut grid);
    assert_eq!(fg(&grid, 0, 0), Some(Color::Rgb(0, 0, 0)));
    assert_eq!(fg(&grid, 0, 1), Some(Color::Rgb(85, 85, 85)));
    assert_eq!(fg(&grid, 0, 2), Some(Color::Rgb(170, 170, 170)));
    assert_eq!(fg(&grid, 0, 3), Some(Color::Rgb(255, 255, 255)));
}

#[test]
fn diagonal_gradient_runs_over_row_plus_column() {
    let mut grid = solid(2, 2);
    Gradient::diagonal(black_to_white()).apply(&mut grid);
    assert_eq!(fg(&grid, 0, 0), Some(Color::Rgb(0, 0, 0)));
    assert_eq!(fg(&grid, 0, 1), Some(Color::Rgb(128, 128, 128)));
    assert_eq!(fg(&grid, 1, 0), Some(Color::Rgb(128, 128, 128)));
    assert_eq!(fg(&grid, 1, 1), Some(Color::Rgb(255, 255, 255)));
}

#[test]
fn gradient_on_a_single_cell_is_the_first_stop() {
    let stops = vec![Color::Rgb(9, 8, 7), Color::Rgb(200, 100, 50), Color::Rgb(1, 1, 1)];
    for direction in [
        GradientDirection::Vertical,
        GradientDirection::Horizontal,
        GradientDirection::Diagonal,
    ] {
        let mut grid = solid(1, 1);
        Gradient::new(stops.clone(), direction).apply(&mut grid);
        assert_eq!(fg(&grid, 0, 0), Some(Color::Rgb(9, 8, 7)));
    }
}

#[test]
fn a_palette_of_one_stop_colours_everything_alike() {
    let mut grid = solid(3, 3);
    Gradient::new(vec![Color::Rgb(5, 6, 7)], GradientDirection::Diagonal).apply(&mut grid);
    for r in 0..3 {
        for c in 0..3 {
            assert_eq!(fg(&grid, r, c), Some(Color::Rgb(5, 6, 7)));
        }
    }
}

#[test]
fn an_empty_palette_leaves_the_grid_alone() {
    let mut grid = solid(2, 2);
    Gradient::new(vec![], GradientDirection::Vertical).apply(&mut grid);
    for r in 0..2 {
        for c in 0..2 {
            assert_eq!(fg(&grid, r, c), None);
            assert_eq!(grid.cell(r, c).unwrap().ch, '#');
        }
    }
}

#[test]
fn invisible_cells_get_no_colour() {
    let mut grid = Grid::from_char_rows(vec![vec!['#', ' '], vec![' ', '#']]);
    Gradient::vertical(black_to_white()).apply(&mut grid);
    assert_eq!(fg(&grid, 0, 0), Some(Color::Rgb(0, 0, 0)));
    assert_eq!(fg(&grid, 0, 1), None);
    assert_eq!(fg(&grid, 1, 0), None);
    assert_eq!(fg(&grid, 1, 1), Some(Color::Rgb(255, 255, 255)));
}

#[test]
fn three_stops_are_passed_one_after_the_other() {
    let stops = vec![Color::Rgb(0, 0, 0), Color::Rgb(100, 0, 0), Color::Rgb(100, 200, 0)];
    let mut grid = solid(5, 1);
    Gradient::new(stops, GradientDirection::Vertical).apply(&mut grid);
    assert_eq!(fg(&grid, 0, 0), Some(Color::Rgb(0, 0, 0)));
    assert_eq!(fg(&grid, 1, 0), Some(Color::Rgb(50, 0, 0)));
    assert_eq!(fg(&grid, 2, 0), Some(Color::Rgb(100, 0, 0)));
    assert_eq!(fg(&grid, 3, 0), Some(Color::Rgb(100, 100, 0)));
    assert_eq!(fg(&grid, 4, 0), Some(Color::Rgb(100, 200, 0)));
}

#[test]
fn indexed_stops_are_not_interpolated() {
    let stops = vec![Color::Ansi256(1), Color::Ansi256(2)];
    let mut grid = solid(3, 1);
    Gradient::new(stops, GradientDirection::Vertical).apply(&mut grid);
    assert_eq!(fg(&grid, 0, 0), Some(Color::Ansi256(1)));
    assert_eq!(fg(&grid, 1, 0), Some(Color::Ansi256(1)));
    assert_eq!(fg(&grid, 2, 0), Some(Color::Ansi256(2)));
}

#[test]
fn gradient_keeps_characters_and_dimensions() {
    let mut grid = Grid::from_char_rows(vec![vec!['a', 'b'], vec!['c', ' ']]);
    Gradient::diagonal(black_to_white()).apply(&mut grid);
    assert_eq!(grid.height(), 2);
    assert_eq!(grid.width(), 2);
    assert_eq!(grid.cell(0, 1).unwrap().ch, 'b');
    assert_eq!(grid.cell(1, 0).unwrap().ch, 'c');
    assert!(!grid.cell(1, 1).unwrap().visible);
}

#[test]
fn gradient_on_an_empty_grid_does_nothing() {
    let mut grid = Grid::new(0, 0);
    Gradient::vertical(black_to_white()).apply(&mut grid);
    assert_eq!(grid.height(), 0);
}

use tui_banner::grid::{Align, Grid, Padding};
use tui_banner::layout::{apply_layout, clip_width, pad, target_width};

fn chars_of(grid: &Grid) -> Vec<String> {
    grid.rows().iter().map(|row| row.iter().map(|cell| cell.ch).collect()).collect()
}

fn grid_of(rows: &[&str]) -> Grid {
    Grid::from_char_rows(rows.iter().map(|r| r.chars().collect()).collect())
}

fn no_padding() -> Padding {
    Padding::uniform(0)
}

#[test]
fn padding_adds_blank_cells_on_each_side() {
    let grid = grid_of(&["ab", "cd"]);
    let out = pad(&grid, Padding { top: 1, bottom: 2, left: 3, right: 1 });
    assert_eq!(chars_of(&out), vec!["      ", "   ab ", "   cd ", "      ", "      "]);
    assert!(!out.cell(0, 0).unwrap().visible);
    assert!(out.cell(1, 3).unwrap().visible);
}

#[test]
fn uniform_padding_through_the_layout() {
    let out = apply_layout(grid_of(&["x"]), Padding::uniform(1), None, None, Align::Left);
    assert_eq!(chars_of(&out), vec!["   ", " x ", "   "]);
}

#[test]
fn layout_without_options_keeps_the_grid() {
    let out = apply_layout(grid_of(&["ab", "c "]), no_padding(), None, None, Align::Center);
    assert_eq!(chars_of(&out), vec!["ab", "c "]);
}

#[test]
fn target_width_prefers_the_explicit_width() {
    assert_eq!(target_width(10, None, None), None);
    assert_eq!(target_width(10, Some(4), None), Some(4));
    assert_eq!(target_width(10, Some(40), None), Some(40));
    assert_eq!(target_width(10, None, Some(6)), Some(6));
    assert_eq!(target_width(10, None, Some(60)), Some(10));
    assert_eq!(target_width(10, Some(4), Some(6)), Some(4));
    assert_eq!(target_width(10, Some(40), Some(6)), Some(40));
    assert_eq!(target_width(10, Some(0), Some(6)), Some(0));
    assert_eq!(target_width(10, None, Some(10)), Some(10));
}

#[test]
fn widening_shares_the_columns_by_alignment() {
    let left = apply_layout(grid_of(&["ab"]), no_padding(), Some(7), None, Align::Left);
    assert_eq!(chars_of(&left), vec!["ab     "]);
    let center = apply_layout(grid_of(&["ab"]), no_padding(), Some(7), None, Align::Center);
    assert_eq!(chars_of(&center), vec!["  ab   "]);
    let right = apply_layout(grid_of(&["ab"]), no_padding(), Some(7), None, Align::Right);
    assert_eq!(chars_of(&right), vec!["     ab"]);
}

#[test]
fn clipping_takes_the_window_by_alignment() {
    let left = apply_layout(grid_of(&["abcdefg"]), no_padding(), Some(3), None, Align::Left);
    assert_eq!(chars_of(&left), vec!["abc"]);
    let center = apply_layout(grid_of(&["abcdefg"]), no_padding(), Some(3), None, Align::Center);
    assert_eq!(chars_of(&center), vec!["cde"]);
    let right = apply_layout(grid_of(&["abcdefg"]), no_padding(), Some(3), None, Align::Right);
    assert_eq!(chars_of(&right), vec!["efg"]);
    let even = apply_layout(grid_of(&["abcdefg"]), no_padding(), Some(4), None, Align::Center);
    assert_eq!(chars_of(&even), vec!["bcde"]);
}

#[test]
fn max_width_clamps_the_natural_width() {
    let out = apply_layout(grid_of(&["abcdef"]), no_padding(), None, Some(4), Align::Left);
    assert_eq!(chars_of(&out), vec!["abcd"]);
    let wide = apply_layout(grid_of(&["abc"]), no_padding(), None, Some(10), Align::Right);
    assert_eq!(chars_of(&wide), vec!["abc"]);
}

#[test]
fn an_explicit_width_wins_over_the_greatest_width() {
    let one = apply_layout(grid_of(&["#"]), no_padding(), Some(5), Some(3), Align::Left);
    assert_eq!(one.width(), 5);
    assert_eq!(chars_of(&one), vec!["#    "]);
    let both = apply_layout(grid_of(&["abc"]), no_padding(), Some(9), Some(5), Align::Right);
    assert_eq!(chars_of(&both), vec!["      abc"]);
    let narrow = apply_layout(grid_of(&["abcdef"]), no_padding(), Some(2), Some(4), Align::Left);
    assert_eq!(chars_of(&narrow), vec!["ab"]);
    let same = apply_layout(grid_of(&["abcdef"]), no_padding(), Some(6), Some(4), Align::Left);
    assert_eq!(chars_of(&same), vec!["abcdef"]);
}

#[test]
fn the_width_counts_the_padding() {
    let out = apply_layout(
        grid_of(&["abc"]),
        Padding { top: 0, bottom: 0, left: 1, right: 1 },
        Some(3),
        None,
        Align::Center,
    );
    assert_eq!(chars_of(&out), vec!["abc"]);
    let left = apply_layout(
        grid_of(&["abc"]),
        Padding { top: 0, bottom: 0, left: 1, right: 1 },
        Some(3),
        None,
        Align::Left,
    );
    assert_eq!(chars_of(&left), vec![" ab"]);
}

#[test]
fn clip_to_zero_keeps_the_rows() {
    let out = clip_width(&grid_of(&["ab", "cd"]), 0, Align::Center);
    assert_eq!(out.height(), 2);
    assert_eq!(out.width(), 0);
}

#[test]
fn clip_wider_than_the_grid_is_blank_past_it() {
    let out = clip_width(&grid_of(&["ab"]), 4, Align::Right);
    assert_eq!(chars_of(&out), vec!["ab  "]);
    assert!(!out.cell(0, 3).unwrap().visible);
}

#[test]
fn clip_then_widen_restores_the_window() {
    let rows = ["abcdefgh", "ij  mnop"];
    for align in [Align::Left, Align::Right, Align::Center] {
        for target in 0..=8usize {
            let clipped = clip_width(&grid_of(&rows), target, align);
            assert_eq!(clipped.width(), target);
            let back = apply_layout(clipped, no_padding(), Some(8), None, align);
            assert_eq!(back.width(), 8);
            let start = match align {
                Align::Left => 0,
                Align::Center => (8 - target) / 2,
                Align::Right => 8 - target,
            };
            for (r, row) in rows.iter().enumerate() {
                for (c, ch) in row.chars().enumerate() {
                    let cell = back.cell(r, c).unwrap();
                    if c >= start && c < start + target && ch != ' ' {
                        assert_eq!(cell.ch, ch);
                        assert!(cell.visible);
                    } else {
                        assert_eq!(cell.ch, ' ');
                        assert!(!cell.visible);
                    }
                }
            }
        }
    }
}

#[test]
fn layout_of_an_empty_grid() {
    let out = apply_layout(Grid::new(0, 0), Padding::uniform(1), Some(4), None, Align::Center);
    assert_eq!(out.height(), 2);
    assert_eq!(out.width(), 4);
    assert_eq!(chars_of(&out), vec!["    ", "    "]);
}

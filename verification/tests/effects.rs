use tui_banner::color::{Color, Ratio};
use tui_banner::effects::dither::apply_dot_dither;
use tui_banner::effects::light_sweep::{
    apply_light_sweep, apply_light_sweep_tint, axis_last, axis_t, brighten, SweepDirection,
    SweepProfile,
};
use tui_banner::effects::outline::{apply_edge_shade, EdgeShade};
use tui_banner::effects::shadow::{apply_shadow, Shadow};
use tui_banner::fill::Dither;
use tui_banner::grid::{Cell, Grid};

fn chars_of(grid: &Grid) -> Vec<String> {
    grid.rows().iter().map(|row| row.iter().map(|cell| cell.ch).collect()).collect()
}

fn colored(rows: &[&str], color: Color) -> Grid {
    let mut grid = Grid::from_char_rows(rows.iter().map(|r| r.chars().collect()).collect());
    for r in 0..grid.height() {
        for c in 0..grid.width() {
            let cell = grid.cell_mut(r, c).unwrap();
            if cell.visible {
                cell.fg = Some(color);
            }
        }
    }
    grid
}

fn same_cells(a: &Grid, b: &Grid) -> bool {
    a.height() == b.height()
        && a.width() == b.width()
        && a.rows().iter().zip(b.rows()).all(|(x, y)| {
            x.len() == y.len()
                && x.iter().zip(y).all(|(p, q)| {
                    p.ch == q.ch && p.fg == q.fg && p.bg == q.bg && p.visible == q.visible
                })
        })
}

#[test]
fn dot_dither_draws_over_targets_only() {
    let grid = Grid::from_char_rows(vec!["░▒#░ ░".chars().collect()]);
    let out = apply_dot_dither(&grid, Dither::checker(1, ".:"), &['░', '▒']);
    assert_eq!(chars_of(&out), vec![".:#: :"]);
    assert_eq!(chars_of(&grid), vec!["░▒#░ ░"]);
}

#[test]
fn dot_dither_follows_the_pattern() {
    let grid = Grid::from_char_rows(vec![vec!['░'; 6]]);
    let out = apply_dot_dither(&grid, Dither::checker(3, ".:"), &['░']);
    assert_eq!(chars_of(&out), vec![".░░:░░"]);
    let none = apply_dot_dither(&grid, Dither::checker(0, ".:"), &['░']);
    assert_eq!(chars_of(&none), vec!["░░░░░░"]);
    let no_targets = apply_dot_dither(&grid, Dither::checker(1, ".:"), &[]);
    assert_eq!(chars_of(&no_targets), vec!["░░░░░░"]);
}

#[test]
fn dot_dither_skips_invisible_cells() {
    let mut grid = Grid::new(1, 2);
    grid.cell_mut(0, 0).unwrap().ch = '░';
    let out = apply_dot_dither(&grid, Dither::checker(1, "."), &['░', ' ']);
    assert_eq!(chars_of(&out), vec!["░ "]);
}

#[test]
fn shadow_without_offset_is_the_grid_itself() {
    let grid = colored(&["ab ", " c "], Color::Rgb(10, 20, 30));
    let out = apply_shadow(&grid, Shadow { offset: (0, 0), alpha: Ratio::new(1, 2) });
    assert!(same_cells(&grid, &out));
    let empty = Grid::new(0, 0);
    let same = apply_shadow(&empty, Shadow { offset: (0, 0), alpha: Ratio::one() });
    assert_eq!(same.height(), 0);
    assert_eq!(same.width(), 0);
}

#[test]
fn shadow_grows_the_grid_and_fills_gaps() {
    let grid = colored(&["ab", "c "], Color::Rgb(200, 100, 50));
    let out = apply_shadow(&grid, Shadow { offset: (1, 1), alpha: Ratio::new(1, 2) });
    assert_eq!(out.height(), 3);
    assert_eq!(out.width(), 3);
    assert_eq!(chars_of(&out), vec!["ab ", "cab", " c "]);
    assert_eq!(out.cell(0, 0).unwrap().fg, Some(Color::Rgb(200, 100, 50)));
    assert_eq!(out.cell(1, 0).unwrap().fg, Some(Color::Rgb(200, 100, 50)));
    assert_eq!(out.cell(1, 1).unwrap().fg, Some(Color::Rgb(100, 50, 25)));
    assert_eq!(out.cell(1, 2).unwrap().fg, Some(Color::Rgb(100, 50, 25)));
    assert_eq!(out.cell(2, 1).unwrap().fg, Some(Color::Rgb(100, 50, 25)));
    assert!(out.cell(1, 1).unwrap().visible);
    assert!(!out.cell(0, 2).unwrap().visible);
    assert!(!out.cell(2, 0).unwrap().visible);
    assert!(!out.cell(2, 2).unwrap().visible);
}

#[test]
fn shadow_never_covers_ink() {
    let grid = colored(&["aa", "aa"], Color::Rgb(100, 100, 100));
    let out = apply_shadow(&grid, Shadow { offset: (1, 0), alpha: Ratio::one() });
    assert_eq!(chars_of(&out), vec!["aaa", "aaa"]);
    for r in 0..2 {
        assert_eq!(out.cell(r, 0).unwrap().fg, Some(Color::Rgb(100, 100, 100)));
        assert_eq!(out.cell(r, 1).unwrap().fg, Some(Color::Rgb(100, 100, 100)));
        assert_eq!(out.cell(r, 2).unwrap().fg, Some(Color::Rgb(0, 0, 0)));
    }
}

#[test]
fn shadow_with_a_negative_offset_keeps_the_size() {
    let grid = colored(&[" a", " a"], Color::Rgb(10, 10, 10));
    let out = apply_shadow(&grid, Shadow { offset: (-1, 0), alpha: Ratio::zero() });
    assert_eq!(out.height(), 2);
    assert_eq!(out.width(), 2);
    assert_eq!(chars_of(&out), vec!["aa", "aa"]);
    let up = apply_shadow(&grid, Shadow { offset: (0, -1), alpha: Ratio::zero() });
    assert_eq!(chars_of(&up), vec![" a", " a"]);
    let far = apply_shadow(&grid, Shadow { offset: (-5, -5), alpha: Ratio::zero() });
    assert_eq!(chars_of(&far), vec![" a", " a"]);
}

#[test]
fn shadow_of_ink_without_colour_has_none() {
    let grid = Grid::from_char_rows(vec![vec!['a']]);
    let out = apply_shadow(&grid, Shadow { offset: (1, 0), alpha: Ratio::new(1, 2) });
    assert_eq!(chars_of(&out), vec!["aa"]);
    assert_eq!(out.cell(0, 1).unwrap().fg, None);
}

#[test]
fn edge_shade_surrounds_ink() {
    let grid = colored(&["   ", " a ", "   "], Color::Rgb(100, 200, 50));
    let out = apply_edge_shade(&grid, EdgeShade { ch: '.', darken: Ratio::new(1, 2) });
    assert_eq!(chars_of(&out), vec!["...", ".a.", "..."]);
    assert_eq!(out.cell(1, 1).unwrap().fg, Some(Color::Rgb(100, 200, 50)));
    for (r, c) in [(0, 0), (0, 1), (0, 2), (1, 0), (1, 2), (2, 0), (2, 1), (2, 2)] {
        assert!(out.cell(r, c).unwrap().visible);
        assert_eq!(out.cell(r, c).unwrap().fg, Some(Color::Rgb(50, 100, 25)));
    }
}

#[test]
fn edge_shade_does_not_cascade() {
    let grid = colored(&["a    "], Color::Rgb(10, 10, 10));
    let out = apply_edge_shade(&grid, EdgeShade { ch: '.', darken: Ratio::zero() });
    assert_eq!(chars_of(&out), vec!["a.   "]);
    assert!(!out.cell(0, 2).unwrap().visible);
}

#[test]
fn the_first_ink_in_reading_order_claims_an_edge_cell() {
    let mut grid = Grid::from_char_rows(vec!["a b".chars().collect(), "   ".chars().collect(), "c  ".chars().collect()]);
    grid.cell_mut(0, 0).unwrap().fg = Some(Color::Rgb(10, 0, 0));
    grid.cell_mut(0, 2).unwrap().fg = Some(Color::Rgb(0, 20, 0));
    grid.cell_mut(2, 0).unwrap().fg = Some(Color::Rgb(0, 0, 30));
    let out = apply_edge_shade(&grid, EdgeShade { ch: '+', darken: Ratio::zero() });
    assert_eq!(chars_of(&out), vec!["a+b", "+++", "c+ "]);
    assert_eq!(out.cell(0, 1).unwrap().fg, Some(Color::Rgb(10, 0, 0)));
    assert_eq!(out.cell(1, 0).unwrap().fg, Some(Color::Rgb(10, 0, 0)));
    assert_eq!(out.cell(1, 1).unwrap().fg, Some(Color::Rgb(10, 0, 0)));
    assert_eq!(out.cell(1, 2).unwrap().fg, Some(Color::Rgb(0, 20, 0)));
    assert_eq!(out.cell(2, 1).unwrap().fg, Some(Color::Rgb(0, 0, 30)));
    assert!(!out.cell(2, 2).unwrap().visible);
}

#[test]
fn edge_shade_on_a_grid_without_ink_changes_nothing() {
    let grid = Grid::new(2, 2);
    let out = apply_edge_shade(&grid, EdgeShade { ch: '.', darken: Ratio::one() });
    assert!(same_cells(&grid, &out));
}

#[test]
fn axis_steps_follow_the_direction() {
    assert_eq!(axis_last(SweepDirection::Horizontal, 5, 3), 4);
    assert_eq!(axis_last(SweepDirection::Vertical, 5, 3), 2);
    assert_eq!(axis_last(SweepDirection::DiagonalDown, 5, 3), 6);
    assert_eq!(axis_last(SweepDirection::DiagonalUp, 5, 3), 6);
    assert_eq!(axis_last(SweepDirection::Horizontal, 0, 0), 0);
    assert_eq!(axis_t(SweepDirection::Horizontal, 1, 3, 5, 3), 3);
    assert_eq!(axis_t(SweepDirection::Vertical, 1, 3, 5, 3), 1);
    assert_eq!(axis_t(SweepDirection::DiagonalDown, 1, 3, 5, 3), 4);
    assert_eq!(axis_t(SweepDirection::DiagonalUp, 1, 3, 5, 3), 2);
    assert_eq!(axis_t(SweepDirection::DiagonalUp, 0, 4, 5, 3), 0);
    assert_eq!(axis_t(SweepDirection::DiagonalUp, 2, 0, 5, 3), 6);
    assert_eq!(axis_t(SweepDirection::Horizontal, 0, 0, 1, 1), 0);
    assert_eq!(axis_t(SweepDirection::DiagonalDown, 0, 0, 1, 1), 0);
}

#[test]
fn brighten_moves_towards_white() {
    assert_eq!(brighten(Color::Rgb(0, 100, 255), Ratio::new(1, 2)), Color::Rgb(128, 178, 255));
    assert_eq!(brighten(Color::Rgb(0, 100, 255), Ratio::zero()), Color::Rgb(0, 100, 255));
    assert_eq!(brighten(Color::Rgb(0, 100, 255), Ratio::one()), Color::Rgb(255, 255, 255));
    assert_eq!(brighten(Color::Ansi256(3), Ratio::one()), Color::Ansi256(3));
}

#[test]
fn light_sweep_brightens_by_the_strength_at_each_step() {
    let mut grid = colored(&["aaa ", "aaaa"], Color::Rgb(0, 0, 0));
    let profile = SweepProfile {
        direction: SweepDirection::Horizontal,
        strengths: vec![Ratio::zero(), Ratio::new(1, 2), Ratio::one()],
    };
    apply_light_sweep(&mut grid, &profile);
    for r in 0..2 {
        assert_eq!(grid.cell(r, 0).unwrap().fg, Some(Color::Rgb(0, 0, 0)));
        assert_eq!(grid.cell(r, 1).unwrap().fg, Some(Color::Rgb(128, 128, 128)));
        assert_eq!(grid.cell(r, 2).unwrap().fg, Some(Color::Rgb(255, 255, 255)));
    }
    assert_eq!(grid.cell(0, 3).unwrap().fg, None);
    assert_eq!(grid.cell(1, 3).unwrap().fg, Some(Color::Rgb(0, 0, 0)));
}

#[test]
fn light_sweep_tint_moves_towards_the_highlight() {
    let mut grid = colored(&["a", "a", "a"], Color::Rgb(0, 0, 0));
    let profile = SweepProfile {
        direction: SweepDirection::Vertical,
        strengths: vec![Ratio::one(), Ratio::new(1, 2), Ratio::zero()],
    };
    apply_light_sweep_tint(&mut grid, &profile, Color::Rgb(200, 100, 0));
    assert_eq!(grid.cell(0, 0).unwrap().fg, Some(Color::Rgb(200, 100, 0)));
    assert_eq!(grid.cell(1, 0).unwrap().fg, Some(Color::Rgb(100, 50, 0)));
    assert_eq!(grid.cell(2, 0).unwrap().fg, Some(Color::Rgb(0, 0, 0)));
}

#[test]
fn light_sweep_leaves_cells_without_colour_alone() {
    let mut grid = Grid::from_char_rows(vec![vec!['a', 'b']]);
    let profile = SweepProfile {
        direction: SweepDirection::DiagonalUp,
        strengths: vec![Ratio::one(), Ratio::one()],
    };
    apply_light_sweep(&mut grid, &profile);
    assert_eq!(grid.cell(0, 0).unwrap().fg, None);
    assert_eq!(grid.cell(0, 1).unwrap().fg, None);
    let mut hidden = Grid::new(1, 1);
    *hidden.cell_mut(0, 0).unwrap() =
        Cell { ch: 'x', fg: Some(Color::Rgb(1, 1, 1)), bg: None, visible: false };
    apply_light_sweep(&mut hidden, &profile);
    assert_eq!(hidden.cell(0, 0).unwrap().fg, Some(Color::Rgb(1, 1, 1)));
}

#[test]
fn a_sweep_without_strength_changes_nothing() {
    for direction in [
        SweepDirection::Horizontal,
        SweepDirection::Vertical,
        SweepDirection::DiagonalDown,
        SweepDirection::DiagonalUp,
    ] {
        let grid = colored(&["ab c", " de "], Color::Rgb(10, 20, 30));
        for strengths in [
            vec![],
            vec![Ratio::zero(); 6],
            vec![Ratio::new(0, 7), Ratio::new(5, 0), Ratio::new(0, 0), Ratio::zero()],
        ] {
            let mut swept = grid.duplicate();
            apply_light_sweep(&mut swept, &SweepProfile { direction, strengths });
            assert!(same_cells(&grid, &swept));
        }
    }
}

#[test]
fn a_sweep_changes_foregrounds_of_ink_alone() {
    let mut grid = colored(&["ab c", " de "], Color::Rgb(10, 20, 30));
    grid.cell_mut(0, 0).unwrap().bg = Some(Color::Rgb(1, 1, 1));
    grid.cell_mut(1, 1).unwrap().fg = None;
    let before = grid.duplicate();
    let profile = SweepProfile {
        direction: SweepDirection::DiagonalDown,
        strengths: vec![Ratio::one(); 8],
    };
    apply_light_sweep_tint(&mut grid, &profile, Color::Rgb(200, 0, 0));
    assert_eq!(grid.height(), before.height());
    assert_eq!(grid.width(), before.width());
    for r in 0..2 {
        for c in 0..4 {
            let old = before.cell(r, c).unwrap();
            let new = grid.cell(r, c).unwrap();
            assert_eq!(new.ch, old.ch);
            assert_eq!(new.bg, old.bg);
            assert_eq!(new.visible, old.visible);
            if old.visible && old.fg.is_some() {
                assert_eq!(new.fg, Some(Color::Rgb(200, 0, 0)));
            } else {
                assert_eq!(new.fg, old.fg);
            }
        }
    }
}

#[test]
fn a_step_without_strength_keeps_its_cells() {
    let mut grid = colored(&["aaa"], Color::Rgb(0, 0, 0));
    let profile = SweepProfile {
        direction: SweepDirection::Horizontal,
        strengths: vec![Ratio::one(), Ratio::zero(), Ratio::one()],
    };
    apply_light_sweep(&mut grid, &profile);
    assert_eq!(grid.cell(0, 0).unwrap().fg, Some(Color::Rgb(255, 255, 255)));
    assert_eq!(grid.cell(0, 1).unwrap().fg, Some(Color::Rgb(0, 0, 0)));
    assert_eq!(grid.cell(0, 2).unwrap().fg, Some(Color::Rgb(255, 255, 255)));
}

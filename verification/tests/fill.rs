use tui_banner::fill::{
    apply_fill, dither_char, mix, parse_dots, should_dither, Dither, DitherMode, Fill,
};
use tui_banner::grid::Grid;

fn chars_of(grid: &Grid) -> Vec<String> {
    grid.rows().iter().map(|row| row.iter().map(|cell| cell.ch).collect()).collect()
}

#[test]
fn hash_has_its_exact_values() {
    assert_eq!(mix(0, 0, 0), 0);
    assert_eq!(mix(1, 2, 3), 595333698);
    assert_eq!(mix(42, 0, 0), 388445122);
    assert_eq!(mix(42, 5, 7), 1067221121);
    assert_eq!(mix(u32::MAX, u32::MAX, u32::MAX), 2627877485);
    assert_eq!(mix(7, 1, 0), 1498390088);
    assert_eq!(mix(7, 0, 1), 3390191309);
}

#[test]
fn noise_is_the_same_on_every_call() {
    let mode = DitherMode::Noise { seed: 42, threshold: 128 };
    let first: Vec<bool> = (0..8).map(|c| should_dither(0, c, mode)).collect();
    assert_eq!(first, vec![false, false, true, true, false, true, true, true]);
    for _ in 0..3 {
        let again: Vec<bool> = (0..8).map(|c| should_dither(0, c, mode)).collect();
        assert_eq!(again, first);
    }
}

#[test]
fn noise_compares_the_low_byte_with_the_threshold() {
    assert!(!should_dither(5, 7, DitherMode::Noise { seed: 42, threshold: 129 }));
    assert!(should_dither(5, 7, DitherMode::Noise { seed: 42, threshold: 130 }));
    assert!(!should_dither(0, 0, DitherMode::Noise { seed: 0, threshold: 0 }));
    assert!(should_dither(0, 0, DitherMode::Noise { seed: 0, threshold: 1 }));
    for c in 0..16 {
        assert!(!should_dither(3, c, DitherMode::Noise { seed: 9, threshold: 0 }));
    }
}

#[test]
fn checker_with_period_three_on_a_row_of_six() {
    let mode = DitherMode::Checker { period: 3 };
    let hits: Vec<usize> = (0..6).filter(|c| should_dither(0, *c, mode)).collect();
    assert_eq!(hits, vec![0, 3]);
    let mut grid = Grid::from_char_rows(vec![vec!['x'; 6]]);
    apply_fill(&mut grid, Fill::pixel_with_dither('#', Dither::checker(3, ".:")));
    assert_eq!(chars_of(&grid), vec![".##:##"]);
}

#[test]
fn checker_with_period_zero_never_dithers() {
    let mode = DitherMode::Checker { period: 0 };
    for r in 0..4 {
        for c in 0..4 {
            assert!(!should_dither(r, c, mode));
        }
    }
}

#[test]
fn checker_counts_row_plus_column() {
    let mode = DitherMode::Checker { period: 2 };
    assert!(should_dither(0, 0, mode));
    assert!(!should_dither(0, 1, mode));
    assert!(!should_dither(1, 0, mode));
    assert!(should_dither(1, 1, mode));
    assert!(should_dither(usize::MAX, usize::MAX, mode));
    assert!(should_dither(0, 7, DitherMode::Checker { period: 1 }));
}

#[test]
fn dither_char_goes_by_parity() {
    let dither = Dither::checker(1, "ab");
    assert_eq!(dither_char(dither, 0, 0), 'a');
    assert_eq!(dither_char(dither, 0, 1), 'b');
    assert_eq!(dither_char(dither, 1, 0), 'b');
    assert_eq!(dither_char(dither, 1, 1), 'a');
}

#[test]
fn dots_are_named_by_a_text() {
    assert_eq!(parse_dots(""), ('·', '·'));
    assert_eq!(parse_dots("x"), ('x', 'x'));
    assert_eq!(parse_dots("xy"), ('x', 'y'));
    assert_eq!(parse_dots("xyz"), ('x', 'y'));
    assert_eq!(parse_dots("░▒"), ('░', '▒'));
}

#[test]
fn dither_builders_keep_their_arguments() {
    let checker = Dither::checker(4, ".:");
    assert!(matches!(checker.mode, DitherMode::Checker { period: 4 }));
    assert_eq!((checker.dot, checker.alt), ('.', ':'));
    let noise = Dither::noise(7, 99, "*");
    assert!(matches!(noise.mode, DitherMode::Noise { seed: 7, threshold: 99 }));
    assert_eq!((noise.dot, noise.alt), ('*', '*'));
}

#[test]
fn fill_builders_give_their_variants() {
    assert!(matches!(Fill::default_blocks(), Fill::Blocks));
    assert!(matches!(Fill::pixel('%'), Fill::Pixel { block: '%', dither: None }));
    assert!(matches!(
        Fill::pixel_with_dither('%', Dither::checker(2, "ab")),
        Fill::Pixel { block: '%', dither: Some(_) }
    ));
}

#[test]
fn solid_fill_replaces_visible_characters() {
    let mut grid = Grid::from_char_rows(vec![vec!['a', ' ', 'b']]);
    apply_fill(&mut grid, Fill::Solid('*'));
    assert_eq!(chars_of(&grid), vec!["* *"]);
    assert!(!grid.cell(0, 1).unwrap().visible);
}

#[test]
fn blocks_fill_uses_the_hash_sign() {
    let mut grid = Grid::from_char_rows(vec![vec!['a', ' '], vec![' ', 'b']]);
    apply_fill(&mut grid, Fill::Blocks);
    assert_eq!(chars_of(&grid), vec!["# ", " #"]);
}

#[test]
fn keep_fill_changes_nothing() {
    let mut grid = Grid::from_char_rows(vec![vec!['a', ' ', 'b']]);
    apply_fill(&mut grid, Fill::Keep);
    assert_eq!(chars_of(&grid), vec!["a b"]);
}

#[test]
fn pixel_fill_without_dither_is_the_block() {
    let mut grid = Grid::from_char_rows(vec![vec!['a', ' ', 'b']]);
    apply_fill(&mut grid, Fill::pixel('█'));
    assert_eq!(chars_of(&grid), vec!["█ █"]);
}

#[test]
fn pixel_fill_with_noise_follows_the_hash() {
    let mut grid = Grid::from_char_rows(vec![vec!['x'; 8]]);
    apply_fill(&mut grid, Fill::pixel_with_dither('#', Dither::noise(42, 128, ".:")));
    assert_eq!(chars_of(&grid), vec!["##.:#:.:"]);
}

use tui_banner::color::{
    apply_breathe_color, parse_hex_color, Color, ColorMode, Palette, Preset, Ratio,
};

#[test]
fn lerp_of_a_colour_with_itself_is_that_colour() {
    let c = Color::Rgb(12, 200, 255);
    for num in 0..=10u64 {
        assert_eq!(c.lerp(c, Ratio::new(num, 10)), c);
    }
    assert_eq!(c.lerp(c, Ratio::new(7, 0)), c);
    assert_eq!(c.lerp(c, Ratio::new(99, 3)), c);
}

#[test]
fn lerp_reaches_both_ends() {
    let a = Color::Rgb(10, 20, 30);
    let b = Color::Rgb(200, 100, 0);
    assert_eq!(a.lerp(b, Ratio::zero()), a);
    assert_eq!(a.lerp(b, Ratio::new(0, 5)), a);
    assert_eq!(a.lerp(b, Ratio::one()), b);
    assert_eq!(a.lerp(b, Ratio::new(5, 5)), b);
}

#[test]
fn lerp_rounds_to_the_nearest_integer() {
    let black = Color::Rgb(0, 0, 0);
    let white = Color::Rgb(255, 255, 255);
    assert_eq!(black.lerp(white, Ratio::new(1, 2)), Color::Rgb(128, 128, 128));
    assert_eq!(black.lerp(white, Ratio::new(1, 3)), Color::Rgb(85, 85, 85));
    assert_eq!(black.lerp(white, Ratio::new(2, 3)), Color::Rgb(170, 170, 170));
    assert_eq!(
        Color::Rgb(10, 200, 0).lerp(Color::Rgb(20, 100, 0), Ratio::new(1, 4)),
        Color::Rgb(13, 175, 0)
    );
    assert_eq!(
        Color::Rgb(200, 0, 0).lerp(Color::Rgb(100, 0, 0), Ratio::new(1, 3)),
        Color::Rgb(167, 0, 0)
    );
}

#[test]
fn lerp_clamps_the_factor() {
    let a = Color::Rgb(10, 20, 30);
    let b = Color::Rgb(200, 100, 0);
    assert_eq!(a.lerp(b, Ratio::new(9, 2)), b);
    assert_eq!(a.lerp(b, Ratio::new(3, 0)), a);
}

#[test]
fn lerp_with_an_indexed_colour_keeps_the_left_operand() {
    let rgb = Color::Rgb(1, 2, 3);
    let indexed = Color::Ansi256(42);
    assert_eq!(rgb.lerp(indexed, Ratio::new(1, 2)), rgb);
    assert_eq!(indexed.lerp(rgb, Ratio::new(1, 2)), indexed);
    assert_eq!(indexed.lerp(Color::Ansi256(7), Ratio::one()), indexed);
}

#[test]
fn darken_scales_towards_black() {
    let c = Color::Rgb(200, 100, 51);
    assert_eq!(c.darken(Ratio::zero()), c);
    assert_eq!(c.darken(Ratio::one()), Color::Rgb(0, 0, 0));
    assert_eq!(c.darken(Ratio::new(1, 2)), Color::Rgb(100, 50, 26));
    assert_eq!(Color::Ansi256(9).darken(Ratio::new(1, 2)), Color::Ansi256(9));
}

#[test]
fn hex_colours_are_read() {
    assert_eq!(parse_hex_color("#000000"), Some(Color::Rgb(0, 0, 0)));
    assert_eq!(parse_hex_color("#FFFFFF"), Some(Color::Rgb(255, 255, 255)));
    assert_eq!(parse_hex_color("00E5FF"), Some(Color::Rgb(0, 229, 255)));
    assert_eq!(parse_hex_color("#7b5cff"), Some(Color::Rgb(123, 92, 255)));
    assert_eq!(parse_hex_color("  #aBcDeF\t"), Some(Color::Rgb(171, 205, 239)));
    assert_eq!(parse_hex_color("##102030"), Some(Color::Rgb(16, 32, 48)));
}

#[test]
fn malformed_hex_colours_are_refused() {
    assert_eq!(parse_hex_color(""), None);
    assert_eq!(parse_hex_color("#"), None);
    assert_eq!(parse_hex_color("#FFF"), None);
    assert_eq!(parse_hex_color("#FFFFFFF"), None);
    assert_eq!(parse_hex_color("#GGGGGG"), None);
    assert_eq!(parse_hex_color("#12 456"), None);
    assert_eq!(parse_hex_color("#+1+2+3"), None);
    assert_eq!(parse_hex_color("#12345é"), None);
    assert_eq!(parse_hex_color("12345#"), None);
}

#[test]
fn palette_from_hex_keeps_the_valid_entries_in_order() {
    let palette = Palette::from_hex(&["#000000", "nope", "#FFFFFF", "#12", "#010203"]);
    assert_eq!(
        palette.colors(),
        &[Color::Rgb(0, 0, 0), Color::Rgb(255, 255, 255), Color::Rgb(1, 2, 3)]
    );
    assert!(Palette::from_hex(&[]).colors().is_empty());
    assert!(Palette::from_hex(&["x", "y"]).colors().is_empty());
}

#[test]
fn palette_new_keeps_its_colours() {
    let colors = vec![Color::Ansi256(3), Color::Rgb(1, 2, 3)];
    assert_eq!(Palette::new(colors.clone()).colors(), colors.as_slice());
}

#[test]
fn presets_hold_their_stops() {
    assert_eq!(
        Palette::preset(Preset::NeonCyber).colors(),
        Palette::from_hex(&["#00E5FF", "#7B5CFF", "#FF5AD9"]).colors()
    );
    assert_eq!(
        Palette::preset(Preset::ArcticTech).colors(),
        Palette::from_hex(&["#00E5FF", "#3A7BFF", "#E6F6FF"]).colors()
    );
    assert_eq!(
        Palette::preset(Preset::SunsetNeon).colors(),
        Palette::from_hex(&["#FF8A00", "#FF4FD8", "#7B5CFF"]).colors()
    );
    assert_eq!(
        Palette::preset(Preset::ForestSky).colors(),
        Palette::from_hex(&["#22C55E", "#14B8A6", "#2563EB"]).colors()
    );
    assert_eq!(
        Palette::preset(Preset::Chrome).colors(),
        Palette::from_hex(&["#F5F5F5", "#BDBDBD", "#6B7280", "#E5E7EB"]).colors()
    );
    assert_eq!(
        Palette::preset(Preset::CrtAmber).colors(),
        Palette::from_hex(&["#FFB000", "#FF8C00", "#7A3E00"]).colors()
    );
    assert_eq!(
        Palette::preset(Preset::OceanFlow).colors(),
        Palette::from_hex(&["#2563EB", "#0EA5A4", "#5EEAD4"]).colors()
    );
    assert_eq!(
        Palette::preset(Preset::DeepSpace).colors(),
        Palette::from_hex(&["#1E3A8A", "#5B21B6", "#312E81"]).colors()
    );
    assert_eq!(
        Palette::preset(Preset::FireWarning).colors(),
        Palette::from_hex(&["#FACC15", "#FB923C", "#EF4444"]).colors()
    );
    assert_eq!(
        Palette::preset(Preset::WarmLuxury).colors(),
        Palette::from_hex(&["#FF5AD9", "#FF8FAB", "#FFD166"]).colors()
    );
    assert_eq!(
        Palette::preset(Preset::EarthTone).colors(),
        Palette::from_hex(&["#E6CCB2", "#B08968", "#6B705C"]).colors()
    );
    assert_eq!(
        Palette::preset(Preset::RoyalPurple).colors(),
        Palette::from_hex(&["#E9D5FF", "#A855F7", "#581C87"]).colors()
    );
    assert_eq!(
        Palette::preset(Preset::Matrix).colors(),
        Palette::from_hex(&["#00FF9C", "#00C46A", "#003B24"]).colors()
    );
}

#[test]
fn colour_modes_are_distinct() {
    assert_ne!(ColorMode::Auto, ColorMode::NoColor);
    assert_ne!(ColorMode::TrueColor, ColorMode::Ansi256);
}

#[test]
fn breathe_dims_then_brightens() {
    let c = Color::Rgb(100, 200, 0);
    assert_eq!(apply_breathe_color(c, Ratio::zero(), Ratio::zero()), c);
    assert_eq!(apply_breathe_color(c, Ratio::new(1, 2), Ratio::zero()), Color::Rgb(50, 100, 0));
    assert_eq!(apply_breathe_color(c, Ratio::zero(), Ratio::new(1, 2)), Color::Rgb(178, 228, 128));
    assert_eq!(
        apply_breathe_color(c, Ratio::new(1, 2), Ratio::new(1, 2)),
        Color::Rgb(153, 178, 128)
    );
    assert_eq!(apply_breathe_color(Color::Ansi256(5), Ratio::one(), Ratio::one()), Color::Ansi256(5));
}

#[test]
fn ratio_keeps_its_parts() {
    let r = Ratio::new(3, 7);
    assert_eq!((r.num, r.den), (3, 7));
    assert_eq!((Ratio::zero().num, Ratio::zero().den), (0, 1));
    assert_eq!((Ratio::one().num, Ratio::one().den), (1, 1));
}

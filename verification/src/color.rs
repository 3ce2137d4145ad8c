//! Colours, unit-interval ratios, interpolation and palettes.

use vstd::prelude::*;
use crate::text::{hex_value, spec_hex_value, spec_strip_leading, spec_trim, strip_leading, to_chars, trim};

verus! {

/// A colour: 24-bit RGB or an index into the 256-colour terminal palette.
#[derive(Clone, Copy, Debug, PartialEq, Eq, Structural)]
pub enum Color {
    /// 24-bit RGB colour.
    Rgb(u8, u8, u8),
    /// Index into the 256-colour palette.
    Ansi256(u8),
}

/// How colours are written to the terminal.
#[derive(Clone, Copy, Debug, PartialEq, Eq, Structural)]
pub enum ColorMode {
    /// Left to the caller to resolve from the terminal's capabilities.
    Auto,
    /// 24-bit escape codes.
    TrueColor,
    /// 256-colour escape codes.
    Ansi256,
    /// Plain characters without escape codes.
    NoColor,
}

/// A factor in the unit interval, held exactly as `num / den`.
///
/// A numerator above the denominator reads as one, and a zero denominator
/// reads as zero, so every value of this type is a valid factor.
#[derive(Clone, Copy, Debug)]
pub struct Ratio {
    /// Numerator.
    pub num: u64,
    /// Denominator.
    pub den: u64,
}

impl Ratio {
    /// The denominator the factor is read over: `den`, or one where `den`
    /// is zero.
    pub open spec fn scale(self) -> int {
        spec_unit_scale(self.den as int)
    }

    /// The numerator after clamping into `[0, scale]`.
    pub open spec fn part(self) -> int {
        spec_unit_part(self.num as int, self.den as int)
    }

    /// The factor `num / den`.
    pub fn new(num: u64, den: u64) -> (r: Ratio)
        ensures
            r.num == num,
            r.den == den,
    {
        Ratio { num, den }
    }

    /// The factor zero.
    pub fn zero() -> (r: Ratio)
        ensures
            r.part() == 0,
            r.scale() == 1,
            r.num == 0,
            r.den == 1,
    {
        Ratio { num: 0, den: 1 }
    }

    /// The factor one.
    pub fn one() -> (r: Ratio)
        ensures
            r.part() == 1,
            r.scale() == 1,
            r.num == 1,
            r.den == 1,
    {
        Ratio { num: 1, den: 1 }
    }
}

/// The denominator a factor is read over: `den`, or one where `den` is
/// not positive.
pub open spec fn spec_unit_scale(den: int) -> int {
    if den <= 0 {
        1
    } else {
        den
    }
}

/// The numerator of a factor after clamping into `[0, scale]`; zero where
/// the denominator is not positive.
pub open spec fn spec_unit_part(num: int, den: int) -> int {
    if den <= 0 || num <= 0 {
        0
    } else if num > den {
        den
    } else {
        num
    }
}

/// One channel of a linear interpolation from `a` to `b` by `num / den`,
/// rounded to the nearest integer with halves rounded up.
pub open spec fn spec_mix_channel(a: u8, b: u8, num: int, den: int) -> int {
    let d = spec_unit_scale(den);
    let n = spec_unit_part(num, den);
    (2 * (a * (d - n) + b * n) + d) / (2 * d)
}

/// The interpolation of two colours by `num / den`: channel by channel for
/// two RGB colours, the left operand otherwise.
pub open spec fn spec_mix(a: Color, b: Color, num: int, den: int) -> Color {
    match (a, b) {
        (Color::Rgb(r1, g1, b1), Color::Rgb(r2, g2, b2)) => Color::Rgb(
            spec_mix_channel(r1, r2, num, den) as u8,
            spec_mix_channel(g1, g2, num, den) as u8,
            spec_mix_channel(b1, b2, num, den) as u8,
        ),
        _ => a,
    }
}

/// The interpolation of two colours by a factor.
pub open spec fn spec_lerp(a: Color, b: Color, t: Ratio) -> Color {
    spec_mix(a, b, t.num as int, t.den as int)
}

/// The colour scaled towards black by a factor: zero keeps it, one gives
/// black. A colour that is not RGB stays as it is.
pub open spec fn spec_darken(color: Color, amount: Ratio) -> Color {
    spec_lerp(color, Color::Rgb(0, 0, 0), amount)
}

/// A colour dimmed towards black by one factor and then brightened towards
/// white by another.
pub open spec fn spec_breathe(color: Color, dim: Ratio, bright: Ratio) -> Color {
    spec_lerp(spec_lerp(color, Color::Rgb(0, 0, 0), dim), Color::Rgb(255, 255, 255), bright)
}

/// An interpolated channel lies between zero and 255.
pub proof fn lemma_mix_channel_range(a: u8, b: u8, num: int, den: int)
    ensures
        0 <= spec_mix_channel(a, b, num, den) <= 255,
{
    let d = spec_unit_scale(den);
    let n = spec_unit_part(num, den);
    let s = a * (d - n) + b * n;
    assert(0 <= s <= 255 * d) by (nonlinear_arith)
        requires
            0 <= n <= d,
            0 <= a <= 255,
            0 <= b <= 255,
            s == a * (d - n) + b * n,
    ;
    assert(0 <= (2 * s + d) / (2 * d) <= 255) by (nonlinear_arith)
        requires
            0 <= s <= 255 * d,
            d >= 1,
    ;
}

fn mix_channel(a: u8, b: u8, num: u128, den: u128) -> (c: u8)
    requires
        den <= 0x1_0000_0000_0000_0000_0000,
    ensures
        c == spec_mix_channel(a, b, num as int, den as int),
{
    let d: u128 = if den == 0 {
        1
    } else {
        den
    };
    let n: u128 = if den == 0 {
        0
    } else if num > den {
        den
    } else {
        num
    };
    proof {
        lemma_mix_channel_range(a, b, num as int, den as int);
        assert(a * (d - n) <= 255 * d) by (nonlinear_arith)
            requires
                0 <= n <= d,
                0 <= a <= 255,
        ;
        assert(b * n <= 255 * d) by (nonlinear_arith)
            requires
                0 <= n <= d,
                0 <= b <= 255,
        ;
    }
    let left: u128 = (a as u128) * (d - n);
    let right: u128 = (b as u128) * n;
    let v: u128 = (2 * (left + right) + d) / (2 * d);
    v as u8
}

/// The interpolation of two colours by `num / den`.
pub(crate) fn mix(a: Color, b: Color, num: u128, den: u128) -> (c: Color)
    requires
        den <= 0x1_0000_0000_0000_0000_0000,
    ensures
        c == spec_mix(a, b, num as int, den as int),
{
    match (a, b) {
        (Color::Rgb(r1, g1, b1), Color::Rgb(r2, g2, b2)) => Color::Rgb(
            mix_channel(r1, r2, num, den),
            mix_channel(g1, g2, num, den),
            mix_channel(b1, b2, num, den),
        ),
        _ => a,
    }
}

impl Color {
    /// Linear interpolation from `self` to `other` by the factor `t`, each
    /// channel rounded to the nearest integer. Where one of the two is not
    /// RGB, the result is `self`.
    pub fn lerp(self, other: Color, t: Ratio) -> (c: Color)
        ensures
            c == spec_lerp(self, other, t),
    {
        mix(self, other, t.num as u128, t.den as u128)
    }

    /// The colour scaled towards black by a factor.
    pub fn darken(self, amount: Ratio) -> (c: Color)
        ensures
            c == spec_darken(self, amount),
    {
        self.lerp(Color::Rgb(0, 0, 0), amount)
    }
}

/// Dims a colour towards black by one factor, then brightens it towards
/// white by another.
pub fn apply_breathe_color(color: Color, dim: Ratio, bright: Ratio) -> (c: Color)
    ensures
        c == spec_breathe(color, dim, bright),
{
    color.lerp(Color::Rgb(0, 0, 0), dim).lerp(Color::Rgb(255, 255, 255), bright)
}

proof fn lemma_mix_channel_same(a: u8, num: int, den: int)
    ensures
        spec_mix_channel(a, a, num, den) == a,
{
    let d = spec_unit_scale(den);
    let n = spec_unit_part(num, den);
    assert(a * (d - n) + a * n == a * d) by (nonlinear_arith);
    assert((2 * (a * d) + d) / (2 * d) == a) by (nonlinear_arith)
        requires
            d >= 1,
            a >= 0,
    ;
}

proof fn lemma_mix_channel_ends(a: u8, b: u8, num: int, den: int)
    ensures
        spec_unit_part(num, den) == 0 ==> spec_mix_channel(a, b, num, den) == a,
        spec_unit_part(num, den) == spec_unit_scale(den) ==> spec_mix_channel(a, b, num, den) == b,
{
    let d = spec_unit_scale(den);
    let n = spec_unit_part(num, den);
    if n == 0 {
        assert(a * (d - 0) + b * 0 == a * d) by (nonlinear_arith);
        assert((2 * (a * d) + d) / (2 * d) == a) by (nonlinear_arith)
            requires
                d >= 1,
                a >= 0,
        ;
    }
    if n == d {
        assert(a * (d - d) + b * d == b * d) by (nonlinear_arith);
        assert((2 * (b * d) + d) / (2 * d) == b) by (nonlinear_arith)
            requires
                d >= 1,
                b >= 0,
        ;
    }
}

/// Interpolating a colour with itself gives that colour, whatever the factor.
pub proof fn lemma_mix_same(c: Color, num: int, den: int)
    ensures
        spec_mix(c, c, num, den) == c,
{
    match c {
        Color::Rgb(r, g, b) => {
            lemma_mix_channel_same(r, num, den);
            lemma_mix_channel_same(g, num, den);
            lemma_mix_channel_same(b, num, den);
        },
        _ => {},
    }
}

/// A factor of zero gives the left colour.
pub proof fn lemma_mix_zero(a: Color, b: Color, num: int, den: int)
    requires
        spec_unit_part(num, den) == 0,
    ensures
        spec_mix(a, b, num, den) == a,
{
    match (a, b) {
        (Color::Rgb(r1, g1, b1), Color::Rgb(r2, g2, b2)) => {
            lemma_mix_channel_ends(r1, r2, num, den);
            lemma_mix_channel_ends(g1, g2, num, den);
            lemma_mix_channel_ends(b1, b2, num, den);
        },
        _ => {},
    }
}

/// A factor of one gives the right colour, where both colours are RGB.
pub proof fn lemma_mix_one(a: Color, b: Color, num: int, den: int)
    requires
        spec_unit_part(num, den) == spec_unit_scale(den),
        a is Rgb,
        b is Rgb,
    ensures
        spec_mix(a, b, num, den) == b,
{
    match (a, b) {
        (Color::Rgb(r1, g1, b1), Color::Rgb(r2, g2, b2)) => {
            lemma_mix_channel_ends(r1, r2, num, den);
            lemma_mix_channel_ends(g1, g2, num, den);
            lemma_mix_channel_ends(b1, b2, num, den);
        },
        _ => {},
    }
}

/// Interpolating a colour with itself gives that colour, whatever the factor.
pub proof fn lemma_lerp_same(c: Color, t: Ratio)
    ensures
        spec_lerp(c, c, t) == c,
{
    lemma_mix_same(c, t.num as int, t.den as int);
}

/// The factor zero gives the left colour.
pub proof fn lemma_lerp_zero(a: Color, b: Color, t: Ratio)
    requires
        t.part() == 0,
    ensures
        spec_lerp(a, b, t) == a,
{
    lemma_mix_zero(a, b, t.num as int, t.den as int);
}

/// The factor one gives the right colour, where both colours are RGB; where
/// one of them is not, the result is the left colour.
pub proof fn lemma_lerp_one(a: Color, b: Color, t: Ratio)
    requires
        t.part() == t.scale(),
    ensures
        a is Rgb && b is Rgb ==> spec_lerp(a, b, t) == b,
        !(a is Rgb && b is Rgb) ==> spec_lerp(a, b, t) == a,
{
    if a is Rgb && b is Rgb {
        lemma_mix_one(a, b, t.num as int, t.den as int);
    }
}

/// An ordered sequence of colours, the stops of a gradient.
#[derive(Clone, Debug)]
pub struct Palette {
    colors: Vec<Color>,
}

/// Named palettes.
#[derive(Clone, Copy, Debug, PartialEq, Eq, Structural)]
pub enum Preset {
    /// Cyan, purple, pink.
    NeonCyber,
    /// Cyan, blue, white.
    ArcticTech,
    /// Orange, pink, purple.
    SunsetNeon,
    /// Green, teal, blue.
    ForestSky,
    /// Silver metallic.
    Chrome,
    /// Retro amber.
    CrtAmber,
    /// Blue, teal, aqua.
    OceanFlow,
    /// Blue, purple, indigo.
    DeepSpace,
    /// Yellow, orange, red.
    FireWarning,
    /// Pink, coral, gold.
    WarmLuxury,
    /// Sand, earth, olive.
    EarthTone,
    /// Lavender, purple, deep purple.
    RoyalPurple,
    /// Neon green, deep green.
    Matrix,
}

impl View for Palette {
    type V = Seq<Color>;

    closed spec fn view(&self) -> Seq<Color> {
        self.colors@
    }
}

/// The digits of a hex colour: the text without the white space around it
/// and without the `#` signs at its start.
pub open spec fn spec_hex_body(s: Seq<char>) -> Seq<char> {
    spec_strip_leading(spec_trim(s), '#')
}

/// The byte that two hexadecimal digits write.
pub open spec fn spec_hex_pair(hi: char, lo: char) -> u8 {
    (16 * spec_hex_value(hi)->0 + spec_hex_value(lo)->0) as u8
}

/// The colour that a hex string writes: exactly six hexadecimal digits,
/// two for each of red, green and blue. Any other text writes none.
pub open spec fn spec_parse_hex(s: Seq<char>) -> Option<Color> {
    let body = spec_hex_body(s);
    if body.len() == 6 && (forall|i: int| 0 <= i < 6 ==> (#[trigger] spec_hex_value(body[i])) is Some) {
        Some(
            Color::Rgb(
                spec_hex_pair(body[0], body[1]),
                spec_hex_pair(body[2], body[3]),
                spec_hex_pair(body[4], body[5]),
            ),
        )
    } else {
        None
    }
}

/// The colours that a list of hex strings writes, in order; a string that
/// writes no colour is left out.
pub open spec fn spec_hex_colors(hexes: Seq<Seq<char>>) -> Seq<Color>
    decreases hexes.len(),
{
    if hexes.len() == 0 {
        Seq::empty()
    } else {
        let rest = spec_hex_colors(hexes.drop_last());
        match spec_parse_hex(hexes.last()) {
            Some(c) => rest.push(c),
            None => rest,
        }
    }
}

/// The texts held by a slice of string slices.
pub open spec fn spec_texts(hexes: Seq<&str>) -> Seq<Seq<char>> {
    Seq::new(hexes.len(), |i: int| hexes[i]@)
}

fn hex_pair(hi: char, lo: char) -> (v: Option<u8>)
    ensures
        v is Some <==> (spec_hex_value(hi) is Some && spec_hex_value(lo) is Some),
        v is Some ==> v->0 == spec_hex_pair(hi, lo),
{
    match (hex_value(hi), hex_value(lo)) {
        (Some(h), Some(l)) => Some(16 * h + l),
        _ => None,
    }
}

/// Reads a hex colour such as `#00E5FF`.
pub fn parse_hex_color(input: &str) -> (c: Option<Color>)
    ensures
        c == spec_parse_hex(input@),
{
    let chars = to_chars(input);
    let trimmed = trim(&chars);
    let body = strip_leading(&trimmed, '#');
    if body.len() != 6 {
        return None;
    }
    match (hex_pair(body[0], body[1]), hex_pair(body[2], body[3]), hex_pair(body[4], body[5])) {
        (Some(r), Some(g), Some(b)) => {
            assert forall|i: int| 0 <= i < 6 implies (#[trigger] spec_hex_value(body@[i])) is Some by {
                assert(i == 0 || i == 1 || i == 2 || i == 3 || i == 4 || i == 5);
            }
            Some(Color::Rgb(r, g, b))
        },
        _ => {
            assert(!(forall|i: int| 0 <= i < 6 ==> (#[trigger] spec_hex_value(body@[i])) is Some)) by {
                if forall|i: int| 0 <= i < 6 ==> (#[trigger] spec_hex_value(body@[i])) is Some {
                    assert(spec_hex_value(body@[0]) is Some);
                    assert(spec_hex_value(body@[1]) is Some);
                    assert(spec_hex_value(body@[2]) is Some);
                    assert(spec_hex_value(body@[3]) is Some);
                    assert(spec_hex_value(body@[4]) is Some);
                    assert(spec_hex_value(body@[5]) is Some);
                }
            }
            None
        },
    }
}

impl Preset {
    /// The stops of the named palette.
    pub open spec fn spec_stops(self) -> Seq<Color> {
        match self {
            Preset::NeonCyber => seq![
                Color::Rgb(0x00, 0xE5, 0xFF),
                Color::Rgb(0x7B, 0x5C, 0xFF),
                Color::Rgb(0xFF, 0x5A, 0xD9),
            ],
            Preset::ArcticTech => seq![
                Color::Rgb(0x00, 0xE5, 0xFF),
                Color::Rgb(0x3A, 0x7B, 0xFF),
                Color::Rgb(0xE6, 0xF6, 0xFF),
            ],
            Preset::SunsetNeon => seq![
                Color::Rgb(0xFF, 0x8A, 0x00),
                Color::Rgb(0xFF, 0x4F, 0xD8),
                Color::Rgb(0x7B, 0x5C, 0xFF),
            ],
            Preset::ForestSky => seq![
                Color::Rgb(0x22, 0xC5, 0x5E),
                Color::Rgb(0x14, 0xB8, 0xA6),
                Color::Rgb(0x25, 0x63, 0xEB),
            ],
            Preset::Chrome => seq![
                Color::Rgb(0xF5, 0xF5, 0xF5),
                Color::Rgb(0xBD, 0xBD, 0xBD),
                Color::Rgb(0x6B, 0x72, 0x80),
                Color::Rgb(0xE5, 0xE7, 0xEB),
            ],
            Preset::CrtAmber => seq![
                Color::Rgb(0xFF, 0xB0, 0x00),
                Color::Rgb(0xFF, 0x8C, 0x00),
                Color::Rgb(0x7A, 0x3E, 0x00),
            ],
            Preset::OceanFlow => seq![
                Color::Rgb(0x25, 0x63, 0xEB),
                Color::Rgb(0x0E, 0xA5, 0xA4),
                Color::Rgb(0x5E, 0xEA, 0xD4),
            ],
            Preset::DeepSpace => seq![
                Color::Rgb(0x1E, 0x3A, 0x8A),
                Color::Rgb(0x5B, 0x21, 0xB6),
                Color::Rgb(0x31, 0x2E, 0x81),
            ],
            Preset::FireWarning => seq![
                Color::Rgb(0xFA, 0xCC, 0x15),
                Color::Rgb(0xFB, 0x92, 0x3C),
                Color::Rgb(0xEF, 0x44, 0x44),
            ],
            Preset::WarmLuxury => seq![
                Color::Rgb(0xFF, 0x5A, 0xD9),
                Color::Rgb(0xFF, 0x8F, 0xAB),
                Color::Rgb(0xFF, 0xD1, 0x66),
            ],
            Preset::EarthTone => seq![
                Color::Rgb(0xE6, 0xCC, 0xB2),
                Color::Rgb(0xB0, 0x89, 0x68),
                Color::Rgb(0x6B, 0x70, 0x5C),
            ],
            Preset::RoyalPurple => seq![
                Color::Rgb(0xE9, 0xD5, 0xFF),
                Color::Rgb(0xA8, 0x55, 0xF7),
                Color::Rgb(0x58, 0x1C, 0x87),
            ],
            Preset::Matrix => seq![
                Color::Rgb(0x00, 0xFF, 0x9C),
                Color::Rgb(0x00, 0xC4, 0x6A),
                Color::Rgb(0x00, 0x3B, 0x24),
            ],
        }
    }
}

impl Palette {
    /// A palette of the given colours.
    pub fn new(colors: Vec<Color>) -> (p: Palette)
        ensures
            p@ == colors@,
    {
        Palette { colors }
    }

    /// A palette from hex strings. A string that writes no colour is left
    /// out; the others keep their order.
    pub fn from_hex(hexes: &[&str]) -> (p: Palette)
        ensures
            p@ == spec_hex_colors(spec_texts(hexes@)),
    {
        let ghost texts = spec_texts(hexes@);
        let mut colors: Vec<Color> = Vec::new();
        let mut i: usize = 0;
        assert(texts.take(0) =~= Seq::<Seq<char>>::empty());
        while i < hexes.len()
            invariant
                i <= hexes@.len(),
                texts == spec_texts(hexes@),
                colors@ == spec_hex_colors(texts.take(i as int)),
            decreases hexes@.len() - i,
        {
            let parsed = parse_hex_color(hexes[i]);
            proof {
                assert(texts.take(i as int + 1).drop_last() =~= texts.take(i as int));
                assert(texts.take(i as int + 1).last() == hexes@[i as int]@);
            }
            match parsed {
                Some(color) => {
                    colors.push(color);
                },
                None => {},
            }
            i += 1;
        }
        assert(texts.take(hexes@.len() as int) =~= texts);
        Palette { colors }
    }

    /// The named palette.
    pub fn preset(preset: Preset) -> (p: Palette)
        ensures
            p@ == preset.spec_stops(),
    {
        let colors = match preset {
            Preset::NeonCyber => vec![
                Color::Rgb(0x00, 0xE5, 0xFF),
                Color::Rgb(0x7B, 0x5C, 0xFF),
                Color::Rgb(0xFF, 0x5A, 0xD9),
            ],
            Preset::ArcticTech => vec![
                Color::Rgb(0x00, 0xE5, 0xFF),
                Color::Rgb(0x3A, 0x7B, 0xFF),
                Color::Rgb(0xE6, 0xF6, 0xFF),
            ],
            Preset::SunsetNeon => vec![
                Color::Rgb(0xFF, 0x8A, 0x00),
                Color::Rgb(0xFF, 0x4F, 0xD8),
                Color::Rgb(0x7B, 0x5C, 0xFF),
            ],
            Preset::ForestSky => vec![
                Color::Rgb(0x22, 0xC5, 0x5E),
                Color::Rgb(0x14, 0xB8, 0xA6),
                Color::Rgb(0x25, 0x63, 0xEB),
            ],
            Preset::Chrome => vec![
                Color::Rgb(0xF5, 0xF5, 0xF5),
                Color::Rgb(0xBD, 0xBD, 0xBD),
                Color::Rgb(0x6B, 0x72, 0x80),
                Color::Rgb(0xE5, 0xE7, 0xEB),
            ],
            Preset::CrtAmber => vec![
                Color::Rgb(0xFF, 0xB0, 0x00),
                Color::Rgb(0xFF, 0x8C, 0x00),
                Color::Rgb(0x7A, 0x3E, 0x00),
            ],
            Preset::OceanFlow => vec![
                Color::Rgb(0x25, 0x63, 0xEB),
                Color::Rgb(0x0E, 0xA5, 0xA4),
                Color::Rgb(0x5E, 0xEA, 0xD4),
            ],
            Preset::DeepSpace => vec![
                Color::Rgb(0x1E, 0x3A, 0x8A),
                Color::Rgb(0x5B, 0x21, 0xB6),
                Color::Rgb(0x31, 0x2E, 0x81),
            ],
            Preset::FireWarning => vec![
                Color::Rgb(0xFA, 0xCC, 0x15),
                Color::Rgb(0xFB, 0x92, 0x3C),
                Color::Rgb(0xEF, 0x44, 0x44),
            ],
            Preset::WarmLuxury => vec![
                Color::Rgb(0xFF, 0x5A, 0xD9),
                Color::Rgb(0xFF, 0x8F, 0xAB),
                Color::Rgb(0xFF, 0xD1, 0x66),
            ],
            Preset::EarthTone => vec![
                Color::Rgb(0xE6, 0xCC, 0xB2),
                Color::Rgb(0xB0, 0x89, 0x68),
                Color::Rgb(0x6B, 0x70, 0x5C),
            ],
            Preset::RoyalPurple => vec![
                Color::Rgb(0xE9, 0xD5, 0xFF),
                Color::Rgb(0xA8, 0x55, 0xF7),
                Color::Rgb(0x58, 0x1C, 0x87),
            ],
            Preset::Matrix => vec![
                Color::Rgb(0x00, 0xFF, 0x9C),
                Color::Rgb(0x00, 0xC4, 0x6A),
                Color::Rgb(0x00, 0x3B, 0x24),
            ],
        };
        Palette { colors }
    }

    /// The colours of the palette, in order.
    pub fn colors(&self) -> (colors: &[Color])
        ensures
            colors@ == self@,
    {
        self.colors.as_slice()
    }
}

} // verus!

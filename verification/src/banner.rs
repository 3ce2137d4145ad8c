//! The banner builder: a text, a font and the effects laid over them, and
//! the pipeline that renders them.

use vstd::prelude::*;
use crate::color::{Color, ColorMode, Palette, Ratio};
use crate::effects::dither::{apply_dot_dither, spec_dot_dither};
use crate::effects::light_sweep::{
    apply_light_sweep_tint,
    spec_light_sweep,
    SweepDirection,
    SweepProfile,
};
use crate::effects::outline::{apply_edge_shade, spec_edge_shade, EdgeShade};
use crate::effects::shadow::{apply_shadow, spec_shadow, Shadow};
use crate::emit::{emit_ansi, spec_emit};
use crate::fill::{apply_fill, parse_dots, spec_apply_fill, spec_parse_dots, Dither, DitherMode, Fill};
use crate::font::figlet::{parse, spec_parse, FigletError};
use crate::font::{render_text, spec_font_wf, spec_render_text, Font, FontModel};
use crate::frame::{apply_frame, spec_frame, Frame, FrameChars, PaintModel};
use crate::gradient::{spec_apply_gradient, Gradient, GradientDirection};
use crate::grid::{spec_trim_vertical, Align, Cell, Grid, Padding};
use crate::layout::{apply_layout, spec_layout};
use crate::style::Style;
use crate::text::to_chars;

verus! {

/// A banner: a text, a font and the effects laid over them.
#[derive(Clone, Debug)]
pub struct Banner {
    text: String,
    font: Font,
    gradient: Option<Gradient>,
    fill: Fill,
    light_sweep: Option<SweepProfile>,
    shadow: Option<Shadow>,
    edge_shade: Option<EdgeShade>,
    dot_dither: Option<Dither>,
    dot_dither_targets: Option<Vec<char>>,
    align: Align,
    padding: Padding,
    frame: Option<Frame>,
    width: Option<usize>,
    max_width: Option<usize>,
    kerning: usize,
    line_gap: usize,
    trim_vertical: bool,
    color_mode: ColorMode,
}

/// Why a banner could not be made.
#[derive(Clone, Copy, Debug, PartialEq, Eq, Structural)]
pub enum BannerError {
    /// The font description could not be read.
    Font(FigletError),
}

/// What a banner holds.
pub ghost struct BannerModel {
    /// The text.
    pub text: Seq<char>,
    /// The font.
    pub font: FontModel,
    /// The stops and the axis of the gradient.
    pub gradient: Option<(Seq<Color>, GradientDirection)>,
    /// The fill.
    pub fill: Fill,
    /// The axis and the strengths of the light sweep.
    pub light_sweep: Option<(SweepDirection, Seq<Ratio>)>,
    /// The drop shadow.
    pub shadow: Option<Shadow>,
    /// The edge shade.
    pub edge_shade: Option<EdgeShade>,
    /// The dot dither.
    pub dot_dither: Option<Dither>,
    /// The characters that the dot dither draws over.
    pub dot_dither_targets: Option<Seq<char>>,
    /// The alignment.
    pub align: Align,
    /// The padding.
    pub padding: Padding,
    /// The characters and the colouring of the frame.
    pub frame: Option<(FrameChars, PaintModel)>,
    /// The explicit width.
    pub width: Option<usize>,
    /// The greatest width.
    pub max_width: Option<usize>,
    /// The blank columns between two characters.
    pub kerning: usize,
    /// The blank rows between two lines.
    pub line_gap: usize,
    /// Whether blank rows at the top and at the bottom are dropped.
    pub trim_vertical: bool,
    /// The colour mode.
    pub color_mode: ColorMode,
}

/// The characters that a dot dither draws over where none were chosen.
pub open spec fn spec_default_targets() -> Seq<char> {
    seq!['░', '▒']
}

/// The banner that a new builder starts from: block fill, aligned to the
/// left, no padding, one blank column between characters, no blank rows
/// between lines, the colour mode left to the caller, and no effect.
pub open spec fn spec_new_banner(text: Seq<char>, font: FontModel) -> BannerModel {
    BannerModel {
        text,
        font,
        gradient: None,
        fill: Fill::Blocks,
        light_sweep: None,
        shadow: None,
        edge_shade: None,
        dot_dither: None,
        dot_dither_targets: None,
        align: Align::Left,
        padding: Padding { top: 0, bottom: 0, left: 0, right: 0 },
        frame: None,
        width: None,
        max_width: None,
        kerning: 1,
        line_gap: 0,
        trim_vertical: false,
        color_mode: ColorMode::Auto,
    }
}

/// The grid at the stage where the light sweep is laid over it: the text
/// laid out, filled and coloured by the gradient.
pub open spec fn spec_render_base(m: BannerModel) -> Seq<Seq<Cell>> {
    let laid = spec_render_text(m.font, m.text, m.kerning as nat, m.line_gap as nat);
    let filled = spec_apply_fill(m.fill, laid);
    match m.gradient {
        Some((stops, direction)) => spec_apply_gradient(stops, direction, filled),
        None => filled,
    }
}

/// The grid after the effects that follow the gradient: light sweep, dot
/// dither, edge shade, drop shadow and trimming, in this order. The sweep
/// moves the colours towards `highlight`.
pub open spec fn spec_render_effects(
    m: BannerModel,
    sweep: Option<(SweepDirection, Seq<Ratio>)>,
    highlight: Color,
    base: Seq<Seq<Cell>>,
) -> Seq<Seq<Cell>> {
    let swept = match sweep {
        Some((direction, strengths)) => spec_light_sweep(direction, strengths, highlight, base),
        None => base,
    };
    let dithered = match m.dot_dither {
        Some(dither) => spec_dot_dither(
            dither,
            match m.dot_dither_targets {
                Some(targets) => targets,
                None => spec_default_targets(),
            },
            swept,
        ),
        None => swept,
    };
    let edged = match m.edge_shade {
        Some(shade) => spec_edge_shade(shade, dithered),
        None => dithered,
    };
    let shadowed = match m.shadow {
        Some(shadow) => spec_shadow(shadow, edged),
        None => edged,
    };
    if m.trim_vertical {
        spec_trim_vertical(shadowed)
    } else {
        shadowed
    }
}

/// The grid that a banner renders under a given light sweep: the text laid
/// out, then fill, gradient, light sweep, dot dither, edge shade, drop
/// shadow, trimming, layout and frame, each where the banner has it.
pub open spec fn spec_render_grid_with(
    m: BannerModel,
    sweep: Option<(SweepDirection, Seq<Ratio>)>,
    highlight: Color,
) -> Seq<Seq<Cell>> {
    let laid_out = spec_layout(
        spec_render_effects(m, sweep, highlight, spec_render_base(m)),
        m.padding,
        m.width,
        m.max_width,
        m.align,
    );
    match m.frame {
        Some((chars, paint)) => spec_frame(laid_out, chars, paint),
        None => laid_out,
    }
}

/// The light sweep that a rendering uses: the one given for it, or else
/// the one of the banner.
pub open spec fn spec_sweep_choice(
    m: BannerModel,
    sweep_override: Option<SweepProfile>,
) -> Option<(SweepDirection, Seq<Ratio>)> {
    match sweep_override {
        Some(profile) => Some((profile.direction, profile.strengths@)),
        None => m.light_sweep,
    }
}

/// The highlight that a rendering uses: the one given for it, or else white.
pub open spec fn spec_highlight_choice(highlight: Option<Color>) -> Color {
    match highlight {
        Some(color) => color,
        None => Color::Rgb(255, 255, 255),
    }
}

/// The grid that a banner renders, with its own light sweep in white.
pub open spec fn spec_render_grid(m: BannerModel) -> Seq<Seq<Cell>> {
    spec_render_grid_with(m, m.light_sweep, Color::Rgb(255, 255, 255))
}

/// The text that a banner renders.
pub open spec fn spec_render(m: BannerModel) -> Seq<char> {
    spec_emit(spec_render_grid(m), m.color_mode)
}

/// What an error says.
pub open spec fn spec_message(error: BannerError) -> Seq<char> {
    match error {
        BannerError::Font(FigletError::InvalidHeader) => "font parse error: InvalidHeader"@,
        BannerError::Font(FigletError::MissingData) => "font parse error: MissingData"@,
        BannerError::Font(FigletError::InvalidNumber) => "font parse error: InvalidNumber"@,
    }
}

impl BannerError {
    /// What the error says.
    pub fn message(&self) -> (s: String)
        ensures
            s@ == spec_message(*self),
    {
        match self {
            BannerError::Font(FigletError::InvalidHeader) => "font parse error: InvalidHeader".to_owned(),
            BannerError::Font(FigletError::MissingData) => "font parse error: MissingData".to_owned(),
            BannerError::Font(FigletError::InvalidNumber) => "font parse error: InvalidNumber".to_owned(),
        }
    }
}

impl From<FigletError> for BannerError {
    fn from(err: FigletError) -> (e: BannerError) {
        BannerError::Font(err)
    }
}

impl vstd::std_specs::convert::FromSpecImpl<FigletError> for BannerError {
    open spec fn obeys_from_spec() -> bool {
        true
    }

    open spec fn from_spec(err: FigletError) -> BannerError {
        BannerError::Font(err)
    }
}

fn copy_targets(targets: &[char]) -> (out: Vec<char>)
    ensures
        out@ == targets@,
{
    let mut out: Vec<char> = Vec::new();
    let mut i: usize = 0;
    while i < targets.len()
        invariant
            i <= targets@.len(),
            out@ == targets@.take(i as int),
        decreases targets@.len() - i,
    {
        out.push(targets[i]);
        i += 1;
        assert(out@ =~= targets@.take(i as int));
    }
    assert(targets@.take(targets@.len() as int) =~= targets@);
    out
}

impl View for Banner {
    type V = BannerModel;

    closed spec fn view(&self) -> BannerModel {
        BannerModel {
            text: self.text@,
            font: self.font@,
            gradient: match self.gradient {
                Some(g) => Some((g.spec_stops(), g.spec_direction())),
                None => None,
            },
            fill: self.fill,
            light_sweep: match self.light_sweep {
                Some(p) => Some((p.direction, p.strengths@)),
                None => None,
            },
            shadow: self.shadow,
            edge_shade: self.edge_shade,
            dot_dither: self.dot_dither,
            dot_dither_targets: match self.dot_dither_targets {
                Some(t) => Some(t@),
                None => None,
            },
            align: self.align,
            padding: self.padding,
            frame: match self.frame {
                Some(f) => Some((f.spec_chars(), f.spec_paint())),
                None => None,
            },
            width: self.width,
            max_width: self.max_width,
            kerning: self.kerning,
            line_gap: self.line_gap,
            trim_vertical: self.trim_vertical,
            color_mode: self.color_mode,
        }
    }
}

impl Banner {
    /// The font of the banner is well formed.
    pub open spec fn wf(&self) -> bool {
        spec_font_wf(self@.font)
    }

    /// A banner of a text in the font that a description holds. It fails
    /// where the description holds no font.
    pub fn new(text: &str, font_data: &str) -> (r: Result<Banner, BannerError>)
        ensures
            match r {
                Ok(banner) => spec_parse(font_data@) is Ok && banner@ == spec_new_banner(
                    text@,
                    spec_parse(font_data@)->Ok_0,
                ) && banner.wf(),
                Err(e) => spec_parse(font_data@) is Err && e == BannerError::Font(
                    spec_parse(font_data@)->Err_0,
                ),
            },
    {
        match parse(font_data) {
            Ok(font) => Ok(Banner::with_font(text, font)),
            Err(e) => Err(BannerError::from(e)),
        }
    }

    /// A banner of a text in a font.
    pub fn with_font(text: &str, font: Font) -> (banner: Banner)
        requires
            font.wf(),
        ensures
            banner@ == spec_new_banner(text@, font@),
            banner.wf(),
    {
        Banner {
            text: text.to_owned(),
            font,
            gradient: None,
            fill: Fill::Blocks,
            light_sweep: None,
            shadow: None,
            edge_shade: None,
            dot_dither: None,
            dot_dither_targets: None,
            align: Align::Left,
            padding: Padding::uniform(0),
            frame: None,
            width: None,
            max_width: None,
            kerning: 1,
            line_gap: 0,
            trim_vertical: false,
            color_mode: ColorMode::Auto,
        }
    }

    /// The banner in another font.
    pub fn font(self, font: Font) -> (b: Banner)
        requires
            font.wf(),
        ensures
            b@ == (BannerModel { font: font@, ..self@ }),
            b.wf(),
    {
        let mut b = self;
        b.font = font;
        b
    }

    /// The banner in a named style: true colour, the palette of the style
    /// as a gradient from top to bottom, and the characters of the glyphs.
    pub fn style(self, style: Style) -> (b: Banner)
        ensures
            b@ == (BannerModel {
                color_mode: ColorMode::TrueColor,
                gradient: Some((style.spec_preset().spec_stops(), GradientDirection::Vertical)),
                fill: Fill::Keep,
                ..self@
            }),
    {
        let mut b = self;
        b.color_mode = ColorMode::TrueColor;
        b.gradient = Some(Gradient::vertical(Palette::preset(style.preset())));
        b.fill = Fill::Keep;
        b
    }

    /// The banner under a gradient.
    pub fn gradient(self, gradient: Gradient) -> (b: Banner)
        ensures
            b@ == (BannerModel {
                gradient: Some((gradient.spec_stops(), gradient.spec_direction())),
                ..self@
            }),
    {
        let mut b = self;
        b.gradient = Some(gradient);
        b
    }

    /// The banner with a fill.
    pub fn fill(self, fill: Fill) -> (b: Banner)
        ensures
            b@ == (BannerModel { fill, ..self@ }),
    {
        let mut b = self;
        b.fill = fill;
        b
    }

    /// The banner with a drop shadow.
    pub fn shadow(self, offset: (i32, i32), alpha: Ratio) -> (b: Banner)
        ensures
            b@ == (BannerModel { shadow: Some(Shadow { offset, alpha }), ..self@ }),
    {
        let mut b = self;
        b.shadow = Some(Shadow { offset, alpha });
        b
    }

    /// The banner with a light sweep.
    pub fn light_sweep(self, sweep: SweepProfile) -> (b: Banner)
        ensures
            b@ == (BannerModel {
                light_sweep: Some((sweep.direction, sweep.strengths@)),
                ..self@
            }),
    {
        let mut b = self;
        b.light_sweep = Some(sweep);
        b
    }

    /// The banner with an edge of one cell in a darker colour.
    pub fn edge_shade(self, darken: Ratio, ch: char) -> (b: Banner)
        ensures
            b@ == (BannerModel { edge_shade: Some(EdgeShade { ch, darken }), ..self@ }),
    {
        let mut b = self;
        b.edge_shade = Some(EdgeShade { ch, darken });
        b
    }

    /// The banner with a dot dither.
    pub fn dot_dither(self, dither: Dither) -> (b: Banner)
        ensures
            b@ == (BannerModel { dot_dither: Some(dither), ..self@ }),
    {
        let mut b = self;
        b.dot_dither = Some(dither);
        b
    }

    /// The banner with the characters that the dot dither draws over.
    pub fn dot_dither_targets(self, targets: &[char]) -> (b: Banner)
        ensures
            b@ == (BannerModel { dot_dither_targets: Some(targets@), ..self@ }),
    {
        let mut b = self;
        b.dot_dither_targets = Some(copy_targets(targets));
        b
    }

    /// The banner with the characters that the dot dither draws over, given
    /// as a text.
    pub fn dot_dither_targets_str(self, targets: &str) -> (b: Banner)
        ensures
            b@ == (BannerModel { dot_dither_targets: Some(targets@), ..self@ }),
    {
        let mut b = self;
        b.dot_dither_targets = Some(to_chars(targets));
        b
    }

    /// A builder for the dot dither of the banner.
    pub fn dither(self) -> (builder: DotDitherBuilder)
        ensures
            builder.spec_banner() == self@,
            builder.spec_targets() == spec_default_targets(),
            builder.spec_dots() == ('░', '░'),
    {
        DotDitherBuilder::new(self)
    }

    /// The banner with an alignment.
    pub fn align(self, align: Align) -> (b: Banner)
        ensures
            b@ == (BannerModel { align, ..self@ }),
    {
        let mut b = self;
        b.align = align;
        b
    }

    /// The banner with blank cells around it.
    pub fn padding(self, padding: Padding) -> (b: Banner)
        ensures
            b@ == (BannerModel { padding, ..self@ }),
    {
        let mut b = self;
        b.padding = padding;
        b
    }

    /// The banner inside a frame.
    pub fn frame(self, frame: Frame) -> (b: Banner)
        ensures
            b@ == (BannerModel { frame: Some((frame.spec_chars(), frame.spec_paint())), ..self@ }),
    {
        let mut b = self;
        b.frame = Some(frame);
        b
    }

    /// The banner with an explicit width: it is widened or clipped to it,
    /// whatever the greatest width is.
    pub fn width(self, width: usize) -> (b: Banner)
        ensures
            b@ == (BannerModel { width: Some(width), ..self@ }),
    {
        let mut b = self;
        b.width = Some(width);
        b
    }

    /// The banner with a greatest width: it caps the width of the banner
    /// where no explicit width is given.
    pub fn max_width(self, width: usize) -> (b: Banner)
        ensures
            b@ == (BannerModel { max_width: Some(width), ..self@ }),
    {
        let mut b = self;
        b.max_width = Some(width);
        b
    }

    /// The banner with `kerning` blank columns between two characters.
    pub fn kerning(self, kerning: usize) -> (b: Banner)
        ensures
            b@ == (BannerModel { kerning, ..self@ }),
    {
        let mut b = self;
        b.kerning = kerning;
        b
    }

    /// The banner with `line_gap` blank rows between two lines.
    pub fn line_gap(self, line_gap: usize) -> (b: Banner)
        ensures
            b@ == (BannerModel { line_gap, ..self@ }),
    {
        let mut b = self;
        b.line_gap = line_gap;
        b
    }

    /// The banner with or without its blank rows at the top and at the bottom.
    pub fn trim_vertical(self, enabled: bool) -> (b: Banner)
        ensures
            b@ == (BannerModel { trim_vertical: enabled, ..self@ }),
    {
        let mut b = self;
        b.trim_vertical = enabled;
        b
    }

    /// The banner in a colour mode.
    pub fn color_mode(self, mode: ColorMode) -> (b: Banner)
        ensures
            b@ == (BannerModel { color_mode: mode, ..self@ }),
    {
        let mut b = self;
        b.color_mode = mode;
        b
    }

    /// The grid at the stage where the light sweep is laid over it.
    pub fn render_base(&self) -> (g: Grid)
        requires
            self.wf(),
        ensures
            g.wf(),
            g@ == spec_render_base(self@),
    {
        let mut grid = render_text(self.text.as_str(), &self.font, self.kerning, self.line_gap);
        apply_fill(&mut grid, self.fill);
        match &self.gradient {
            Some(gradient) => {
                gradient.apply(&mut grid);
            },
            None => {},
        }
        grid
    }

    /// Renders the banner to a grid under a light sweep and a highlight
    /// given for this rendering; where none is given, the sweep of the
    /// banner and white are used.
    pub fn render_grid_with_sweep(
        &self,
        sweep_override: Option<&SweepProfile>,
        highlight: Option<Color>,
    ) -> (g: Grid)
        requires
            self.wf(),
        ensures
            g.wf(),
            g@ == spec_render_grid_with(
                self@,
                spec_sweep_choice(
                    self@,
                    match sweep_override {
                        Some(profile) => Some(*profile),
                        None => None,
                    },
                ),
                spec_highlight_choice(highlight),
            ),
    {
        let mut grid = self.render_base();
        let tint = match highlight {
            Some(color) => color,
            None => Color::Rgb(255, 255, 255),
        };
        match sweep_override {
            Some(profile) => {
                apply_light_sweep_tint(&mut grid, profile, tint);
            },
            None => match &self.light_sweep {
                Some(profile) => {
                    apply_light_sweep_tint(&mut grid, profile, tint);
                },
                None => {},
            },
        }
        match self.dot_dither {
            Some(dither) => {
                let defaults: Vec<char> = vec!['░', '▒'];
                grid = match &self.dot_dither_targets {
                    Some(targets) => apply_dot_dither(&grid, dither, targets.as_slice()),
                    None => apply_dot_dither(&grid, dither, defaults.as_slice()),
                };
            },
            None => {},
        }
        match self.edge_shade {
            Some(shade) => {
                grid = apply_edge_shade(&grid, shade);
            },
            None => {},
        }
        match self.shadow {
            Some(shadow) => {
                grid = apply_shadow(&grid, shadow);
            },
            None => {},
        }
        if self.trim_vertical {
            grid = grid.trim_vertical();
        }
        let grid = apply_layout(grid, self.padding, self.width, self.max_width, self.align);
        match &self.frame {
            Some(frame) => apply_frame(grid, frame),
            None => grid,
        }
    }

    /// Renders the banner to a grid.
    pub fn render_grid(&self) -> (g: Grid)
        requires
            self.wf(),
        ensures
            g.wf(),
            g@ == spec_render_grid(self@),
    {
        self.render_grid_with_sweep(None, None)
    }

    /// Renders the banner to text, with the colour codes of its mode.
    pub fn render(&self) -> (s: String)
        requires
            self.wf(),
        ensures
            s@ == spec_render(self@),
    {
        let grid = self.render_grid();
        emit_ansi(&grid, self.color_mode)
    }
}

/// A builder for the dot dither of a banner.
pub struct DotDitherBuilder {
    banner: Banner,
    targets: Vec<char>,
    dots: (char, char),
}

impl DotDitherBuilder {
    /// The banner that the dither is built for.
    pub closed spec fn spec_banner(&self) -> BannerModel {
        self.banner@
    }

    /// The characters that the dither draws over.
    pub closed spec fn spec_targets(&self) -> Seq<char> {
        self.targets@
    }

    /// The two dots.
    pub closed spec fn spec_dots(&self) -> (char, char) {
        self.dots
    }

    /// The banner with the dither of the given mode.
    pub open spec fn spec_built(&self, mode: DitherMode) -> BannerModel {
        BannerModel {
            dot_dither: Some(Dither { mode, dot: self.spec_dots().0, alt: self.spec_dots().1 }),
            dot_dither_targets: Some(self.spec_targets()),
            ..self.spec_banner()
        }
    }

    fn new(banner: Banner) -> (builder: DotDitherBuilder)
        ensures
            builder.spec_banner() == banner@,
            builder.spec_targets() == spec_default_targets(),
            builder.spec_dots() == ('░', '░'),
    {
        DotDitherBuilder { banner, targets: vec!['░', '▒'], dots: ('░', '░') }
    }

    /// The characters that the dither draws over, given as a text.
    pub fn targets(self, targets: &str) -> (b: DotDitherBuilder)
        ensures
            b.spec_banner() == self.spec_banner(),
            b.spec_targets() == targets@,
            b.spec_dots() == self.spec_dots(),
    {
        let mut b = self;
        b.targets = to_chars(targets);
        b
    }

    /// The characters that the dither draws over.
    pub fn targets_vec(self, targets: &[char]) -> (b: DotDitherBuilder)
        ensures
            b.spec_banner() == self.spec_banner(),
            b.spec_targets() == targets@,
            b.spec_dots() == self.spec_dots(),
    {
        let mut b = self;
        b.targets = copy_targets(targets);
        b
    }

    /// The dots, named by a text of one or two characters.
    pub fn dots(self, dots: &str) -> (b: DotDitherBuilder)
        ensures
            b.spec_banner() == self.spec_banner(),
            b.spec_targets() == self.spec_targets(),
            b.spec_dots() == spec_parse_dots(dots@),
    {
        let mut b = self;
        b.dots = parse_dots(dots);
        b
    }

    /// The banner with a checker dither.
    pub fn checker(self, period: u8) -> (b: Banner)
        ensures
            b@ == self.spec_built(DitherMode::Checker { period }),
    {
        let dither = Dither { mode: DitherMode::Checker { period }, dot: self.dots.0, alt: self.dots.1 };
        let mut b = self.banner;
        b.dot_dither = Some(dither);
        b.dot_dither_targets = Some(self.targets);
        b
    }

    /// The banner with a noise dither.
    pub fn noise(self, seed: u32, threshold: u8) -> (b: Banner)
        ensures
            b@ == self.spec_built(DitherMode::Noise { seed, threshold }),
    {
        let dither = Dither {
            mode: DitherMode::Noise { seed, threshold },
            dot: self.dots.0,
            alt: self.dots.1,
        };
        let mut b = self.banner;
        b.dot_dither = Some(dither);
        b.dot_dither_targets = Some(self.targets);
        b
    }
}

} // verus!

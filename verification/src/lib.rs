//! Styled banner text for terminals: a bitmap font engine, a grid of cells,
//! colour gradients, fills, dithering, outlines, shadows, layout, frames and an
//! ANSI emitter, each with a machine-checked contract.

pub mod banner;
pub mod color;
pub mod effects;
pub mod emit;
pub mod fill;
pub mod font;
pub mod frame;
pub mod gradient;
pub mod grid;
pub mod layout;
pub mod style;
pub mod text;

pub use banner::{Banner, BannerError};
pub use color::{Color, ColorMode, Palette, Preset, Ratio};
pub use effects::outline::EdgeShade;
pub use fill::{Dither, DitherMode, Fill};
pub use font::{figlet::FigletError, Font};
pub use gradient::{Gradient, GradientDirection};
pub use grid::{Align, Padding};
pub use style::Style;

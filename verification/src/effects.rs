//! Effects composited onto a grid: dot dither, edge shade, drop shadow and
//! light sweep.

pub mod dither;
pub mod light_sweep;
pub mod outline;
pub mod shadow;

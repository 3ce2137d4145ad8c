//! Named banner styles.

use vstd::prelude::*;
use crate::color::Preset;

verus! {

/// Named styles, each with a palette of its own.
#[derive(Clone, Copy, Debug, PartialEq, Eq, Structural)]
pub enum Style {
    /// Cyan, purple, pink.
    NeonCyber,
    /// Cyan, blue, white.
    ArcticTech,
    /// Orange, pink, purple.
    SunsetNeon,
    /// Green, teal, blue.
    ForestSky,
    /// Silver metallic.
    Chrome,
    /// Retro amber.
    CrtAmber,
    /// Blue, teal, aqua.
    OceanFlow,
    /// Blue, purple, indigo.
    DeepSpace,
    /// Yellow, orange, red.
    FireWarning,
    /// Pink, coral, gold.
    WarmLuxury,
    /// Sand, earth, olive.
    EarthTone,
    /// Lavender, purple, deep purple.
    RoyalPurple,
    /// Neon green, deep green.
    Matrix,
}

impl Style {
    /// The palette of the style.
    pub open spec fn spec_preset(self) -> Preset {
        match self {
            Style::NeonCyber => Preset::NeonCyber,
            Style::ArcticTech => Preset::ArcticTech,
            Style::SunsetNeon => Preset::SunsetNeon,
            Style::ForestSky => Preset::ForestSky,
            Style::Chrome => Preset::Chrome,
            Style::CrtAmber => Preset::CrtAmber,
            Style::OceanFlow => Preset::OceanFlow,
            Style::DeepSpace => Preset::DeepSpace,
            Style::FireWarning => Preset::FireWarning,
            Style::WarmLuxury => Preset::WarmLuxury,
            Style::EarthTone => Preset::EarthTone,
            Style::RoyalPurple => Preset::RoyalPurple,
            Style::Matrix => Preset::Matrix,
        }
    }

    /// The palette of the style.
    pub fn preset(self) -> (p: Preset)
        ensures
            p == self.spec_preset(),
    {
        match self {
            Style::NeonCyber => Preset::NeonCyber,
            Style::ArcticTech => Preset::ArcticTech,
            Style::SunsetNeon => Preset::SunsetNeon,
            Style::ForestSky => Preset::ForestSky,
            Style::Chrome => Preset::Chrome,
            Style::CrtAmber => Preset::CrtAmber,
            Style::OceanFlow => Preset::OceanFlow,
            Style::DeepSpace => Preset::DeepSpace,
            Style::FireWarning => Preset::FireWarning,
            Style::WarmLuxury => Preset::WarmLuxury,
            Style::EarthTone => Preset::EarthTone,
            Style::RoyalPurple => Preset::RoyalPurple,
            Style::Matrix => Preset::Matrix,
        }
    }
}

} // verus!

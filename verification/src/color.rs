use vstd::prelude::*;

verus! {

/// Full scale of a normalized magnitude, in thousandths: the value 1000
/// stands for a magnitude of 1.0. Producers hand magnitudes over in this
/// fixed-point form; well-formed values never exceed it.
pub const MAGNITUDE_SCALE: u16 = 1000;

/// One of exactly five discrete color classes used to visually encode how
/// intense a band's magnitude is, from quiet (green) to loud (red).
#[derive(Clone, Copy, Debug, PartialEq, Eq, Structural)]
pub enum ColorTier {
    Green,
    YellowGreen,
    Yellow,
    Orange,
    Red,
}

/// The gradient policy: a magnitude (in thousandths of full scale) selects a
/// tier by ascending threshold. The breakpoints sit at 0.25, 0.50, 0.65 and
/// 0.75 of full scale. Values above full scale simply fall into the topmost
/// tier; the mapper never rejects an input.
pub open spec fn spec_color_tier(magnitude: int) -> ColorTier {
    if magnitude < 250 {
        ColorTier::Green
    } else if magnitude < 500 {
        ColorTier::YellowGreen
    } else if magnitude < 650 {
        ColorTier::Yellow
    } else if magnitude < 750 {
        ColorTier::Orange
    } else {
        ColorTier::Red
    }
}

/// Intensity rank of a tier: green is the calmest, red the loudest.
pub open spec fn spec_tier_rank(t: ColorTier) -> int {
    match t {
        ColorTier::Green => 0,
        ColorTier::YellowGreen => 1,
        ColorTier::Yellow => 2,
        ColorTier::Orange => 3,
        ColorTier::Red => 4,
    }
}

/// Law: the tier is a monotonically non-decreasing intensity function of the
/// magnitude across all of the documented breakpoints.
pub proof fn lemma_color_tier_monotone(a: int, b: int)
    requires
        a <= b,
    ensures
        spec_tier_rank(spec_color_tier(a)) <= spec_tier_rank(spec_color_tier(b)),
{
}

/// Maps a magnitude to its color tier. Pure, total, no failure mode.
pub fn color_tier(magnitude: u16) -> (t: ColorTier)
    ensures
        t == spec_color_tier(magnitude as int),
{
    if magnitude < 250 {
        ColorTier::Green
    } else if magnitude < 500 {
        ColorTier::YellowGreen
    } else if magnitude < 650 {
        ColorTier::Yellow
    } else if magnitude < 750 {
        ColorTier::Orange
    } else {
        ColorTier::Red
    }
}

/// The RGB triple each tier is drawn with.
pub open spec fn spec_tier_rgb(t: ColorTier) -> (u8, u8, u8) {
    match t {
        ColorTier::Green => (0u8, 200u8, 0u8),
        ColorTier::YellowGreen => (180u8, 200u8, 0u8),
        ColorTier::Yellow => (255u8, 200u8, 0u8),
        ColorTier::Orange => (255u8, 140u8, 0u8),
        ColorTier::Red => (255u8, 50u8, 0u8),
    }
}

/// Returns the RGB triple a tier is drawn with.
pub fn tier_rgb(t: ColorTier) -> (c: (u8, u8, u8))
    ensures
        c == spec_tier_rgb(t),
{
    match t {
        ColorTier::Green => (0, 200, 0),
        ColorTier::YellowGreen => (180, 200, 0),
        ColorTier::Yellow => (255, 200, 0),
        ColorTier::Orange => (255, 140, 0),
        ColorTier::Red => (255, 50, 0),
    }
}

} // verus!

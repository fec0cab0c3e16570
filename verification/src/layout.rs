use vstd::prelude::*;

verus! {

/// Number of frequency bands in every spectrum snapshot, lowest frequency
/// first. The band count is fixed; the label table in `snapshot` has the
/// same length.
pub const BAND_COUNT: usize = 12;

/// Width in character cells of each bar, given the available width of the
/// render region: one gap unit is reserved beside the bands, and a floor of
/// three cells keeps bars legible in very narrow terminals.
pub open spec fn spec_bar_width(available: int) -> int {
    let base = available / (BAND_COUNT + 1) as int;
    if base < 3 {
        3
    } else {
        base
    }
}

/// Bars are never narrower than three cells, however small the region is.
pub proof fn lemma_bar_width_floor(available: int)
    requires
        available >= 0,
    ensures
        spec_bar_width(available) >= 3,
{
}

/// Computes the per-bar width for the current frame's render region.
pub fn bar_width(available: u16) -> (w: u16)
    ensures
        w as int == spec_bar_width(available as int),
        w >= 3,
{
    let base = available / (BAND_COUNT as u16 + 1);
    if base < 3 {
        3
    } else {
        base
    }
}

} // verus!

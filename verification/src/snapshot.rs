use vstd::prelude::*;
use crate::color::MAGNITUDE_SCALE;
use crate::layout::BAND_COUNT;

verus! {

/// An immutable per-frame record of the audio energy distribution: one
/// normalized magnitude per frequency band (lowest frequency at index 0),
/// plus the dominant energy level of the frame. Magnitudes are in
/// thousandths of full scale (see `MAGNITUDE_SCALE`).
pub struct SpectrumSnapshot {
    pub bands: Vec<u16>,
    pub peak: u16,
}

/// A magnitude clamped to full scale: out-of-range producer values are
/// pulled back rather than propagated.
pub open spec fn spec_clamp_magnitude(m: u16) -> u16 {
    if m > MAGNITUDE_SCALE {
        MAGNITUDE_SCALE
    } else {
        m
    }
}

/// Clamps one magnitude to full scale.
pub fn clamp_magnitude(m: u16) -> (r: u16)
    ensures
        r == spec_clamp_magnitude(m),
{
    if m > MAGNITUDE_SCALE {
        MAGNITUDE_SCALE
    } else {
        m
    }
}

impl SpectrumSnapshot {
    /// Well-formedness: exactly the fixed number of bands, every magnitude
    /// and the peak within full scale.
    pub open spec fn wf(self) -> bool {
        &&& self.bands@.len() == BAND_COUNT
        &&& forall|i: int| 0 <= i < self.bands@.len() ==> self.bands@[i] <= MAGNITUDE_SCALE
        &&& self.peak <= MAGNITUDE_SCALE
    }

    /// Builds a snapshot defensively from whatever a producer handed over:
    /// the band list is truncated or zero-padded to the fixed band count and
    /// every magnitude is clamped to full scale, so the result is always
    /// well-formed and the renderer never has to refuse a frame.
    pub fn new(bands: Vec<u16>, peak: u16) -> (s: SpectrumSnapshot)
        ensures
            s.wf(),
            s.bands@.len() == BAND_COUNT,
            forall|i: int|
                0 <= i < BAND_COUNT ==> s.bands@[i] == (if i < bands@.len() {
                    spec_clamp_magnitude(bands@[i])
                } else {
                    0u16
                }),
            s.peak == spec_clamp_magnitude(peak),
    {
        let mut fixed: Vec<u16> = Vec::new();
        let mut i: usize = 0;
        while i < BAND_COUNT
            invariant
                i <= BAND_COUNT,
                fixed@.len() == i,
                forall|j: int|
                    0 <= j < i ==> fixed@[j] == (if j < bands@.len() {
                        spec_clamp_magnitude(bands@[j])
                    } else {
                        0u16
                    }),
            decreases BAND_COUNT - i,
        {
            let v: u16 = if i < bands.len() {
                clamp_magnitude(bands[i])
            } else {
                0
            };
            fixed.push(v);
            i += 1;
        }
        SpectrumSnapshot { bands: fixed, peak: clamp_magnitude(peak) }
    }
}

/// Law: the fixed label table and the band sequence of any well-formed
/// snapshot have the same length, the fixed band count.
pub proof fn lemma_labels_match_bands(s: SpectrumSnapshot)
    requires
        s.wf(),
    ensures
        spec_band_labels().len() == s.bands@.len(),
        spec_band_labels().len() == BAND_COUNT,
{
}

/// The fixed ordered label table, lowest frequency first.
pub open spec fn spec_band_labels() -> Seq<Seq<char>> {
    Seq::new(BAND_COUNT as nat, |i: int| spec_band_label(i))
}

/// The fixed display label of each band position, lowest frequency first.
/// Positions outside the band range fall back to a placeholder.
pub open spec fn spec_band_label(i: int) -> Seq<char> {
    if i == 0 {
        "Sub"@
    } else if i == 1 {
        "Bass"@
    } else if i == 2 {
        "Low"@
    } else if i == 3 {
        "LMid"@
    } else if i == 4 {
        "Mid"@
    } else if i == 5 {
        "UMid"@
    } else if i == 6 {
        "High"@
    } else if i == 7 {
        "HiMd"@
    } else if i == 8 {
        "Pres"@
    } else if i == 9 {
        "Bril"@
    } else if i == 10 {
        "Air"@
    } else if i == 11 {
        "Ultra"@
    } else {
        "?"@
    }
}

/// Returns the display label of one band position.
pub fn band_label(i: usize) -> (r: &'static str)
    ensures
        r@ == spec_band_label(i as int),
{
    match i {
        0 => "Sub",
        1 => "Bass",
        2 => "Low",
        3 => "LMid",
        4 => "Mid",
        5 => "UMid",
        6 => "High",
        7 => "HiMd",
        8 => "Pres",
        9 => "Bril",
        10 => "Air",
        11 => "Ultra",
        _ => "?",
    }
}

/// Returns the whole label table; its length always equals the band count.
pub fn band_labels() -> (v: Vec<&'static str>)
    ensures
        v@.len() == spec_band_labels().len(),
        forall|i: int| 0 <= i < BAND_COUNT ==> v@[i]@ == spec_band_labels()[i],
{
    let mut v: Vec<&'static str> = Vec::new();
    let mut i: usize = 0;
    while i < BAND_COUNT
        invariant
            i <= BAND_COUNT,
            v@.len() == i,
            forall|j: int| 0 <= j < i ==> v@[j]@ == spec_band_label(j),
        decreases BAND_COUNT - i,
    {
        v.push(band_label(i));
        i += 1;
    }
    v
}

} // verus!

use vstd::prelude::*;
use crate::color::{ColorTier, MAGNITUDE_SCALE, color_tier, spec_color_tier};
use crate::layout::{BAND_COUNT, bar_width, spec_bar_width};
use crate::snapshot::{SpectrumSnapshot, band_label, spec_band_label};

verus! {

/// Ceiling of the bar chart, in internal display units: a bar of this height
/// would touch the chart's top edge.
pub const DISPLAY_CEILING: u64 = 1000;

/// Hard cap on a bar's displayed height. It sits below the ceiling, so no
/// bar ever visually touches the top edge, however loud the signal is.
pub const DISPLAY_CAP: u64 = 800;

/// A magnitude (in thousandths of full scale) scaled onto the display
/// ceiling and capped: the displayed height of its bar.
pub open spec fn spec_display_height(magnitude: int) -> int {
    if magnitude > DISPLAY_CAP {
        DISPLAY_CAP as int
    } else {
        magnitude
    }
}

/// Law: displayed heights never exceed the cap; full scale maps to exactly
/// the cap and silence maps to zero.
pub proof fn lemma_display_height_bounds(magnitude: int)
    requires
        magnitude >= 0,
    ensures
        spec_display_height(magnitude) <= DISPLAY_CAP,
        magnitude == MAGNITUDE_SCALE ==> spec_display_height(magnitude) == DISPLAY_CAP,
        magnitude == 0 ==> spec_display_height(magnitude) == 0,
{
}

/// Computes the displayed height of one bar.
pub fn display_height(magnitude: u16) -> (h: u64)
    ensures
        h == spec_display_height(magnitude as int),
        h <= DISPLAY_CAP,
{
    if magnitude as u64 > DISPLAY_CAP {
        DISPLAY_CAP
    } else {
        magnitude as u64
    }
}

/// The peak percentage shown in the status line: the peak magnitude
/// (thousandths of full scale) rounded to whole percent.
pub open spec fn spec_peak_percent(peak: int) -> int {
    (peak + 5) / 10
}

/// Rounds the peak magnitude to a whole percentage for the status line;
/// within full scale it never exceeds 100.
pub fn peak_percent(peak: u16) -> (r: u16)
    ensures
        r as int == spec_peak_percent(peak as int),
        peak <= MAGNITUDE_SCALE ==> r <= 100,
{
    ((peak as u32 + 5) / 10) as u16
}

/// The frames-per-second figure shown in the chart title: purely
/// informational, derived from the configured tick interval by integer
/// division.
pub fn fps_hint(tick_interval_ms: u64) -> (r: u64)
    requires
        tick_interval_ms >= 1,
    ensures
        r as int == 1000 as int / tick_interval_ms as int,
{
    1000 / tick_interval_ms
}

/// The host platform, resolved once at startup and passed in as
/// configuration; it selects which remediation hint the no-signal panel
/// shows.
#[derive(Clone, Copy, Debug, PartialEq, Eq, Structural)]
pub enum Platform {
    Linux,
    Windows,
    MacOs,
    Other,
}

/// The platform-appropriate remediation hint of the no-signal panel.
pub open spec fn spec_platform_hint(p: Platform) -> Seq<char> {
    match p {
        Platform::Linux => "Hint: Ensure PipeWire or PulseAudio is running with a monitor device"@,
        Platform::Windows => "Hint: Audio loopback should work automatically on Windows"@,
        Platform::MacOs => "Hint: macOS requires a virtual audio device like BlackHole"@,
        Platform::Other => "Hint: Audio capture may not be supported on this platform"@,
    }
}

/// Returns the remediation hint for one platform.
pub fn platform_hint(p: Platform) -> (r: &'static str)
    ensures
        r@ == spec_platform_hint(p),
{
    match p {
        Platform::Linux => "Hint: Ensure PipeWire or PulseAudio is running with a monitor device",
        Platform::Windows => "Hint: Audio loopback should work automatically on Windows",
        Platform::MacOs => "Hint: macOS requires a virtual audio device like BlackHole",
        Platform::Other => "Hint: Audio capture may not be supported on this platform",
    }
}

/// The capturing/paused indicator of the status row.
pub open spec fn spec_status_text(capturing: bool) -> Seq<char> {
    if capturing {
        "[>] Capturing audio"@
    } else {
        "[||] Paused"@
    }
}

/// Returns the status-row indicator text.
pub fn status_text(capturing: bool) -> (r: &'static str)
    ensures
        r@ == spec_status_text(capturing),
{
    if capturing {
        "[>] Capturing audio"
    } else {
        "[||] Paused"
    }
}

/// The one authoritative per-frame signal: either a snapshot is available
/// and the live bar chart is drawn, or there is no signal and the no-signal
/// panel is drawn instead.
pub enum CaptureState {
    Active(SpectrumSnapshot),
    Inactive,
}

impl CaptureState {
    /// Well-formedness: an active state carries a well-formed snapshot.
    pub open spec fn wf(self) -> bool {
        match self {
            CaptureState::Active(snap) => snap.wf(),
            CaptureState::Inactive => true,
        }
    }
}

/// One bar of the chart, ready to draw: its fixed band label, its displayed
/// height against the display ceiling, and its color tier. The tier comes
/// from the true (pre-cap) magnitude, so coloring reflects real intensity
/// even where the height is capped.
pub struct BarCell {
    pub label: &'static str,
    pub height: u64,
    pub tier: ColorTier,
}

/// What one bar must show for band position `i` with magnitude `m`.
pub open spec fn bar_cell_ok(b: BarCell, i: int, m: int) -> bool {
    &&& b.label@ == spec_band_label(i)
    &&& b.height == spec_display_height(m)
    &&& b.tier == spec_color_tier(m)
}

/// The active-capture frame: status row, informational figures, and exactly
/// one bar per band.
pub struct ActiveFrame {
    pub status: &'static str,
    pub peak_percent: u16,
    pub fps: u64,
    pub bar_width: u16,
    pub bars: Vec<BarCell>,
}

/// What an active-capture frame must show for a given snapshot and
/// configuration.
pub open spec fn active_frame_ok(
    f: ActiveFrame,
    snap: SpectrumSnapshot,
    capturing: bool,
    available_width: int,
    tick_interval_ms: int,
) -> bool {
    &&& f.status@ == spec_status_text(capturing)
    &&& f.peak_percent == spec_peak_percent(snap.peak as int)
    &&& f.fps == 1000 as int / tick_interval_ms
    &&& f.bar_width == spec_bar_width(available_width)
    &&& f.bars@.len() == BAND_COUNT
    &&& forall|i: int|
        0 <= i < BAND_COUNT ==> bar_cell_ok(#[trigger] f.bars@[i], i, snap.bands@[i] as int)
}

/// The no-signal frame: an explanatory panel with one platform hint, and a
/// waiting message where the chart would be. No bars are drawn.
pub struct NoSignalFrame {
    pub message: &'static str,
    pub hint: &'static str,
    pub waiting: &'static str,
}

/// What the no-signal frame must show for a given platform.
pub open spec fn no_signal_frame_ok(f: NoSignalFrame, p: Platform) -> bool {
    &&& f.message@ == "No audio capture available"@
    &&& f.hint@ == spec_platform_hint(p)
    &&& f.waiting@ == "Waiting for audio input..."@
}

/// One fully described visual frame, ready for the terminal to draw.
pub enum RenderFrame {
    Active(ActiveFrame),
    NoSignal(NoSignalFrame),
}

/// The sole per-tick entry point. Given the render region's width, the
/// configured tick interval, the capturing/paused flag, the host platform
/// and the current capture state, it computes the complete frame for this
/// tick: either the live bar chart or the no-signal panel. It is pure and
/// stateless between ticks and retains nothing of the snapshot.
pub fn render(
    available_width: u16,
    tick_interval_ms: u64,
    capturing: bool,
    platform: Platform,
    state: &CaptureState,
) -> (frame: RenderFrame)
    requires
        tick_interval_ms >= 1,
        state.wf(),
    ensures
        (match *state {
            CaptureState::Active(snap) => frame matches RenderFrame::Active(f)
                && active_frame_ok(
                f,
                snap,
                capturing,
                available_width as int,
                tick_interval_ms as int,
            ),
            CaptureState::Inactive => frame matches RenderFrame::NoSignal(f)
                && no_signal_frame_ok(f, platform),
        }),
{
    match state {
        CaptureState::Active(snap) => {
            let mut bars: Vec<BarCell> = Vec::new();
            let mut i: usize = 0;
            while i < BAND_COUNT
                invariant
                    snap.wf(),
                    i <= BAND_COUNT,
                    bars@.len() == i,
                    forall|j: int|
                        0 <= j < i ==> bar_cell_ok(#[trigger] bars@[j], j, snap.bands@[j] as int),
                decreases BAND_COUNT - i,
            {
                let m = snap.bands[i];
                bars.push(
                    BarCell { label: band_label(i), height: display_height(m), tier: color_tier(m) },
                );
                i += 1;
            }
            RenderFrame::Active(
                ActiveFrame {
                    status: status_text(capturing),
                    peak_percent: peak_percent(snap.peak),
                    fps: fps_hint(tick_interval_ms),
                    bar_width: bar_width(available_width),
                    bars,
                },
            )
        },
        CaptureState::Inactive => RenderFrame::NoSignal(
            NoSignalFrame {
                message: "No audio capture available",
                hint: platform_hint(platform),
                waiting: "Waiting for audio input...",
            },
        ),
    }
}

} // verus!

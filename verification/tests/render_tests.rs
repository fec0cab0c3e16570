use spectrum_view::color::{color_tier, tier_rgb, ColorTier};
use spectrum_view::layout::{bar_width, BAND_COUNT};
use spectrum_view::render::{
    display_height, fps_hint, peak_percent, platform_hint, render, status_text, CaptureState,
    Platform, RenderFrame, DISPLAY_CAP,
};
use spectrum_view::snapshot::{band_label, band_labels, SpectrumSnapshot};

fn flat_snapshot(magnitude: u16, peak: u16) -> SpectrumSnapshot {
    SpectrumSnapshot::new(vec![magnitude; 12], peak)
}

#[test]
fn tier_thresholds() {
    assert_eq!(color_tier(0), ColorTier::Green);
    assert_eq!(color_tier(249), ColorTier::Green);
    assert_eq!(color_tier(250), ColorTier::YellowGreen);
    assert_eq!(color_tier(499), ColorTier::YellowGreen);
    assert_eq!(color_tier(500), ColorTier::Yellow);
    assert_eq!(color_tier(649), ColorTier::Yellow);
    assert_eq!(color_tier(650), ColorTier::Orange);
    assert_eq!(color_tier(749), ColorTier::Orange);
    assert_eq!(color_tier(750), ColorTier::Red);
    assert_eq!(color_tier(1000), ColorTier::Red);
    // Out-of-range values fall into the tier they numerically satisfy.
    assert_eq!(color_tier(1400), ColorTier::Red);
}

#[test]
fn tier_intensity_is_monotone_over_a_sweep() {
    fn rank(t: ColorTier) -> u8 {
        match t {
            ColorTier::Green => 0,
            ColorTier::YellowGreen => 1,
            ColorTier::Yellow => 2,
            ColorTier::Orange => 3,
            ColorTier::Red => 4,
        }
    }
    let mut last: u8 = 0;
    for m in 0..=1000u16 {
        let r = rank(color_tier(m));
        assert!(r >= last);
        last = r;
    }
}

#[test]
fn tier_rgb_values() {
    assert_eq!(tier_rgb(ColorTier::Green), (0, 200, 0));
    assert_eq!(tier_rgb(ColorTier::YellowGreen), (180, 200, 0));
    assert_eq!(tier_rgb(ColorTier::Yellow), (255, 200, 0));
    assert_eq!(tier_rgb(ColorTier::Orange), (255, 140, 0));
    assert_eq!(tier_rgb(ColorTier::Red), (255, 50, 0));
}

#[test]
fn display_height_formula() {
    assert_eq!(display_height(0), 0);
    assert_eq!(display_height(300), 300);
    assert_eq!(display_height(799), 799);
    assert_eq!(display_height(800), 800);
    assert_eq!(display_height(801), 800);
    assert_eq!(display_height(1000), 800);
    for m in 0..=1000u16 {
        assert!(display_height(m) <= DISPLAY_CAP);
    }
}

#[test]
fn bar_width_floor_and_formula() {
    assert_eq!(bar_width(0), 3);
    assert_eq!(bar_width(12), 3);
    assert_eq!(bar_width(13), 3);
    assert_eq!(bar_width(52), 4);
    assert_eq!(bar_width(130), 10);
    for w in 0..300u16 {
        assert!(bar_width(w) >= 3);
    }
}

#[test]
fn bar_width_scenario_width_48() {
    // width=48, bandCount=12: max(3, floor(48/13)) = 3.
    assert_eq!(bar_width(48), 3);
}

#[test]
fn labels_match_band_count() {
    let labels = band_labels();
    assert_eq!(labels.len(), 12);
    assert_eq!(labels.len(), BAND_COUNT);
    let snap = flat_snapshot(0, 0);
    assert_eq!(labels.len(), snap.bands.len());
    assert_eq!(
        labels,
        vec![
            "Sub", "Bass", "Low", "LMid", "Mid", "UMid", "High", "HiMd", "Pres", "Bril", "Air",
            "Ultra"
        ]
    );
    assert_eq!(band_label(0), "Sub");
    assert_eq!(band_label(11), "Ultra");
    assert_eq!(band_label(12), "?");
}

#[test]
fn snapshot_clamps_and_pads() {
    // Too few bands: zero-padded to the fixed count.
    let s = SpectrumSnapshot::new(vec![100, 2000], 1500);
    assert_eq!(s.bands.len(), 12);
    assert_eq!(s.bands[0], 100);
    assert_eq!(s.bands[1], 1000); // clamped to full scale
    assert_eq!(s.bands[2], 0);
    assert_eq!(s.peak, 1000);
    // Too many bands: truncated to the fixed count.
    let s = SpectrumSnapshot::new(vec![5; 20], 10);
    assert_eq!(s.bands.len(), 12);
    assert!(s.bands.iter().all(|&m| m == 5));
    assert_eq!(s.peak, 10);
}

#[test]
fn peak_percent_rounds_and_caps() {
    // peak=0.873 shows as 87 percent.
    assert_eq!(peak_percent(873), 87);
    assert_eq!(peak_percent(875), 88);
    assert_eq!(peak_percent(0), 0);
    assert_eq!(peak_percent(1000), 100);
    for p in 0..=1000u16 {
        assert!(peak_percent(p) <= 100);
    }
}

#[test]
fn fps_hint_is_integer_division() {
    assert_eq!(fps_hint(250), 4);
    assert_eq!(fps_hint(1000), 1);
    assert_eq!(fps_hint(3), 333);
    assert_eq!(fps_hint(1), 1000);
}

#[test]
fn status_text_indicator() {
    assert_eq!(status_text(true), "[>] Capturing audio");
    assert_eq!(status_text(false), "[||] Paused");
}

#[test]
fn platform_hints() {
    assert_eq!(
        platform_hint(Platform::Linux),
        "Hint: Ensure PipeWire or PulseAudio is running with a monitor device"
    );
    assert_eq!(
        platform_hint(Platform::Windows),
        "Hint: Audio loopback should work automatically on Windows"
    );
    assert_eq!(
        platform_hint(Platform::MacOs),
        "Hint: macOS requires a virtual audio device like BlackHole"
    );
    assert_eq!(
        platform_hint(Platform::Other),
        "Hint: Audio capture may not be supported on this platform"
    );
}

#[test]
fn active_render_mid_magnitude() {
    // magnitude=0.30: tier yellow-green, display height 300.
    let snap = flat_snapshot(300, 873);
    let frame = render(48, 250, true, Platform::Linux, &CaptureState::Active(snap));
    match frame {
        RenderFrame::Active(f) => {
            assert_eq!(f.status, "[>] Capturing audio");
            assert_eq!(f.peak_percent, 87);
            assert_eq!(f.fps, 4);
            assert_eq!(f.bar_width, 3);
            assert_eq!(f.bars.len(), 12);
            for (i, bar) in f.bars.iter().enumerate() {
                assert_eq!(bar.height, 300);
                assert_eq!(bar.tier, ColorTier::YellowGreen);
                assert_eq!(bar.label, band_label(i));
            }
        }
        RenderFrame::NoSignal(_) => panic!("expected the active-capture frame"),
    }
}

#[test]
fn active_render_loud_magnitude_is_capped() {
    // magnitude=0.90: tier red, display height capped at 800, not 900.
    let snap = flat_snapshot(900, 1000);
    let frame = render(130, 100, false, Platform::Linux, &CaptureState::Active(snap));
    match frame {
        RenderFrame::Active(f) => {
            assert_eq!(f.status, "[||] Paused");
            assert_eq!(f.peak_percent, 100);
            assert_eq!(f.fps, 10);
            assert_eq!(f.bar_width, 10);
            for bar in &f.bars {
                assert_eq!(bar.height, 800);
                assert_eq!(bar.tier, ColorTier::Red);
            }
        }
        RenderFrame::NoSignal(_) => panic!("expected the active-capture frame"),
    }
}

#[test]
fn active_render_keeps_band_order() {
    let magnitudes: Vec<u16> = vec![0, 100, 200, 300, 400, 500, 550, 600, 650, 700, 750, 800];
    let snap = SpectrumSnapshot::new(magnitudes.clone(), 800);
    let frame = render(48, 250, true, Platform::Windows, &CaptureState::Active(snap));
    match frame {
        RenderFrame::Active(f) => {
            let expected_tiers = [
                ColorTier::Green,
                ColorTier::Green,
                ColorTier::Green,
                ColorTier::YellowGreen,
                ColorTier::YellowGreen,
                ColorTier::Yellow,
                ColorTier::Yellow,
                ColorTier::Yellow,
                ColorTier::Orange,
                ColorTier::Orange,
                ColorTier::Red,
                ColorTier::Red,
            ];
            for (i, bar) in f.bars.iter().enumerate() {
                assert_eq!(bar.height, u64::from(magnitudes[i]));
                assert_eq!(bar.tier, expected_tiers[i]);
                assert_eq!(bar.label, band_label(i));
            }
        }
        RenderFrame::NoSignal(_) => panic!("expected the active-capture frame"),
    }
}

#[test]
fn inactive_render_shows_no_signal_panel() {
    // No capture: the no-signal panel, the platform hint, and zero bars.
    let frame = render(80, 250, false, Platform::MacOs, &CaptureState::Inactive);
    match frame {
        RenderFrame::Active(_) => panic!("expected the no-signal frame"),
        RenderFrame::NoSignal(f) => {
            assert_eq!(f.message, "No audio capture available");
            assert_eq!(f.hint, "Hint: macOS requires a virtual audio device like BlackHole");
            assert_eq!(f.waiting, "Waiting for audio input...");
        }
    }
}

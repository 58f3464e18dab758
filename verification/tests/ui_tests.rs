use ratatui::style::Color;
use rustop::meter::{make_bar_no_pct, usage_band, Band};
use rustop::units::{format_bytes, format_bytes_from_kib};

/// Usage values arrive as floats from the host; the core stores tenths of a
/// percent.
fn tenths(value: f32) -> u32 {
    (value * 10.0).round() as u32
}

/// The terminal color each severity band is painted with.
fn color_of(band: Band) -> Color {
    match band {
        Band::Nominal => Color::Green,
        Band::Elevated => Color::Yellow,
        Band::High => Color::Rgb(255, 165, 0),
        Band::Critical => Color::Red,
    }
}

fn usage_color(value: f32) -> Color {
    color_of(usage_band(tenths(value)))
}

#[test]
fn usage_color_thresholds() {
    assert_eq!(usage_color(0.0), Color::Green);
    assert_eq!(usage_color(39.9), Color::Green);
    assert_eq!(usage_color(40.0), Color::Yellow);
    assert_eq!(usage_color(74.9), Color::Yellow);
    assert_eq!(usage_color(75.0), Color::Rgb(255, 165, 0));
    assert_eq!(usage_color(89.9), Color::Rgb(255, 165, 0));
    assert_eq!(usage_color(90.0), Color::Red);
    assert_eq!(usage_color(150.0), Color::Red);
}

#[test]
fn make_bar_no_pct_shapes_bar() {
    assert_eq!(make_bar_no_pct(tenths(0.0)), "[--------------------]");
    assert_eq!(make_bar_no_pct(tenths(50.0)), "[██████████----------]");
    assert_eq!(make_bar_no_pct(tenths(100.0)), "[████████████████████]");
}

#[test]
fn bar_always_has_twenty_cells() {
    for pct in 0..=100u32 {
        let bar = make_bar_no_pct(pct * 10);
        let filled = bar.chars().filter(|c| *c == '█').count();
        let empty = bar.chars().filter(|c| *c == '-').count();
        assert_eq!(filled + empty, 20, "at {pct}%");
        assert_eq!(bar.chars().count(), 22, "at {pct}%");
        assert!(bar.starts_with('[') && bar.ends_with(']'));
    }
}

#[test]
fn format_bytes_handles_units() {
    assert_eq!(format_bytes(512), "512 B");
    assert_eq!(format_bytes(1024), "1.0 KB");
    assert_eq!(format_bytes(1536), "1.5 KB");
    assert_eq!(format_bytes(1024 * 1024), "1.0 MB");
}

#[test]
fn format_bytes_from_kib_converts() {
    assert_eq!(format_bytes_from_kib(0), "0 B");
    assert_eq!(format_bytes_from_kib(1), "1.0 KB");
    assert_eq!(format_bytes_from_kib(1024), "1.0 MB");
}

#[test]
fn format_bytes_larger_units() {
    assert_eq!(format_bytes(1023), "1023 B");
    assert_eq!(format_bytes(1024 * 1024 * 1024), "1.0 GB");
    assert_eq!(format_bytes(1024 * 1024 * 1024 * 1024), "1.0 TB");
    // Values past TB stay in TB rather than inventing a larger unit.
    assert_eq!(format_bytes(2048 * 1024 * 1024 * 1024 * 1024), "2048.0 TB");
}

#[test]
fn format_bytes_rounds_ties_to_even() {
    // 1280 / 1024 = 1.25 exactly: the tie rounds to the even tenth.
    assert_eq!(format_bytes(1280), "1.2 KB");
    // 1408 / 1024 = 1.375: no tie, a plain round up to the nearest tenth.
    assert_eq!(format_bytes(1408), "1.4 KB");
}

#[test]
fn band_boundaries_in_tenths() {
    assert_eq!(usage_band(399), Band::Nominal);
    assert_eq!(usage_band(400), Band::Elevated);
    assert_eq!(usage_band(749), Band::Elevated);
    assert_eq!(usage_band(750), Band::High);
    assert_eq!(usage_band(899), Band::High);
    assert_eq!(usage_band(900), Band::Critical);
    assert_eq!(usage_band(1000), Band::Critical);
}

//! Baseline persistence: the text format round-trips exactly.

use eclss::baseline::{parse_baseline, render_baseline, StoredBaseline};

#[test]
fn baseline_round_trip() {
    let b = StoredBaseline {
        co2eq: 0x1234,
        tvoc: 0x5678,
    };
    let text = render_baseline(&b);
    assert_eq!(parse_baseline(&text), Some(b));
}

#[test]
fn baseline_round_trip_extremes() {
    for b in [
        StoredBaseline { co2eq: 0, tvoc: 0 },
        StoredBaseline {
            co2eq: u16::MAX,
            tvoc: u16::MAX,
        },
        StoredBaseline {
            co2eq: 1,
            tvoc: 65_000,
        },
    ] {
        let text = render_baseline(&b);
        assert_eq!(parse_baseline(&text), Some(b));
    }
}

#[test]
fn baseline_renders_fixed_width_text() {
    let b = StoredBaseline {
        co2eq: 0x1234,
        tvoc: 0x5678,
    };
    // 0x1234 = 4660, 0x5678 = 22136
    assert_eq!(render_baseline(&b), "co2eq = 04660\ntvoc = 22136\n");
}

#[test]
fn baseline_parses_exact_text() {
    let parsed = parse_baseline("co2eq = 00042\ntvoc = 00007\n");
    assert_eq!(
        parsed,
        Some(StoredBaseline { co2eq: 42, tvoc: 7 })
    );
}

#[test]
fn baseline_rejects_malformed_text() {
    assert_eq!(parse_baseline(""), None);
    assert_eq!(parse_baseline("co2eq = 04660\ntvoc = 2213\n"), None);
    assert_eq!(parse_baseline("co2eq = abcde\ntvoc = 22136\n"), None);
    assert_eq!(parse_baseline("tvoc = 22136\nco2eq = 04660\n"), None);
    assert_eq!(parse_baseline("co2eq = 99999\ntvoc = 22136\n"), None);
    assert_eq!(parse_baseline("co2eq = 04660\ntvoc = 22136"), None);
}

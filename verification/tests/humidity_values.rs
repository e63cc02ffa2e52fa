//! Absolute-humidity values against reference points.

use eclss::humidity::absolute_humidity_millis;

#[test]
fn abs_humidity_at_room_conditions() {
    // 25 °C at 50% RH is about 11.5 g/m³
    let ah = absolute_humidity_millis(25_000, 50_000);
    assert!((ah - 11_500).abs() <= 200, "AH {ah} out of tolerance");
}

#[test]
fn abs_humidity_at_freezing_saturation() {
    // 0 °C at 100% RH is about 4.85 g/m³
    let ah = absolute_humidity_millis(0, 100_000);
    assert!((ah - 4_850).abs() <= 100, "AH {ah} out of tolerance");
}

#[test]
fn abs_humidity_zero_humidity_is_zero() {
    assert_eq!(absolute_humidity_millis(25_000, 0), 0);
}

#[test]
fn abs_humidity_handles_range_extremes() {
    let cold = absolute_humidity_millis(-40_000, 100_000);
    // about 0.12 g/m³ at -40 °C
    assert!(cold >= 0 && cold < 1_000, "AH {cold} out of range");
    let hot = absolute_humidity_millis(60_000, 100_000);
    // about 130 g/m³ at 60 °C
    assert!((hot - 130_000).abs() <= 5_000, "AH {hot} out of tolerance");
}

#[test]
fn abs_humidity_monotone_in_humidity() {
    let low = absolute_humidity_millis(20_000, 30_000);
    let high = absolute_humidity_millis(20_000, 60_000);
    assert!(high > low);
}

//! SCD adapter behavior: pressure compensation and measurement
//! recording.

use eclss::metrics::{MetricLabel, SensorMetrics};
use eclss::name::SensorName;
use eclss::sensor::scd::{check_self_test, ScdError, Shared, SCD4X_POLL_INTERVAL_MS};
use eclss::Config;

fn setup() -> (SensorMetrics, Shared) {
    let mut m = SensorMetrics::new();
    let cfg = Config::new();
    let shared = Shared::new(&mut m, &cfg, SensorName::Scd41, SCD4X_POLL_INTERVAL_MS).unwrap();
    (m, shared)
}

#[test]
fn pressure_none_without_published_pressure() {
    let (m, shared) = setup();
    assert_eq!(shared.pressure_pascals(&m), None);
}

#[test]
fn pressure_is_mean_times_hundred() {
    let (mut m, shared) = setup();
    let h = m
        .pressure_hpa
        .register(MetricLabel::Sensor(SensorName::Bme680))
        .unwrap();
    // two samples: 1013.25 hPa and 1011.25 hPa; mean 1012.25 hPa
    m.pressure_hpa.set_value(h, 1_013_250);
    m.pressure_hpa.set_value(h, 1_011_250);
    assert_eq!(shared.pressure_pascals(&m), Some(101_225));
}

#[test]
fn pressure_outside_datasheet_range_is_clamped() {
    let (mut m, shared) = setup();
    let h = m
        .pressure_hpa
        .register(MetricLabel::Sensor(SensorName::Bme680))
        .unwrap();
    // 3000 hPa = 300000 Pa, far above the valid range
    m.pressure_hpa.set_value(h, 3_000_000);
    assert_eq!(shared.pressure_pascals(&m), Some(120_000));
    // 500 hPa = 50000 Pa, below the valid range
    let (mut m2, shared2) = setup();
    let h2 = m2
        .pressure_hpa
        .register(MetricLabel::Sensor(SensorName::Bme680))
        .unwrap();
    m2.pressure_hpa.set_value(h2, 500_000);
    assert_eq!(shared2.pressure_pascals(&m2), Some(70_000));
}

#[test]
fn pressure_clamp_boundaries() {
    for (milli_hpa, expect) in [
        (699_990_i64, Some(70_000_u32)),
        (700_000, Some(70_000)),
        (1_199_990, Some(119_999)),
        (1_200_000, Some(120_000)),
        (1_200_010, Some(120_000)),
        (-5_000, Some(70_000)),
    ] {
        let (mut m, shared) = setup();
        let h = m
            .pressure_hpa
            .register(MetricLabel::Sensor(SensorName::Bme680))
            .unwrap();
        m.pressure_hpa.set_value(h, milli_hpa);
        assert_eq!(shared.pressure_pascals(&m), expect, "at {milli_hpa}");
    }
}

#[test]
fn pressure_rounds_to_nearest_pascal() {
    // a mean of 1000.005 hPa is 100000.5 Pa and rounds up
    let (mut m, shared) = setup();
    let h = m
        .pressure_hpa
        .register(MetricLabel::Sensor(SensorName::Bme680))
        .unwrap();
    m.pressure_hpa.set_value(h, 1_000_005);
    assert_eq!(shared.pressure_pascals(&m), Some(100_001));
    // 1000.004 hPa rounds down
    let (mut m2, shared2) = setup();
    let h2 = m2
        .pressure_hpa
        .register(MetricLabel::Sensor(SensorName::Bme680))
        .unwrap();
    m2.pressure_hpa.set_value(h2, 1_000_004);
    assert_eq!(shared2.pressure_pascals(&m2), Some(100_000));
}

#[test]
fn record_measurement_updates_all_gauges() {
    let (mut m, mut shared) = setup();
    shared.record_measurement(&mut m, 417, 25_000, 50_000);
    let co2 = m
        .co2_ppm
        .register(MetricLabel::Sensor(SensorName::Scd41))
        .unwrap();
    let temp = m
        .temp_c
        .register(MetricLabel::Sensor(SensorName::Scd41))
        .unwrap();
    let rh = m
        .rel_humidity_percent
        .register(MetricLabel::Sensor(SensorName::Scd41))
        .unwrap();
    let ah = m
        .abs_humidity_grams_m3
        .register(MetricLabel::Sensor(SensorName::Scd41))
        .unwrap();
    assert_eq!(m.co2_ppm.value_at(co2), 417_000);
    assert_eq!(m.temp_c.value_at(temp), 25_000);
    assert_eq!(m.rel_humidity_percent.value_at(rh), 50_000);
    // the default stride derives absolute humidity on every poll
    let ah_val = m.abs_humidity_grams_m3.value_at(ah);
    assert!((ah_val - 11_500).abs() <= 200, "AH {ah_val}");
}

#[test]
fn self_test_failure_is_an_error() {
    assert_eq!(check_self_test(true), Ok(()));
    assert_eq!(check_self_test(false), Err(ScdError::SelfTest));
}

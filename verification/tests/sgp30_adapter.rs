//! SGP30 adapter behavior: calibration warm-up, saturation, humidity
//! compensation and baseline persistence.

use eclss::baseline::StoredBaseline;
use eclss::metrics::{MetricLabel, SensorMetrics};
use eclss::name::SensorName;
use eclss::sensor::sgp30::{humidity_fixed_point, Sgp30, Sgp30Error};
use eclss::Config;

fn setup() -> (SensorMetrics, Sgp30) {
    let mut m = SensorMetrics::new();
    let cfg = Config::new();
    let sgp = Sgp30::new(&mut m, &cfg).unwrap();
    (m, sgp)
}

fn warm_up(m: &mut SensorMetrics, sgp: &mut Sgp30) {
    for _ in 0..16 {
        assert_eq!(sgp.poll_measurement(m, 10, 400, None), Ok(None));
    }
}

#[test]
fn calibration_polls_discard_readings() {
    let (mut m, mut sgp) = setup();
    let tvoc = m
        .tvoc_ppb
        .register(MetricLabel::Sensor(SensorName::Sgp30))
        .unwrap();
    warm_up(&mut m, &mut sgp);
    // nothing was published during the warm-up
    assert!(!m.tvoc_ppb.recorded_at(tvoc));
    // the next poll publishes
    sgp.poll_measurement(&mut m, 10, 400, None).unwrap();
    assert_eq!(m.tvoc_ppb.value_at(tvoc), 10_000);
}

#[test]
fn saturated_tvoc_asks_for_reset() {
    let (mut m, mut sgp) = setup();
    warm_up(&mut m, &mut sgp);
    let r = sgp.poll_measurement(&mut m, 60_000, 400, None);
    assert_eq!(r, Err(Sgp30Error::Saturated));
}

#[test]
fn measurement_updates_tvoc_and_eco2() {
    let (mut m, mut sgp) = setup();
    warm_up(&mut m, &mut sgp);
    sgp.poll_measurement(&mut m, 125, 412, None).unwrap();
    let tvoc = m
        .tvoc_ppb
        .register(MetricLabel::Sensor(SensorName::Sgp30))
        .unwrap();
    let eco2 = m
        .eco2_ppm
        .register(MetricLabel::Sensor(SensorName::Sgp30))
        .unwrap();
    assert_eq!(m.tvoc_ppb.value_at(tvoc), 125_000);
    assert_eq!(m.eco2_ppm.value_at(eco2), 412_000);
}

#[test]
fn baseline_stored_only_when_different() {
    let (mut m, mut sgp) = setup();
    warm_up(&mut m, &mut sgp);
    let b1 = StoredBaseline {
        co2eq: 100,
        tvoc: 200,
    };
    let b2 = StoredBaseline {
        co2eq: 100,
        tvoc: 201,
    };
    // a fresh baseline is persisted
    assert_eq!(sgp.poll_measurement(&mut m, 10, 400, Some(b1)), Ok(Some(b1)));
    // the same baseline again is not persisted a second time
    assert_eq!(sgp.poll_measurement(&mut m, 10, 400, Some(b1)), Ok(None));
    // a strictly different baseline replaces it
    assert_eq!(sgp.poll_measurement(&mut m, 10, 400, Some(b2)), Ok(Some(b2)));
    assert_eq!(sgp.poll_measurement(&mut m, 10, 400, Some(b2)), Ok(None));
}

#[test]
fn loaded_baseline_applies_before_measurement() {
    let (_, mut sgp) = setup();
    let stored = StoredBaseline {
        co2eq: 0x1234,
        tvoc: 0x5678,
    };
    // a persisted record is applied when nothing better is known
    assert_eq!(sgp.apply_loaded_baseline(Some(stored)), Some(stored));
    // a later load does not displace what is already known
    let other = StoredBaseline {
        co2eq: 1,
        tvoc: 2,
    };
    assert_eq!(sgp.apply_loaded_baseline(Some(other)), Some(stored));
}

#[test]
fn adapter_registration_is_owed_and_bounded() {
    // with room in both families, construction must succeed
    let mut m = SensorMetrics::new();
    let cfg = Config::new();
    assert!(Sgp30::new(&mut m, &cfg).is_some());
    // a second construction reuses the registered slots
    assert!(Sgp30::new(&mut m, &cfg).is_some());
    // with the TVOC family full of other labels, construction fails
    let mut full = SensorMetrics::new();
    full.tvoc_ppb
        .register(MetricLabel::Sensor(SensorName::Bme680))
        .unwrap();
    full.tvoc_ppb
        .register(MetricLabel::Sensor(SensorName::Ens160))
        .unwrap();
    full.tvoc_ppb
        .register(MetricLabel::Sensor(SensorName::Scd30))
        .unwrap();
    assert!(Sgp30::new(&mut full, &cfg).is_none());
}

#[test]
fn registered_slots_carry_the_sensor_label() {
    let mut m = SensorMetrics::new();
    let cfg = Config::new();
    let mut sgp = Sgp30::new(&mut m, &cfg).unwrap();
    for _ in 0..16 {
        sgp.poll_measurement(&mut m, 10, 400, None).unwrap();
    }
    sgp.poll_measurement(&mut m, 125, 412, None).unwrap();
    let text = m.fmt_metrics();
    // the published values sit under this sensor's own label
    assert!(text.contains("tvoc_ppb{sensor=\"SGP30\"} 125.000\n"));
    assert!(text.contains("eco2_ppm{sensor=\"SGP30\"} 412.000\n"));
}

#[test]
fn humidity_fixed_point_conversion() {
    // 11.482 g/m³: 11 whole grams, 482/1000 of a gram in 1/256 steps
    assert_eq!(humidity_fixed_point(11_482), Some((11, 123)));
    // exactly one gram
    assert_eq!(humidity_fixed_point(1_000), Some((1, 0)));
    // out of the representable range
    assert_eq!(humidity_fixed_point(0), None);
    assert_eq!(humidity_fixed_point(-5), None);
    assert_eq!(humidity_fixed_point(256_000), None);
    // largest representable value
    assert_eq!(humidity_fixed_point(255_999), Some((255, 255)));
    // too small to represent
    assert_eq!(humidity_fixed_point(3), None);
}

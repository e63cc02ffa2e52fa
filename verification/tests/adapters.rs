//! Remaining adapter decisions, the sensor registry and the HTTP
//! surfaces it feeds.

use eclss::bus::SharedBus;
use eclss::error::{status_for, I2cErrorKind, SensorError};
use eclss::metrics::{MetricLabel, SensorMetrics};
use eclss::name::SensorName;
use eclss::render::{fmt_millis, fmt_u64, index_html, not_found_body};
use eclss::sensor::bme680::{timeout_action, Bme680, Bme680Error, TimeoutAction};
use eclss::sensor::ens160::{
    init_status_error_step, init_validity_step, poll_validity_step, scale_compensation, Ens160,
    InitStep, PollDecision, Validity,
};
use eclss::sensor::sen55::Sen55;
use eclss::sensor::sht41::{Precision, Sht41};
use eclss::sensor::{Registry, State};
use eclss::retry::ExpBackoff;
use eclss::status::SensorStatus;
use eclss::trace::TraceFormat;
use eclss::{Config, Eclss};

#[test]
fn error_status_mapping() {
    assert_eq!(status_for(None), SensorStatus::SensorError);
    assert_eq!(
        status_for(Some(I2cErrorKind::NoAcknowledge)),
        SensorStatus::NoAcknowledge
    );
    assert_eq!(status_for(Some(I2cErrorKind::Bus)), SensorStatus::BusError);
    assert_eq!(
        status_for(Some(I2cErrorKind::Other)),
        SensorStatus::OtherI2cError
    );
    // adapter errors classify through the same mapping
    let e = Bme680Error::WriteError(I2cErrorKind::NoAcknowledge);
    assert_eq!(e.as_status(), SensorStatus::NoAcknowledge);
    assert!(!e.should_reset());
    let e = Bme680Error::MeasuringTimeOut;
    assert_eq!(e.as_status(), SensorStatus::SensorError);
}

#[test]
fn bme680_timeout_policy() {
    for t in 0..5 {
        assert_eq!(timeout_action(t), TimeoutAction::RetryMeasurement);
    }
    assert_eq!(timeout_action(5), TimeoutAction::GiveUpQuietly);
    assert_eq!(timeout_action(100), TimeoutAction::GiveUpQuietly);
}

#[test]
fn bme680_corrects_pressure_scale() {
    let mut m = SensorMetrics::new();
    let cfg = Config::new();
    let mut adapter = Bme680::new(&mut m, &cfg).unwrap();
    // the driver reports 101325.0 (hPa scaled by 100); the gauge takes
    // 1013.25 hPa
    adapter.record_measurement(&mut m, 21_500, 45_000, 101_325_000, Some(12_345_000));
    let h = m
        .pressure_hpa
        .register(MetricLabel::Sensor(SensorName::Bme680))
        .unwrap();
    assert_eq!(m.pressure_hpa.value_at(h), 1_013_250);
    let g = m
        .gas_resistance
        .register(MetricLabel::Sensor(SensorName::Bme680))
        .unwrap();
    assert_eq!(m.gas_resistance.value_at(g), 12_345_000);
}

#[test]
fn ens160_warmup_policy() {
    assert_eq!(init_validity_step(Validity::NormalOperation), InitStep::Ready);
    assert_eq!(
        init_validity_step(Validity::WarmupPhase),
        InitStep::Wait { delay_ms: 30_000 }
    );
    assert_eq!(
        init_validity_step(Validity::InitStartupPhase),
        InitStep::Wait { delay_ms: 120_000 }
    );
    assert_eq!(init_validity_step(Validity::InvalidOutput), InitStep::Fail);
    // a status-read failure only fails the very first probe
    assert_eq!(init_status_error_step(0, 0), None);
    assert_eq!(init_status_error_step(1, 0), Some(30_000));
    assert_eq!(init_status_error_step(0, 2), Some(30_000));
}

#[test]
fn ens160_poll_policy_and_compensation() {
    assert_eq!(poll_validity_step(Validity::NormalOperation), PollDecision::Proceed);
    assert_eq!(poll_validity_step(Validity::InvalidOutput), PollDecision::Fail);
    assert_eq!(poll_validity_step(Validity::WarmupPhase), PollDecision::Skip);
    // 25.504 degrees scales to 2550 hundredths
    assert_eq!(scale_compensation(25_504), 2550);
    assert_eq!(scale_compensation(-1_505), -150);
    assert_eq!(scale_compensation(0), 0);

    let mut m = SensorMetrics::new();
    let cfg = Config::new();
    let adapter = Ens160::new(&mut m, &cfg).unwrap();
    assert_eq!(adapter.temp_compensation(&m), None);
    let t = m
        .temp_c
        .register(MetricLabel::Sensor(SensorName::Sht41))
        .unwrap();
    m.temp_c.set_value(t, 25_504);
    assert_eq!(adapter.temp_compensation(&m), Some(2550));
    adapter.record_measurement(&mut m, 55, 460);
    let tv = m
        .tvoc_ppb
        .register(MetricLabel::Sensor(SensorName::Ens160))
        .unwrap();
    assert_eq!(m.tvoc_ppb.value_at(tv), 55_000);
}

#[test]
fn sen55_records_only_reported_values_when_ready() {
    let mut m = SensorMetrics::new();
    let cfg = Config::new();
    let mut adapter = Sen55::new(&mut m, &cfg).unwrap();
    // not ready: nothing is written
    adapter.record_measurements(
        &mut m,
        false,
        Some(20_000),
        Some(40_000),
        Some(50_000),
        Some(1_000),
        None,
        None,
        None,
        None,
    );
    let temp = m
        .temp_c
        .register(MetricLabel::Sensor(SensorName::Sen55))
        .unwrap();
    assert!(!m.temp_c.recorded_at(temp));
    // ready: the reported values land, the missing ones stay silent
    adapter.record_measurements(
        &mut m,
        true,
        Some(20_000),
        None,
        Some(50_000),
        None,
        Some(2_500),
        None,
        None,
        None,
    );
    assert_eq!(m.temp_c.value_at(temp), 20_000);
    let rh = m
        .rel_humidity_percent
        .register(MetricLabel::Sensor(SensorName::Sen55))
        .unwrap();
    assert!(!m.rel_humidity_percent.recorded_at(rh));
    // the warm-start parameter is remembered for the next init
    assert_eq!(adapter.warm_start_param(), None);
    adapter.note_warm_start_param(37);
    assert_eq!(adapter.warm_start_param(), Some(37));
}

#[test]
fn sht41_records_and_keeps_precision() {
    let mut m = SensorMetrics::new();
    let cfg = Config::new();
    let adapter = Sht41::new(&mut m, &cfg).unwrap();
    assert_eq!(adapter.precision(), Precision::Medium);
    let mut adapter = adapter.with_precision(Precision::High);
    assert_eq!(adapter.precision(), Precision::High);
    adapter.record_measurement(&mut m, 19_250, 55_500);
    let t = m
        .temp_c
        .register(MetricLabel::Sensor(SensorName::Sht41))
        .unwrap();
    assert_eq!(m.temp_c.value_at(t), 19_250);
}

#[test]
fn registry_same_name_same_slot() {
    let mut reg = Registry::new(4);
    let a = reg
        .get_or_register(SensorName::Scd41, State::new(5000, ExpBackoff::new(500)))
        .unwrap();
    let b = reg
        .get_or_register(SensorName::Scd41, State::new(1000, ExpBackoff::new(100)))
        .unwrap();
    assert_eq!(a, b);
    // the first registration's state stands
    assert_eq!(reg.poll_interval_ms(a), 5000);
}

#[test]
fn registry_capacity_is_a_hard_limit() {
    let mut reg = Registry::new(1);
    assert!(reg
        .get_or_register(SensorName::Scd41, State::default())
        .is_some());
    assert!(reg
        .get_or_register(SensorName::Bme680, State::default())
        .is_none());
}

#[test]
fn sensors_json_reports_status_found_and_cadence() {
    let mut reg = Registry::new(4);
    let h = reg
        .get_or_register(SensorName::Scd41, State::new(5000, ExpBackoff::new(500)))
        .unwrap();
    reg.set_status(h, SensorStatus::NoAcknowledge);
    let json = reg.fmt_sensors_json();
    let expected = "{\"SCD41\":{\"status\":\"NoAcknowledge\",\"found\":false,\"poll_interval\":{\"secs\":5,\"nanos\":0}}}";
    assert_eq!(json, expected);
    reg.set_status(h, SensorStatus::Up);
    reg.set_found(h, true);
    let json = reg.fmt_sensors_json();
    assert!(json.contains("\"status\":\"Up\",\"found\":true"));
    let snap = reg.snapshot(h);
    assert_eq!(snap.status, SensorStatus::Up);
    assert!(snap.found);
    assert_eq!(snap.poll_interval_ms, 5000);
}

#[test]
fn registry_drives_backoff_per_slot() {
    let mut reg = Registry::new(2);
    let h = reg
        .get_or_register(SensorName::Sgp30, State::new(943, ExpBackoff::new(500)))
        .unwrap();
    assert_eq!(reg.backoff_wait(h), 0);
    assert_eq!(reg.backoff_wait(h), 500);
    reg.backoff_reset(h);
    assert_eq!(reg.backoff_current(h), 500);
}

#[test]
fn bus_admits_one_holder_at_a_time() {
    let mut bus = SharedBus::new();
    assert!(bus.acquire(SensorName::Scd41));
    assert_eq!(bus.holder(), Some(SensorName::Scd41));
    // a second transaction must wait
    assert!(!bus.acquire(SensorName::Bme680));
    assert_eq!(bus.holder(), Some(SensorName::Scd41));
    bus.release(SensorName::Scd41);
    assert!(bus.acquire(SensorName::Bme680));
}

#[test]
fn composition_starts_empty() {
    let e = Eclss::new();
    assert_eq!(e.sensors().len(), 0);
    let text = e.metrics().fmt_metrics();
    // headers render, no sample lines yet
    assert!(text.contains("# TYPE temperature_degrees_celcius gauge\n"));
    assert!(!text.contains("sensor=\""));
}

#[test]
fn static_http_bodies() {
    assert!(index_html().contains("/metrics.json"));
    assert_eq!(not_found_body(), "can't get ye flask");
}

#[test]
fn number_formatting() {
    assert_eq!(fmt_u64(0), "0");
    assert_eq!(fmt_u64(417), "417");
    assert_eq!(fmt_u64(u64::MAX), "18446744073709551615");
    assert_eq!(fmt_millis(11_482), "11.482");
    assert_eq!(fmt_millis(-250), "-0.250");
    assert_eq!(fmt_millis(0), "0.000");
    assert_eq!(fmt_millis(1_000), "1.000");
    assert_eq!(fmt_millis(999), "0.999");
    assert_eq!(fmt_millis(-1_001), "-1.001");
}

#[test]
fn trace_format_names() {
    assert_eq!(TraceFormat::default(), TraceFormat::Text);
    assert_eq!(TraceFormat::Journald.as_str(), "journald");
    assert_eq!(TraceFormat::Pretty.as_str(), "pretty");
    assert_eq!(TraceFormat::Json.as_str(), "json");
}

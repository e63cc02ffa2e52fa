//! Metric registry behavior: idempotent registration, capacity, means,
//! and the rendered text surfaces.

use eclss::metrics::{GaugeFamily, MetricLabel, SensorMetrics};
use eclss::name::SensorName;

#[test]
fn register_same_label_returns_same_handle() {
    let mut m = SensorMetrics::new();
    let a = m
        .temp_c
        .register(MetricLabel::Sensor(SensorName::Bme680))
        .unwrap();
    let b = m
        .temp_c
        .register(MetricLabel::Sensor(SensorName::Bme680))
        .unwrap();
    assert_eq!(a, b);
    let c = m
        .temp_c
        .register(MetricLabel::Sensor(SensorName::Scd41))
        .unwrap();
    assert_ne!(a, c);
    let d = m
        .temp_c
        .register(MetricLabel::Sensor(SensorName::Scd41))
        .unwrap();
    assert_eq!(c, d);
}

#[test]
fn register_past_capacity_fails() {
    let mut f = GaugeFamily::new("gauge_family", "a small family", "", 1);
    let a = f.register(MetricLabel::Sensor(SensorName::Bme680));
    assert!(a.is_some());
    let b = f.register(MetricLabel::Sensor(SensorName::Scd41));
    assert!(b.is_none());
    // the already-registered label still answers its handle
    let again = f.register(MetricLabel::Sensor(SensorName::Bme680));
    assert_eq!(again, a);
}

#[test]
fn gauge_mean_is_running_mean_of_all_sets() {
    let mut f = GaugeFamily::new("g", "help", "", 4);
    let h = f.register(MetricLabel::Sensor(SensorName::Scd41)).unwrap();
    assert_eq!(f.mean(), None);
    f.set_value(h, 1000);
    f.set_value(h, 2000);
    f.set_value(h, 3000);
    // last-write-wins value, mean over the whole history
    assert_eq!(f.value_at(h), 3000);
    assert_eq!(f.mean(), Some(2000));
}

#[test]
fn family_mean_spans_all_slots() {
    let mut f = GaugeFamily::new("g", "help", "", 4);
    let a = f.register(MetricLabel::Sensor(SensorName::Bme680)).unwrap();
    let b = f.register(MetricLabel::Sensor(SensorName::Scd41)).unwrap();
    f.set_value(a, 1000);
    f.set_value(b, 3000);
    assert_eq!(f.mean(), Some(2000));
}

#[test]
fn gauge_mean_truncates_toward_zero() {
    let mut f = GaugeFamily::new("g", "help", "", 2);
    let h = f.register(MetricLabel::Sensor(SensorName::Sht41)).unwrap();
    f.set_value(h, -3);
    f.set_value(h, -4);
    // (-7)/2 truncates to -3
    assert_eq!(f.mean(), Some(-3));
}

#[test]
fn counter_counts_and_marks_recorded() {
    let mut m = SensorMetrics::new();
    let h = m
        .sensor_errors
        .register(MetricLabel::Sensor(SensorName::Sgp30))
        .unwrap();
    assert!(!m.sensor_errors.recorded_at(h));
    m.sensor_errors.fetch_add(h, 1);
    m.sensor_errors.fetch_add(h, 2);
    assert_eq!(m.sensor_errors.value_at(h), 3);
    assert!(m.sensor_errors.recorded_at(h));
}

#[test]
fn prometheus_render_lists_populated_slots_exactly_once() {
    let mut m = SensorMetrics::new();
    let bme = m
        .temp_c
        .register(MetricLabel::Sensor(SensorName::Bme680))
        .unwrap();
    // a registered but never-written slot must not be rendered
    let _scd = m
        .temp_c
        .register(MetricLabel::Sensor(SensorName::Scd41))
        .unwrap();
    m.temp_c.set_value(bme, 21_500);
    let text = m.fmt_metrics();
    let line = "temperature_degrees_celcius{sensor=\"BME680\"} 21.500\n";
    assert_eq!(text.matches(line).count(), 1);
    assert_eq!(text.matches("sensor=\"SCD41\"").count(), 0);
    assert_eq!(
        text.matches("# TYPE temperature_degrees_celcius gauge").count(),
        1
    );
}

#[test]
fn prometheus_render_formats_negative_values() {
    let mut m = SensorMetrics::new();
    let h = m
        .temp_c
        .register(MetricLabel::Sensor(SensorName::Sht41))
        .unwrap();
    m.temp_c.set_value(h, -250);
    let text = m.fmt_metrics();
    assert!(text.contains("temperature_degrees_celcius{sensor=\"SHT41\"} -0.250\n"));
}

#[test]
fn prometheus_render_includes_counters() {
    let mut m = SensorMetrics::new();
    let h = m
        .sensor_errors
        .register(MetricLabel::Sensor(SensorName::Scd30))
        .unwrap();
    m.sensor_errors.fetch_add(h, 7);
    let text = m.fmt_metrics();
    assert!(text.contains("# TYPE sensor_error_count counter\n"));
    assert_eq!(
        text.matches("sensor_error_count{sensor=\"SCD30\"} 7\n").count(),
        1
    );
}

#[test]
fn renders_are_identical_without_updates() {
    let mut m = SensorMetrics::new();
    let h = m
        .co2_ppm
        .register(MetricLabel::Sensor(SensorName::Scd41))
        .unwrap();
    m.co2_ppm.set_value(h, 417_000);
    let first = m.fmt_metrics();
    let second = m.fmt_metrics();
    assert_eq!(first, second);
    let json_a = m.fmt_metrics_json(None);
    let json_b = m.fmt_metrics_json(None);
    assert_eq!(json_a, json_b);
}

#[test]
fn metrics_json_shape() {
    let mut m = SensorMetrics::new();
    let h = m
        .temp_c
        .register(MetricLabel::Sensor(SensorName::Bme680))
        .unwrap();
    m.temp_c.set_value(h, 21_500);
    let location = String::from("lab");
    let json = m.fmt_metrics_json(Some(&location));
    assert!(json.starts_with("{\"temp_c\":[{\"sensor\":\"BME680\",\"value\":21.500}],"));
    assert!(json.contains("\"co2_ppm\":[]"));
    assert!(json.ends_with(",\"location\":\"lab\"}"));
    let no_loc = m.fmt_metrics_json(None);
    assert!(no_loc.ends_with(",\"location\":null}"));
}

#[test]
fn metrics_json_escapes_location() {
    let m = SensorMetrics::new();
    let location = String::from("rack \"A\" \\ shelf");
    let json = m.fmt_metrics_json(Some(&location));
    assert!(json.ends_with(",\"location\":\"rack \\\"A\\\" \\\\ shelf\"}"));
}

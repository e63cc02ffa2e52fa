//! Sensor identity and status behavior.

use eclss::name::SensorName;
use eclss::status::{SensorStatus, StatusCell};

const SENSOR_KINDS: &[(&str, SensorName)] = &[
    ("BME680", SensorName::Bme680),
    ("ENS160", SensorName::Ens160),
    ("PMSA003I", SensorName::Pmsa003i),
    ("SCD30", SensorName::Scd30),
    ("SCD40", SensorName::Scd40),
    ("SCD41", SensorName::Scd41),
    ("SHT41", SensorName::Sht41),
    ("SGP30", SensorName::Sgp30),
    ("SEN55", SensorName::Sen55),
];

#[test]
fn sensor_name_from_str() {
    for &(s, name) in SENSOR_KINDS {
        assert_eq!(s.parse::<SensorName>(), Ok(name));
    }
}

#[test]
fn sensor_name_from_str_lowercase() {
    for &(s, name) in SENSOR_KINDS {
        assert_eq!(s.to_ascii_lowercase().parse::<SensorName>(), Ok(name));
    }
}

#[test]
fn sensor_name_display() {
    for &(s, name) in SENSOR_KINDS {
        assert_eq!(s, name.to_string());
    }
}

#[test]
fn sensor_name_rejects_unknown() {
    assert_eq!(SensorName::parse("SCD99"), None);
    assert_eq!(SensorName::parse(""), None);
    assert_eq!(SensorName::parse("BME68"), None);
}

#[test]
fn status_byte_round_trip() {
    let all = [
        SensorStatus::Unknown,
        SensorStatus::Initializing,
        SensorStatus::NoAcknowledge,
        SensorStatus::Up,
        SensorStatus::SensorError,
        SensorStatus::BusError,
        SensorStatus::OtherI2cError,
    ];
    for s in all {
        assert_eq!(SensorStatus::from_u8(s.as_u8()), s);
    }
}

#[test]
fn status_unknown_byte_reads_unknown() {
    assert_eq!(SensorStatus::from_u8(0), SensorStatus::Unknown);
    assert_eq!(SensorStatus::from_u8(8), SensorStatus::Unknown);
    assert_eq!(SensorStatus::from_u8(255), SensorStatus::Unknown);
}

#[test]
fn status_present_and_error() {
    assert!(!SensorStatus::Unknown.is_present());
    assert!(!SensorStatus::NoAcknowledge.is_present());
    assert!(SensorStatus::Up.is_present());
    assert!(SensorStatus::Initializing.is_present());
    assert!(SensorStatus::SensorError.is_present());

    assert!(SensorStatus::SensorError.is_error());
    assert!(SensorStatus::BusError.is_error());
    assert!(SensorStatus::OtherI2cError.is_error());
    assert!(!SensorStatus::Up.is_error());
    assert!(!SensorStatus::Unknown.is_error());
    assert!(!SensorStatus::NoAcknowledge.is_error());
    assert!(!SensorStatus::Initializing.is_error());
}

#[test]
fn status_cell_swaps() {
    let mut cell = StatusCell::new();
    assert_eq!(cell.status(), SensorStatus::Unknown);
    let prev = cell.set_status(SensorStatus::Initializing);
    assert_eq!(prev, SensorStatus::Unknown);
    let prev = cell.set_status(SensorStatus::Up);
    assert_eq!(prev, SensorStatus::Initializing);
    assert_eq!(cell.status(), SensorStatus::Up);
}

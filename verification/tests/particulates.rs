//! PMSA003I packet decoding and metric publication.

use eclss::metrics::SensorMetrics;
use eclss::sensor::pmsa003i::{Pmsa003i, Reading, ReadingError};
use eclss::Config;

/// A syntactically valid packet with the given data words.
fn packet(words: [u16; 13]) -> [u8; 32] {
    let mut bytes = [0u8; 32];
    bytes[0] = 0x42;
    bytes[1] = 0x4d;
    // length field (unchecked by the decoder)
    bytes[2] = 0;
    bytes[3] = 28;
    for (i, w) in words.iter().enumerate() {
        let off = 4 + 2 * i;
        bytes[off] = (w >> 8) as u8;
        bytes[off + 1] = (w & 0xff) as u8;
    }
    let sum: u16 = bytes[..30].iter().map(|&b| b as u16).sum();
    bytes[30] = (sum >> 8) as u8;
    bytes[31] = (sum & 0xff) as u8;
    bytes
}

#[test]
fn from_bytes_decodes_a_valid_packet() {
    let bytes = packet([10, 25, 100, 11, 26, 101, 1000, 900, 800, 700, 600, 500, 0x0700]);
    let reading = Reading::from_bytes(&bytes).unwrap();
    assert_eq!(reading.concentrations.pm1_0_standard, 10);
    assert_eq!(reading.concentrations.pm2_5_standard, 25);
    assert_eq!(reading.concentrations.pm10_0_standard, 100);
    assert_eq!(reading.concentrations.pm1_0, 11);
    assert_eq!(reading.concentrations.pm2_5, 26);
    assert_eq!(reading.concentrations.pm10_0, 101);
    assert_eq!(reading.counts.particles_0_3um, 1000);
    assert_eq!(reading.counts.particles_10_0um, 500);
    assert_eq!(reading.sensor_version, 0x07);
}

#[test]
fn from_bytes_rejects_bad_magic() {
    let mut bytes = packet([0; 13]);
    bytes[0] = 0x41;
    match Reading::from_bytes(&bytes) {
        Err(ReadingError::BadMagic(m)) => assert_eq!(m, 0x414d),
        other => panic!("expected BadMagic, got {other:?}"),
    }
}

#[test]
fn from_bytes_rejects_error_code() {
    let mut bytes = packet([0; 13]);
    bytes[29] = 0x05;
    match Reading::from_bytes(&bytes) {
        Err(ReadingError::ErrorCode(c)) => assert_eq!(c, 0x05),
        other => panic!("expected ErrorCode, got {other:?}"),
    }
}

#[test]
fn from_bytes_rejects_bad_checksum() {
    let mut bytes = packet([1, 2, 3, 4, 5, 6, 7, 8, 9, 10, 11, 12, 0]);
    bytes[31] = bytes[31].wrapping_add(1);
    match Reading::from_bytes(&bytes) {
        Err(ReadingError::Checksum { sum, checksum }) => {
            assert_ne!(sum, checksum);
        }
        other => panic!("expected Checksum, got {other:?}"),
    }
}

#[test]
fn process_reading_publishes_gauges() {
    let mut m = SensorMetrics::new();
    let cfg = Config::new();
    let adapter = Pmsa003i::new(&mut m, &cfg).unwrap();
    let bytes = packet([10, 25, 100, 11, 26, 101, 1000, 900, 800, 700, 600, 500, 0]);
    let reading = Reading::from_bytes(&bytes).unwrap();
    adapter.process_reading(&mut m, &reading);
    // environmental (not standard-atmosphere) concentrations are
    // published, in milli-units
    let text = m.fmt_metrics();
    assert!(text.contains(
        "pm_concentration_ug_m3{diameter=\"2.5\",sensor=\"PMSA003I\"} 26.000\n"
    ));
    assert!(text.contains("pm_count{diameter=\"0.3\",sensor=\"PMSA003I\"} 1000.000\n"));
}

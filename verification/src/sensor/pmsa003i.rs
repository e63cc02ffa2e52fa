//! The PMSA003I particulate-matter sensor: packet decoding and the
//! metrics its adapter publishes.
//!
//! The device answers a read with a 32-byte packet of sixteen big-endian
//! words: a magic word, a length, six particulate concentrations, six
//! particle counts, a version/error pair and a checksum over the first
//! thirty bytes.

use vstd::prelude::*;

use crate::error::{I2cErrorKind, SensorError};
use crate::metrics::{
    spec_find, spec_family_after_set, Diameter, DiameterLabel, MetricLabel, SensorMetrics,
};
use crate::name::SensorName;
use crate::sensor::PollCount;
use crate::Config;

verus! {

/// How often the PMSA003I is polled.
pub const PMSA003I_POLL_INTERVAL_MS: u64 = 2000;

/// A decoded sensor packet.
#[derive(Copy, Clone, PartialEq, Eq, Structural, Debug)]
pub struct Reading {
    /// Particulate concentrations in micrograms per cubic meter.
    pub concentrations: Concentrations,
    /// Counts of particles of various diameters in 0.1 L of air.
    pub counts: ParticleCounts,
    /// The sensor version field.
    pub sensor_version: u8,
}

/// Particulate concentrations in micrograms per cubic meter.
#[derive(Copy, Clone, PartialEq, Eq, Structural, Debug)]
pub struct Concentrations {
    pub pm1_0: u16,
    pub pm1_0_standard: u16,
    pub pm2_5: u16,
    pub pm2_5_standard: u16,
    pub pm10_0: u16,
    pub pm10_0_standard: u16,
}

/// Counts of particles of various diameters in 0.1 L of air.
#[derive(Copy, Clone, PartialEq, Eq, Structural, Debug)]
pub struct ParticleCounts {
    pub particles_0_3um: u16,
    pub particles_0_5um: u16,
    pub particles_1_0um: u16,
    pub particles_2_5um: u16,
    pub particles_5_0um: u16,
    pub particles_10_0um: u16,
}

/// Why a packet failed to decode.
#[derive(Copy, Clone, PartialEq, Eq, Structural, Debug)]
pub enum ReadingError {
    /// The sum of the packet did not match the checksum.
    Checksum { sum: u16, checksum: u16 },
    /// The packet was missing the magic word.
    BadMagic(u16),
    /// The sensor sent a non-zero error code.
    ErrorCode(u8),
}

/// Why a poll of the sensor failed.
#[derive(Copy, Clone, PartialEq, Eq, Structural, Debug)]
pub enum Pmsa003iError {
    /// The bus read failed.
    I2c(I2cErrorKind),
    /// The packet did not decode.
    Reading(ReadingError),
}

impl SensorError for Pmsa003iError {
    open spec fn spec_i2c_error(&self) -> Option<I2cErrorKind> {
        match self {
            Pmsa003iError::I2c(k) => Some(*k),
            Pmsa003iError::Reading(_) => None,
        }
    }

    open spec fn spec_should_reset(&self) -> bool {
        false
    }

    fn i2c_error(&self) -> (r: Option<I2cErrorKind>) {
        match self {
            Pmsa003iError::I2c(k) => Some(*k),
            Pmsa003iError::Reading(_) => None,
        }
    }

    fn should_reset(&self) -> (r: bool) {
        false
    }
}

/// The big-endian word at byte offset `i`.
pub open spec fn spec_word(b: Seq<u8>, i: int) -> int {
    b[i] * 256 + b[i + 1]
}

/// The sum of the first `n` bytes.
pub open spec fn spec_sum_bytes(b: Seq<u8>, n: int) -> int
    decreases n,
{
    if n <= 0 {
        0
    } else {
        spec_sum_bytes(b, n - 1) + b[n - 1]
    }
}

/// What a 32-byte packet decodes to: the magic word and the error-code
/// byte are checked, then the checksum over the first thirty bytes,
/// then the data words are taken at their fixed offsets.
///
/// The error check deliberately reads the single error-code byte at
/// offset 29. Reading a full big-endian word at that offset would take
/// in byte 30, the checksum's high byte, and so reject every packet
/// whose 30-byte sum exceeds 255 - that is, every packet with real
/// data in it.
pub open spec fn spec_from_bytes(b: Seq<u8>) -> Result<Reading, ReadingError> {
    if spec_word(b, 0) != 0x424d {
        Err(ReadingError::BadMagic(spec_word(b, 0) as u16))
    } else if b[29] != 0 {
        Err(ReadingError::ErrorCode(b[29]))
    } else if spec_sum_bytes(b, 30) != spec_word(b, 30) {
        Err(
            (ReadingError::Checksum {
                sum: spec_sum_bytes(b, 30) as u16,
                checksum: spec_word(b, 30) as u16,
            }),
        )
    } else {
        Ok(
            (Reading {
                concentrations: (Concentrations {
                    pm1_0_standard: spec_word(b, 4) as u16,
                    pm2_5_standard: spec_word(b, 6) as u16,
                    pm10_0_standard: spec_word(b, 8) as u16,
                    pm1_0: spec_word(b, 10) as u16,
                    pm2_5: spec_word(b, 12) as u16,
                    pm10_0: spec_word(b, 14) as u16,
                }),
                counts: (ParticleCounts {
                    particles_0_3um: spec_word(b, 16) as u16,
                    particles_0_5um: spec_word(b, 18) as u16,
                    particles_1_0um: spec_word(b, 20) as u16,
                    particles_2_5um: spec_word(b, 22) as u16,
                    particles_5_0um: spec_word(b, 24) as u16,
                    particles_10_0um: spec_word(b, 26) as u16,
                }),
                sensor_version: b[28],
            }),
        )
    }
}

impl Reading {
    /// Decode one 32-byte packet.
    pub fn from_bytes(bytes: &[u8; 32]) -> (r: Result<Reading, ReadingError>)
        ensures
            r == spec_from_bytes(bytes@),
    {
        let magic = word(bytes, 0);
        if magic != 0x424d {
            return Err(ReadingError::BadMagic(magic));
        }
        if bytes[29] != 0 {
            return Err(ReadingError::ErrorCode(bytes[29]));
        }
        let mut sum: u16 = 0;
        let mut i: usize = 0;
        while i < 30
            invariant
                i <= 30,
                sum as int == spec_sum_bytes(bytes@, i as int),
                sum <= i * 255,
            decreases 30 - i,
        {
            sum = sum + bytes[i] as u16;
            i += 1;
        }
        let checksum = word(bytes, 30);
        if sum != checksum {
            return Err(ReadingError::Checksum { sum, checksum });
        }
        Ok(
            Reading {
                concentrations: Concentrations {
                    pm1_0_standard: word(bytes, 4),
                    pm2_5_standard: word(bytes, 6),
                    pm10_0_standard: word(bytes, 8),
                    pm1_0: word(bytes, 10),
                    pm2_5: word(bytes, 12),
                    pm10_0: word(bytes, 14),
                },
                counts: ParticleCounts {
                    particles_0_3um: word(bytes, 16),
                    particles_0_5um: word(bytes, 18),
                    particles_1_0um: word(bytes, 20),
                    particles_2_5um: word(bytes, 22),
                    particles_5_0um: word(bytes, 24),
                    particles_10_0um: word(bytes, 26),
                },
                sensor_version: bytes[28],
            },
        )
    }
}

/// Read the big-endian word at byte offset `i`.
fn word(bytes: &[u8; 32], i: usize) -> (w: u16)
    requires
        i + 2 <= 32,
    ensures
        w as int == spec_word(bytes@, i as int),
{
    (bytes[i] as u16) * 256 + (bytes[i + 1] as u16)
}

/// The PMSA003I adapter: handles into the particulate families.
#[derive(Debug)]
pub struct Pmsa003i {
    pm1_0: usize,
    pm2_5: usize,
    pm10_0: usize,
    particles_0_3um: usize,
    particles_0_5um: usize,
    particles_1_0um: usize,
    particles_2_5um: usize,
    particles_5_0um: usize,
    particles_10_0um: usize,
    polls: PollCount,
}

pub open spec fn spec_dia(d: Diameter) -> MetricLabel {
    MetricLabel::Diameter((DiameterLabel { diameter: d, sensor: SensorName::Pmsa003i }))
}

impl Pmsa003i {
    /// The adapter's handles point into the particulate families, at
    /// the slots carrying this sensor's diameter labels.
    pub closed spec fn wf(&self, m: &SensorMetrics) -> bool {
        &&& self.pm1_0 < m.pm_conc@.metrics.len()
        &&& self.pm2_5 < m.pm_conc@.metrics.len()
        &&& self.pm10_0 < m.pm_conc@.metrics.len()
        &&& self.particles_0_3um < m.pm_count@.metrics.len()
        &&& self.particles_0_5um < m.pm_count@.metrics.len()
        &&& self.particles_1_0um < m.pm_count@.metrics.len()
        &&& self.particles_2_5um < m.pm_count@.metrics.len()
        &&& self.particles_5_0um < m.pm_count@.metrics.len()
        &&& self.particles_10_0um < m.pm_count@.metrics.len()
        &&& m.pm_conc@.labels[self.pm1_0 as int] == spec_dia(Diameter::Um1_0)
        &&& m.pm_conc@.labels[self.pm2_5 as int] == spec_dia(Diameter::Um2_5)
        &&& m.pm_conc@.labels[self.pm10_0 as int] == spec_dia(Diameter::Um10_0)
        &&& m.pm_count@.labels[self.particles_0_3um as int] == spec_dia(Diameter::Um0_3)
        &&& m.pm_count@.labels[self.particles_0_5um as int] == spec_dia(Diameter::Um0_5)
        &&& m.pm_count@.labels[self.particles_1_0um as int] == spec_dia(Diameter::Um1_0)
        &&& m.pm_count@.labels[self.particles_2_5um as int] == spec_dia(Diameter::Um2_5)
        &&& m.pm_count@.labels[self.particles_5_0um as int] == spec_dia(Diameter::Um5_0)
        &&& m.pm_count@.labels[self.particles_10_0um as int] == spec_dia(Diameter::Um10_0)
        &&& self.polls.wf()
    }

    /// Register the adapter's metric slots. `None` when a family is out
    /// of capacity, which is fatal at startup.
    pub fn new(metrics: &mut SensorMetrics, config: &Config) -> (r: Option<Pmsa003i>)
        requires
            old(metrics).wf(),
            config.wf(),
        ensures
            final(metrics).wf(),
            // registration succeeds when both families have room for
            // every label this sensor needs ...
            old(metrics).pm_conc@.labels.len() + 3 <= old(metrics).pm_conc@.capacity && old(metrics).pm_count@.labels.len() + 6 <= old(metrics).pm_count@.capacity ==> r is Some,
            // ... and when every label is already registered
            spec_find(old(metrics).pm_conc@.labels, spec_dia(Diameter::Um1_0)) is Some
                && spec_find(old(metrics).pm_conc@.labels, spec_dia(Diameter::Um2_5)) is Some
                && spec_find(old(metrics).pm_conc@.labels, spec_dia(Diameter::Um10_0)) is Some
                && spec_find(old(metrics).pm_count@.labels, spec_dia(Diameter::Um0_3)) is Some
                && spec_find(old(metrics).pm_count@.labels, spec_dia(Diameter::Um0_5)) is Some
                && spec_find(old(metrics).pm_count@.labels, spec_dia(Diameter::Um1_0)) is Some
                && spec_find(old(metrics).pm_count@.labels, spec_dia(Diameter::Um2_5)) is Some
                && spec_find(old(metrics).pm_count@.labels, spec_dia(Diameter::Um5_0)) is Some
                && spec_find(old(metrics).pm_count@.labels, spec_dia(Diameter::Um10_0)) is Some
                ==> r is Some,
            // a handle's slot carries its diameter label (see `wf`)
            r matches Some(p) ==> p.wf(final(metrics)),
            final(metrics).temp_c@ == old(metrics).temp_c@,
            final(metrics).co2_ppm@ == old(metrics).co2_ppm@,
            final(metrics).eco2_ppm@ == old(metrics).eco2_ppm@,
            final(metrics).rel_humidity_percent@ == old(metrics).rel_humidity_percent@,
            final(metrics).abs_humidity_grams_m3@ == old(metrics).abs_humidity_grams_m3@,
            final(metrics).pressure_hpa@ == old(metrics).pressure_hpa@,
            final(metrics).gas_resistance@ == old(metrics).gas_resistance@,
            final(metrics).tvoc_ppb@ == old(metrics).tvoc_ppb@,
            final(metrics).tvoc_iaq_index@ == old(metrics).tvoc_iaq_index@,
            final(metrics).nox_iaq_index@ == old(metrics).nox_iaq_index@,
            final(metrics).sensor_errors@ == old(metrics).sensor_errors@,
            final(metrics).sensor_reset_count@ == old(metrics).sensor_reset_count@,
    {
        let polls = config.poll_counter(PMSA003I_POLL_INTERVAL_MS);
        let pm1_0 = match metrics.pm_conc.register(make_dia(Diameter::Um1_0)) {
            Some(h) => h,
            None => {
                return None;
            },
        };
        let pm2_5 = match metrics.pm_conc.register(make_dia(Diameter::Um2_5)) {
            Some(h) => h,
            None => {
                return None;
            },
        };
        let pm10_0 = match metrics.pm_conc.register(make_dia(Diameter::Um10_0)) {
            Some(h) => h,
            None => {
                return None;
            },
        };
        let particles_0_3um = match metrics.pm_count.register(make_dia(Diameter::Um0_3)) {
            Some(h) => h,
            None => {
                return None;
            },
        };
        let particles_0_5um = match metrics.pm_count.register(make_dia(Diameter::Um0_5)) {
            Some(h) => h,
            None => {
                return None;
            },
        };
        let particles_1_0um = match metrics.pm_count.register(make_dia(Diameter::Um1_0)) {
            Some(h) => h,
            None => {
                return None;
            },
        };
        let particles_2_5um = match metrics.pm_count.register(make_dia(Diameter::Um2_5)) {
            Some(h) => h,
            None => {
                return None;
            },
        };
        let particles_5_0um = match metrics.pm_count.register(make_dia(Diameter::Um5_0)) {
            Some(h) => h,
            None => {
                return None;
            },
        };
        let particles_10_0um = match metrics.pm_count.register(make_dia(Diameter::Um10_0)) {
            Some(h) => h,
            None => {
                return None;
            },
        };
        Some(
            Pmsa003i {
                pm1_0,
                pm2_5,
                pm10_0,
                particles_0_3um,
                particles_0_5um,
                particles_1_0um,
                particles_2_5um,
                particles_5_0um,
                particles_10_0um,
                polls,
            },
        )
    }

    pub closed spec fn spec_polls(&self) -> &PollCount {
        &self.polls
    }

    /// Whether this poll logs its reading at INFO level.
    pub fn should_log_info(&self) -> (r: bool)
        requires
            self.spec_polls().wf(),
        ensures
            r == (self.spec_polls().spec_polls() % self.spec_polls().spec_log_info_interval()
                == 0),
    {
        self.polls.should_log_info()
    }

    /// Publish one decoded packet: the three environmental
    /// concentrations and all six particle counts, in milli-units.
    pub fn process_reading(&self, metrics: &mut SensorMetrics, reading: &Reading)
        requires
            old(metrics).wf(),
            self.wf(old(metrics)),
        ensures
            final(metrics).wf(),
            self.wf(final(metrics)),
            final(metrics).pm_conc@ == spec_family_after_set(
                spec_family_after_set(
                    spec_family_after_set(
                        old(metrics).pm_conc@,
                        self.spec_pm1_0() as int,
                        reading.concentrations.pm1_0 * 1000,
                    ),
                    self.spec_pm2_5() as int,
                    reading.concentrations.pm2_5 * 1000,
                ),
                self.spec_pm10_0() as int,
                reading.concentrations.pm10_0 * 1000,
            ),
            final(metrics).pm_count@ == spec_family_after_set(
                spec_family_after_set(
                    spec_family_after_set(
                        spec_family_after_set(
                            spec_family_after_set(
                                spec_family_after_set(
                                    old(metrics).pm_count@,
                                    self.spec_particles_0_3um() as int,
                                    reading.counts.particles_0_3um * 1000,
                                ),
                                self.spec_particles_0_5um() as int,
                                reading.counts.particles_0_5um * 1000,
                            ),
                            self.spec_particles_1_0um() as int,
                            reading.counts.particles_1_0um * 1000,
                        ),
                        self.spec_particles_2_5um() as int,
                        reading.counts.particles_2_5um * 1000,
                    ),
                    self.spec_particles_5_0um() as int,
                    reading.counts.particles_5_0um * 1000,
                ),
                self.spec_particles_10_0um() as int,
                reading.counts.particles_10_0um * 1000,
            ),
            final(metrics).temp_c@ == old(metrics).temp_c@,
            final(metrics).co2_ppm@ == old(metrics).co2_ppm@,
            final(metrics).eco2_ppm@ == old(metrics).eco2_ppm@,
            final(metrics).rel_humidity_percent@ == old(metrics).rel_humidity_percent@,
            final(metrics).abs_humidity_grams_m3@ == old(metrics).abs_humidity_grams_m3@,
            final(metrics).pressure_hpa@ == old(metrics).pressure_hpa@,
            final(metrics).gas_resistance@ == old(metrics).gas_resistance@,
            final(metrics).tvoc_ppb@ == old(metrics).tvoc_ppb@,
            final(metrics).tvoc_iaq_index@ == old(metrics).tvoc_iaq_index@,
            final(metrics).nox_iaq_index@ == old(metrics).nox_iaq_index@,
            final(metrics).sensor_errors@ == old(metrics).sensor_errors@,
            final(metrics).sensor_reset_count@ == old(metrics).sensor_reset_count@,
    {
        metrics.pm_conc.set_value(self.pm1_0, reading.concentrations.pm1_0 as i64 * 1000);
        metrics.pm_conc.set_value(self.pm2_5, reading.concentrations.pm2_5 as i64 * 1000);
        metrics.pm_conc.set_value(self.pm10_0, reading.concentrations.pm10_0 as i64 * 1000);
        metrics.pm_count.set_value(
            self.particles_0_3um,
            reading.counts.particles_0_3um as i64 * 1000,
        );
        metrics.pm_count.set_value(
            self.particles_0_5um,
            reading.counts.particles_0_5um as i64 * 1000,
        );
        metrics.pm_count.set_value(
            self.particles_1_0um,
            reading.counts.particles_1_0um as i64 * 1000,
        );
        metrics.pm_count.set_value(
            self.particles_2_5um,
            reading.counts.particles_2_5um as i64 * 1000,
        );
        metrics.pm_count.set_value(
            self.particles_5_0um,
            reading.counts.particles_5_0um as i64 * 1000,
        );
        metrics.pm_count.set_value(
            self.particles_10_0um,
            reading.counts.particles_10_0um as i64 * 1000,
        );
    }

    pub closed spec fn spec_pm1_0(&self) -> usize {
        self.pm1_0
    }

    pub closed spec fn spec_pm2_5(&self) -> usize {
        self.pm2_5
    }

    pub closed spec fn spec_pm10_0(&self) -> usize {
        self.pm10_0
    }

    pub closed spec fn spec_particles_0_3um(&self) -> usize {
        self.particles_0_3um
    }

    pub closed spec fn spec_particles_0_5um(&self) -> usize {
        self.particles_0_5um
    }

    pub closed spec fn spec_particles_1_0um(&self) -> usize {
        self.particles_1_0um
    }

    pub closed spec fn spec_particles_2_5um(&self) -> usize {
        self.particles_2_5um
    }

    pub closed spec fn spec_particles_5_0um(&self) -> usize {
        self.particles_5_0um
    }

    pub closed spec fn spec_particles_10_0um(&self) -> usize {
        self.particles_10_0um
    }
}

/// The particulate label for one diameter of this sensor.
fn make_dia(d: Diameter) -> (l: MetricLabel)
    ensures
        l == spec_dia(d),
{
    MetricLabel::Diameter(DiameterLabel { diameter: d, sensor: SensorName::Pmsa003i })
}

} // verus!

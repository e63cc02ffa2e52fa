//! The SGP30 TVOC/eCO2 sensor: calibration warm-up, saturation
//! detection, humidity compensation and baseline persistence decisions.

use vstd::prelude::*;

use crate::baseline::StoredBaseline;
use crate::error::{I2cErrorKind, SensorError};
use crate::metrics::{spec_can_register, spec_family_after_set, MetricLabel, SensorMetrics};
use crate::name::SensorName;
use crate::sensor::PollCount;
use crate::Config;

verus! {

/// The SGP30 must be polled about once a second for its dynamic
/// baseline algorithm; the interval leaves room for the measurement
/// commands themselves (12 + 10 + 10 + 25 ms).
pub const SGP30_POLL_INTERVAL_MS: u64 = 943;

/// A TVOC reading pinned at this value means the sensor is saturated
/// and should be reset.
pub const MAX_TVOC: u16 = 60_000;

/// The sensor skips its first readings while the dynamic baseline
/// calibration settles.
pub const CALIBRATION_POLLS: u32 = 15;

/// Why an SGP30 operation failed.
#[derive(Copy, Clone, PartialEq, Eq, Structural, Debug)]
pub enum Sgp30Error {
    /// An I2C read failed.
    I2cRead(I2cErrorKind),
    /// An I2C write failed.
    I2cWrite(I2cErrorKind),
    /// A response failed its CRC check.
    Crc,
    /// A measurement was requested before initialization.
    NotInitialized,
    /// The device's self-test reported a fault.
    SelfTestFailed,
    /// The TVOC reading is pinned at its maximum; the device needs a
    /// reset to settle down.
    Saturated,
}

impl SensorError for Sgp30Error {
    open spec fn spec_i2c_error(&self) -> Option<I2cErrorKind> {
        match self {
            Sgp30Error::I2cRead(k) => Some(*k),
            Sgp30Error::I2cWrite(k) => Some(*k),
            _ => None,
        }
    }

    open spec fn spec_should_reset(&self) -> bool {
        self is Saturated
    }

    fn i2c_error(&self) -> (r: Option<I2cErrorKind>) {
        match self {
            Sgp30Error::I2cRead(k) => Some(*k),
            Sgp30Error::I2cWrite(k) => Some(*k),
            _ => None,
        }
    }

    fn should_reset(&self) -> (r: bool) {
        matches!(self, Sgp30Error::Saturated)
    }
}

/// A failed self-test is a sensor error; a passed one is not.
pub fn check_self_test(passed: bool) -> (r: Result<(), Sgp30Error>)
    ensures
        r is Ok <==> passed,
        r matches Err(e) ==> e == Sgp30Error::SelfTestFailed,
{
    if passed {
        Ok(())
    } else {
        Err(Sgp30Error::SelfTestFailed)
    }
}

/// The humidity value pushed to the device: absolute humidity in the
/// sensor's 8.8 fixed-point format (integer grams and 1/256-gram
/// steps), representable only inside `(0, 256)` grams per cubic meter.
pub open spec fn spec_humidity_fixed_point(milli: int) -> Option<(u8, u8)> {
    if milli <= 0 || milli >= 256_000 {
        None
    } else {
        let ip = milli / 1000;
        let frac = milli % 1000 * 256 / 1000;
        if ip == 0 && frac == 0 {
            None
        } else {
            Some((ip as u8, frac as u8))
        }
    }
}

/// Convert an absolute humidity in milli-grams per cubic meter to the
/// device's 8.8 fixed-point form; `None` when it is not representable.
pub fn humidity_fixed_point(milli: i64) -> (r: Option<(u8, u8)>)
    ensures
        r == spec_humidity_fixed_point(milli as int),
{
    if milli <= 0 || milli >= 256_000 {
        return None;
    }
    let ip = (milli / 1000) as u8;
    let frac = (milli % 1000 * 256 / 1000) as u8;
    if ip == 0 && frac == 0 {
        None
    } else {
        Some((ip, frac))
    }
}

/// The SGP30 adapter: its gauge handles, calibration countdown and the
/// last baseline known to be good.
#[derive(Debug)]
pub struct Sgp30 {
    tvoc: usize,
    eco2: usize,
    calibration_polls: u32,
    last_good_baseline: Option<StoredBaseline>,
    polls: PollCount,
}

impl Sgp30 {
    /// The handles point into their families, at the slots carrying
    /// this sensor's label.
    pub closed spec fn wf(&self, m: &SensorMetrics) -> bool {
        &&& self.tvoc < m.tvoc_ppb@.metrics.len()
        &&& self.eco2 < m.eco2_ppm@.metrics.len()
        &&& m.tvoc_ppb@.labels[self.tvoc as int] == MetricLabel::Sensor(SensorName::Sgp30)
        &&& m.eco2_ppm@.labels[self.eco2 as int] == MetricLabel::Sensor(SensorName::Sgp30)
        &&& self.polls.wf()
    }

    pub closed spec fn spec_tvoc(&self) -> usize {
        self.tvoc
    }

    pub closed spec fn spec_eco2(&self) -> usize {
        self.eco2
    }

    pub closed spec fn spec_calibration_polls(&self) -> u32 {
        self.calibration_polls
    }

    pub closed spec fn spec_last_baseline(&self) -> Option<StoredBaseline> {
        self.last_good_baseline
    }

    pub closed spec fn spec_polls(&self) -> &PollCount {
        &self.polls
    }

    /// Register the adapter's metric slots. `None` when a family is out
    /// of capacity, which is fatal at startup.
    pub fn new(metrics: &mut SensorMetrics, config: &Config) -> (r: Option<Sgp30>)
        requires
            old(metrics).wf(),
            config.wf(),
        ensures
            final(metrics).wf(),
            // registration succeeds exactly when both families either
            // already hold this sensor's label or have room for it
            r is Some <==> spec_can_register(
                old(metrics).tvoc_ppb@,
                MetricLabel::Sensor(SensorName::Sgp30),
            ) && spec_can_register(
                old(metrics).eco2_ppm@,
                MetricLabel::Sensor(SensorName::Sgp30),
            ),
            r matches Some(s) ==> s.wf(final(metrics)) && s.spec_last_baseline() is None
                && s.spec_calibration_polls() == 0,
            // the returned handles point at slots carrying this
            // sensor's label
            r matches Some(s) ==> final(metrics).tvoc_ppb@.labels[s.spec_tvoc() as int]
                == MetricLabel::Sensor(SensorName::Sgp30) && final(metrics).eco2_ppm@.labels[
                s.spec_eco2() as int] == MetricLabel::Sensor(SensorName::Sgp30),
            final(metrics).temp_c@ == old(metrics).temp_c@,
            final(metrics).co2_ppm@ == old(metrics).co2_ppm@,
            final(metrics).rel_humidity_percent@ == old(metrics).rel_humidity_percent@,
            final(metrics).abs_humidity_grams_m3@ == old(metrics).abs_humidity_grams_m3@,
            final(metrics).pressure_hpa@ == old(metrics).pressure_hpa@,
            final(metrics).gas_resistance@ == old(metrics).gas_resistance@,
            final(metrics).tvoc_iaq_index@ == old(metrics).tvoc_iaq_index@,
            final(metrics).nox_iaq_index@ == old(metrics).nox_iaq_index@,
            final(metrics).pm_conc@ == old(metrics).pm_conc@,
            final(metrics).pm_count@ == old(metrics).pm_count@,
            final(metrics).sensor_errors@ == old(metrics).sensor_errors@,
            final(metrics).sensor_reset_count@ == old(metrics).sensor_reset_count@,
    {
        let polls = config.poll_counter(SGP30_POLL_INTERVAL_MS);
        let tvoc = match metrics.tvoc_ppb.register(MetricLabel::Sensor(SensorName::Sgp30)) {
            Some(h) => h,
            None => {
                return None;
            },
        };
        let eco2 = match metrics.eco2_ppm.register(MetricLabel::Sensor(SensorName::Sgp30)) {
            Some(h) => h,
            None => {
                return None;
            },
        };
        Some(Sgp30 { tvoc, eco2, calibration_polls: 0, last_good_baseline: None, polls })
    }

    /// Adopt a baseline loaded from storage at startup, and return the
    /// baseline to push to the device before measurement starts: the
    /// stored record is applied only when nothing better is known yet.
    pub fn apply_loaded_baseline(&mut self, loaded: Option<StoredBaseline>) -> (apply: Option<
        StoredBaseline,
    >)
        ensures
            final(self).spec_last_baseline() == if old(self).spec_last_baseline() is Some {
                old(self).spec_last_baseline()
            } else {
                loaded
            },
            apply == final(self).spec_last_baseline(),
            final(self).spec_tvoc() == old(self).spec_tvoc(),
            final(self).spec_eco2() == old(self).spec_eco2(),
            final(self).spec_calibration_polls() == old(self).spec_calibration_polls(),
            final(self).spec_polls() == old(self).spec_polls(),
    {
        if self.last_good_baseline.is_none() {
            self.last_good_baseline = loaded;
        }
        self.last_good_baseline
    }

    /// Whether this poll logs its reading at INFO level.
    pub fn should_log_info(&self) -> (r: bool)
        requires
            self.spec_polls().wf(),
        ensures
            r == (self.spec_polls().spec_polls() % self.spec_polls().spec_log_info_interval()
                == 0),
    {
        self.polls.should_log_info()
    }

    /// Process one measurement cycle.
    ///
    /// While the calibration countdown runs, readings are discarded.
    /// A TVOC reading pinned at the maximum is a saturation failure,
    /// asking for a reset. Otherwise the TVOC and eCO2 gauges are
    /// updated, and the freshly reported baseline is returned for
    /// persistence exactly when it differs from the last known-good
    /// one, which it replaces.
    pub fn poll_measurement(
        &mut self,
        metrics: &mut SensorMetrics,
        tvoc_ppb: u16,
        co2eq_ppm: u16,
        baseline: Option<StoredBaseline>,
    ) -> (r: Result<Option<StoredBaseline>, Sgp30Error>)
        requires
            old(metrics).wf(),
            old(self).wf(old(metrics)),
        ensures
            final(metrics).wf(),
            final(self).wf(final(metrics)),
            final(self).spec_tvoc() == old(self).spec_tvoc(),
            final(self).spec_eco2() == old(self).spec_eco2(),
            // calibration warm-up: discard, count, touch nothing
            old(self).spec_calibration_polls() <= CALIBRATION_POLLS ==> r == Ok::<
                Option<StoredBaseline>,
                Sgp30Error,
            >(None) && final(self).spec_calibration_polls() == old(self).spec_calibration_polls()
                + 1 && final(self).spec_last_baseline() == old(self).spec_last_baseline() && final(metrics).tvoc_ppb@ == old(metrics).tvoc_ppb@ && final(metrics).eco2_ppm@ == old(metrics).eco2_ppm@,
            // saturation: fail, touch nothing
            old(self).spec_calibration_polls() > CALIBRATION_POLLS && tvoc_ppb == MAX_TVOC ==> r
                == Err::<Option<StoredBaseline>, Sgp30Error>(Sgp30Error::Saturated) && final(self).spec_last_baseline() == old(self).spec_last_baseline() && final(metrics).tvoc_ppb@
                == old(metrics).tvoc_ppb@ && final(metrics).eco2_ppm@ == old(metrics).eco2_ppm@,
            // normal measurement: publish both gauges
            old(self).spec_calibration_polls() > CALIBRATION_POLLS && tvoc_ppb != MAX_TVOC ==> {
                &&& final(metrics).tvoc_ppb@ == spec_family_after_set(
                    old(metrics).tvoc_ppb@,
                    old(self).spec_tvoc() as int,
                    tvoc_ppb * 1000,
                )
                &&& final(metrics).eco2_ppm@ == spec_family_after_set(
                    old(metrics).eco2_ppm@,
                    old(self).spec_eco2() as int,
                    co2eq_ppm * 1000,
                )
                &&& (match baseline {
                    Some(b) => if old(self).spec_last_baseline() != Some(b) {
                        r == Ok::<Option<StoredBaseline>, Sgp30Error>(Some(b)) && final(self).spec_last_baseline() == Some(b)
                    } else {
                        r == Ok::<Option<StoredBaseline>, Sgp30Error>(None) && final(self).spec_last_baseline() == old(self).spec_last_baseline()
                    },
                    None => r == Ok::<Option<StoredBaseline>, Sgp30Error>(None) && final(self).spec_last_baseline() == old(self).spec_last_baseline(),
                })
            },
            // a baseline is persisted only when strictly different from
            // the last known-good one, which it then replaces
            r matches Ok(Some(b)) ==> old(self).spec_last_baseline() != Some(b) && final(self).spec_last_baseline() == Some(b),
            // every family but this sensor's own is untouched
            final(metrics).temp_c@ == old(metrics).temp_c@,
            final(metrics).co2_ppm@ == old(metrics).co2_ppm@,
            final(metrics).rel_humidity_percent@ == old(metrics).rel_humidity_percent@,
            final(metrics).abs_humidity_grams_m3@ == old(metrics).abs_humidity_grams_m3@,
            final(metrics).pressure_hpa@ == old(metrics).pressure_hpa@,
            final(metrics).gas_resistance@ == old(metrics).gas_resistance@,
            final(metrics).tvoc_iaq_index@ == old(metrics).tvoc_iaq_index@,
            final(metrics).nox_iaq_index@ == old(metrics).nox_iaq_index@,
            final(metrics).pm_conc@ == old(metrics).pm_conc@,
            final(metrics).pm_count@ == old(metrics).pm_count@,
            final(metrics).sensor_errors@ == old(metrics).sensor_errors@,
            final(metrics).sensor_reset_count@ == old(metrics).sensor_reset_count@,
    {
        if self.calibration_polls <= CALIBRATION_POLLS {
            self.calibration_polls = self.calibration_polls + 1;
            return Ok(None);
        }
        if tvoc_ppb == MAX_TVOC {
            return Err(Sgp30Error::Saturated);
        }
        metrics.tvoc_ppb.set_value(self.tvoc, tvoc_ppb as i64 * 1000);
        metrics.eco2_ppm.set_value(self.eco2, co2eq_ppm as i64 * 1000);
        let store: Option<StoredBaseline> = match baseline {
            Some(b) => {
                let same = match self.last_good_baseline {
                    Some(prev) => prev == b,
                    None => false,
                };
                if !same {
                    self.last_good_baseline = Some(b);
                    Some(b)
                } else {
                    None
                }
            },
            None => None,
        };
        self.polls.add();
        Ok(store)
    }
}

} // verus!

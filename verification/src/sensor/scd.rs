//! The Sensirion SCD family of CO2 sensors (SCD30, SCD40, SCD41):
//! shared measurement recording and the ambient-pressure compensation
//! the SCD4x parts accept. One adapter serves all three parts, which
//! differ only in their bring-up command scripts; those scripts are
//! plain driver-call sequences the binary runs.

use vstd::prelude::*;

use crate::error::{I2cErrorKind, SensorError};
use crate::humidity::{
    absolute_humidity_millis, spec_absolute_humidity_millis, spec_temp_in_range,
};
use crate::metrics::{
    spec_can_register, spec_family_after_set, spec_family_mean, MetricLabel, SensorMetrics,
};
use crate::name::SensorName;
use crate::sensor::PollCount;
use crate::Config;

verus! {

/// How often the SCD30 is polled.
pub const SCD30_POLL_INTERVAL_MS: u64 = 2000;

/// How often the SCD40 and SCD41 are polled.
pub const SCD4X_POLL_INTERVAL_MS: u64 = 5000;

/// The ambient pressures, in pascals, the SCD4x accepts as
/// compensation per its datasheet; forwarded values are clamped into
/// this inclusive range.
pub const MIN_PRESSURE_PA: u32 = 70_000;

pub const MAX_PRESSURE_PA: u32 = 120_000;

/// Why an SCD operation failed.
#[derive(Copy, Clone, PartialEq, Eq, Structural, Debug)]
pub enum ScdError {
    /// The bus transaction failed.
    I2c(I2cErrorKind),
    /// A response failed its CRC check.
    Crc,
    /// The driver rejected an input value.
    InvalidInput,
    /// The command is not allowed while periodic measurement runs.
    NotAllowed,
    /// The device's self-test reported a fault.
    SelfTest,
}

impl SensorError for ScdError {
    open spec fn spec_i2c_error(&self) -> Option<I2cErrorKind> {
        match self {
            ScdError::I2c(k) => Some(*k),
            _ => None,
        }
    }

    open spec fn spec_should_reset(&self) -> bool {
        false
    }

    fn i2c_error(&self) -> (r: Option<I2cErrorKind>) {
        match self {
            ScdError::I2c(k) => Some(*k),
            _ => None,
        }
    }

    fn should_reset(&self) -> (r: bool) {
        false
    }
}

/// A failed self-test is a sensor error; a passed one is not.
pub fn check_self_test(passed: bool) -> (r: Result<(), ScdError>)
    ensures
        r is Ok <==> passed,
        r matches Err(e) ==> e == ScdError::SelfTest,
{
    if passed {
        Ok(())
    } else {
        Err(ScdError::SelfTest)
    }
}

/// The pressure, in pascals, to forward to an SCD4x: the mean of the
/// published barometric pressures (milli-hectopascals), converted to
/// pascals rounded to the nearest (halves away from zero), then clamped
/// into the datasheet-valid range.
pub open spec fn spec_pressure_pascals(pressure_mean_milli_hpa: Option<int>) -> Option<u32> {
    match pressure_mean_milli_hpa {
        None => None,
        Some(m) => {
            let pa = if m >= 0 {
                (m + 5) / 10
            } else {
                -((-m + 5) / 10)
            };
            if pa < MIN_PRESSURE_PA {
                Some(MIN_PRESSURE_PA)
            } else if pa > MAX_PRESSURE_PA {
                Some(MAX_PRESSURE_PA)
            } else {
                Some(pa as u32)
            }
        },
    }
}

/// The state shared by every SCD adapter: its four gauge handles and
/// its poll counter.
#[derive(Debug)]
pub struct Shared {
    temp_c: usize,
    rel_humidity: usize,
    abs_humidity: usize,
    co2_ppm: usize,
    polls: PollCount,
    name: SensorName,
}

impl Shared {
    /// The handles point into their families, at the slots carrying
    /// this sensor's label.
    pub closed spec fn wf(&self, m: &SensorMetrics) -> bool {
        &&& self.temp_c < m.temp_c@.metrics.len()
        &&& self.rel_humidity < m.rel_humidity_percent@.metrics.len()
        &&& self.abs_humidity < m.abs_humidity_grams_m3@.metrics.len()
        &&& self.co2_ppm < m.co2_ppm@.metrics.len()
        &&& m.temp_c@.labels[self.temp_c as int] == MetricLabel::Sensor(self.name)
        &&& m.rel_humidity_percent@.labels[self.rel_humidity as int] == MetricLabel::Sensor(
            self.name,
        )
        &&& m.abs_humidity_grams_m3@.labels[self.abs_humidity as int] == MetricLabel::Sensor(
            self.name,
        )
        &&& m.co2_ppm@.labels[self.co2_ppm as int] == MetricLabel::Sensor(self.name)
        &&& self.polls.wf()
    }

    pub closed spec fn spec_name(&self) -> SensorName {
        self.name
    }

    pub closed spec fn spec_temp_c(&self) -> usize {
        self.temp_c
    }

    pub closed spec fn spec_rel_humidity(&self) -> usize {
        self.rel_humidity
    }

    pub closed spec fn spec_abs_humidity(&self) -> usize {
        self.abs_humidity
    }

    pub closed spec fn spec_co2_ppm(&self) -> usize {
        self.co2_ppm
    }

    pub closed spec fn spec_polls(&self) -> &PollCount {
        &self.polls
    }

    /// Which sensor this adapter serves.
    pub fn name(&self) -> (n: SensorName)
        ensures
            n == self.spec_name(),
    {
        self.name
    }

    /// Register the four gauges of one SCD sensor. `None` when a family
    /// is out of capacity, which is fatal at startup.
    pub fn new(
        metrics: &mut SensorMetrics,
        config: &Config,
        name: SensorName,
        poll_interval_ms: u64,
    ) -> (r: Option<Shared>)
        requires
            old(metrics).wf(),
            config.wf(),
            poll_interval_ms >= 1,
        ensures
            final(metrics).wf(),
            // registration succeeds exactly when every family either
            // already holds this sensor's label or has room for it
            r is Some <==> spec_can_register(old(metrics).temp_c@, MetricLabel::Sensor(name))
                && spec_can_register(
                old(metrics).rel_humidity_percent@,
                MetricLabel::Sensor(name),
            ) && spec_can_register(old(metrics).abs_humidity_grams_m3@, MetricLabel::Sensor(name))
                && spec_can_register(old(metrics).co2_ppm@, MetricLabel::Sensor(name)),
            r matches Some(s) ==> s.wf(final(metrics)) && s.spec_name() == name,
            // the returned handles point at slots carrying this
            // sensor's label
            r matches Some(s) ==> final(metrics).temp_c@.labels[s.spec_temp_c() as int]
                == MetricLabel::Sensor(name) && final(metrics).rel_humidity_percent@.labels[
                s.spec_rel_humidity() as int] == MetricLabel::Sensor(name) && final(metrics).abs_humidity_grams_m3@.labels[s.spec_abs_humidity() as int] == MetricLabel::Sensor(
                name,
            ) && final(metrics).co2_ppm@.labels[s.spec_co2_ppm() as int] == MetricLabel::Sensor(
                name,
            ),
            final(metrics).pressure_hpa@ == old(metrics).pressure_hpa@,
            final(metrics).eco2_ppm@ == old(metrics).eco2_ppm@,
            final(metrics).gas_resistance@ == old(metrics).gas_resistance@,
            final(metrics).tvoc_ppb@ == old(metrics).tvoc_ppb@,
            final(metrics).tvoc_iaq_index@ == old(metrics).tvoc_iaq_index@,
            final(metrics).nox_iaq_index@ == old(metrics).nox_iaq_index@,
            final(metrics).pm_conc@ == old(metrics).pm_conc@,
            final(metrics).pm_count@ == old(metrics).pm_count@,
            final(metrics).sensor_errors@ == old(metrics).sensor_errors@,
            final(metrics).sensor_reset_count@ == old(metrics).sensor_reset_count@,
    {
        let polls = config.poll_counter(poll_interval_ms);
        let temp_c = match metrics.temp_c.register(MetricLabel::Sensor(name)) {
            Some(h) => h,
            None => {
                return None;
            },
        };
        let rel_humidity = match metrics.rel_humidity_percent.register(MetricLabel::Sensor(name)) {
            Some(h) => h,
            None => {
                return None;
            },
        };
        let abs_humidity = match metrics.abs_humidity_grams_m3.register(
            MetricLabel::Sensor(name),
        ) {
            Some(h) => h,
            None => {
                return None;
            },
        };
        let co2_ppm = match metrics.co2_ppm.register(MetricLabel::Sensor(name)) {
            Some(h) => h,
            None => {
                return None;
            },
        };
        Some(Shared { temp_c, rel_humidity, abs_humidity, co2_ppm, polls, name })
    }

    /// The ambient pressure to forward to the device, once any pressure
    /// has been published: the mean, rounded to whole pascals and
    /// clamped into the datasheet range, so that the forwarded value
    /// never leaves `[70000, 120000]` pascals.
    pub fn pressure_pascals(&self, metrics: &SensorMetrics) -> (r: Option<u32>)
        requires
            metrics.wf(),
        ensures
            r == spec_pressure_pascals(spec_family_mean(metrics.pressure_hpa@.metrics)),
            r is Some <==> spec_family_mean(metrics.pressure_hpa@.metrics) is Some,
            r matches Some(p) ==> MIN_PRESSURE_PA <= p <= MAX_PRESSURE_PA,
    {
        let mean = match metrics.pressure_hpa.mean() {
            Some(m) => m,
            None => {
                return None;
            },
        };
        let wide: i128 = mean as i128;
        let pa: i128 = if wide >= 0 {
            (wide + 5) / 10
        } else {
            -((-wide + 5) / 10)
        };
        if pa < 70_000 {
            Some(70_000)
        } else if pa > 120_000 {
            Some(120_000)
        } else {
            Some(pa as u32)
        }
    }

    /// Whether this poll logs its reading at INFO level.
    pub fn should_log_info(&self) -> (r: bool)
        requires
            self.spec_polls().wf(),
        ensures
            r == (self.spec_polls().spec_polls() % self.spec_polls().spec_log_info_interval()
                == 0),
    {
        self.polls.should_log_info()
    }

    /// Publish one measurement: CO2 (ppm), temperature (milli-degrees)
    /// and relative humidity (milli-percent); every N-th poll also
    /// derives absolute humidity from the fresh reading.
    pub fn record_measurement(
        &mut self,
        metrics: &mut SensorMetrics,
        co2: u16,
        temp_milli: i64,
        rh_milli: i64,
    )
        requires
            old(metrics).wf(),
            old(self).wf(old(metrics)),
            spec_temp_in_range(temp_milli as int),
            0 <= rh_milli <= 100_000,
        ensures
            final(metrics).wf(),
            final(self).wf(final(metrics)),
            final(self).spec_temp_c() == old(self).spec_temp_c(),
            final(self).spec_rel_humidity() == old(self).spec_rel_humidity(),
            final(self).spec_abs_humidity() == old(self).spec_abs_humidity(),
            final(self).spec_co2_ppm() == old(self).spec_co2_ppm(),
            final(metrics).co2_ppm@ == spec_family_after_set(
                old(metrics).co2_ppm@,
                old(self).spec_co2_ppm() as int,
                co2 * 1000,
            ),
            final(metrics).temp_c@ == spec_family_after_set(
                old(metrics).temp_c@,
                old(self).spec_temp_c() as int,
                temp_milli as int,
            ),
            final(metrics).rel_humidity_percent@ == spec_family_after_set(
                old(metrics).rel_humidity_percent@,
                old(self).spec_rel_humidity() as int,
                rh_milli as int,
            ),
            final(metrics).abs_humidity_grams_m3@ == if old(self).spec_polls().spec_polls() % old(self).spec_polls().spec_abs_humidity_interval() == 0 {
                spec_family_after_set(
                    old(metrics).abs_humidity_grams_m3@,
                    old(self).spec_abs_humidity() as int,
                    spec_absolute_humidity_millis(temp_milli as int, rh_milli as int),
                )
            } else {
                old(metrics).abs_humidity_grams_m3@
            },
            final(metrics).eco2_ppm@ == old(metrics).eco2_ppm@,
            final(metrics).pressure_hpa@ == old(metrics).pressure_hpa@,
            final(metrics).gas_resistance@ == old(metrics).gas_resistance@,
            final(metrics).tvoc_ppb@ == old(metrics).tvoc_ppb@,
            final(metrics).tvoc_iaq_index@ == old(metrics).tvoc_iaq_index@,
            final(metrics).nox_iaq_index@ == old(metrics).nox_iaq_index@,
            final(metrics).pm_conc@ == old(metrics).pm_conc@,
            final(metrics).pm_count@ == old(metrics).pm_count@,
            final(metrics).sensor_errors@ == old(metrics).sensor_errors@,
            final(metrics).sensor_reset_count@ == old(metrics).sensor_reset_count@,
    {
        metrics.co2_ppm.set_value(self.co2_ppm, co2 as i64 * 1000);
        metrics.temp_c.set_value(self.temp_c, temp_milli);
        metrics.rel_humidity_percent.set_value(self.rel_humidity, rh_milli);
        if self.polls.should_calc_abs_humidity() {
            let ah = absolute_humidity_millis(temp_milli, rh_milli);
            metrics.abs_humidity_grams_m3.set_value(self.abs_humidity, ah);
        }
        self.polls.add();
    }
}

/// The pressure forwarded to an SCD4x is always inside the datasheet
/// range: whatever the published pressure mean is, a value outside
/// `[70000, 120000]` pascals is never handed to the device.
pub proof fn lemma_pressure_clamped(mean_milli_hpa: Option<int>)
    ensures
        spec_pressure_pascals(mean_milli_hpa) matches Some(p) ==> MIN_PRESSURE_PA <= p
            <= MAX_PRESSURE_PA,
{
}

} // verus!

//! The Sensirion SHT41 temperature and humidity sensor.

use vstd::prelude::*;

use crate::error::{I2cErrorKind, SensorError};
use crate::humidity::{
    absolute_humidity_millis, spec_absolute_humidity_millis, spec_temp_in_range,
};
use crate::metrics::{spec_can_register, spec_family_after_set, MetricLabel, SensorMetrics};
use crate::name::SensorName;
use crate::sensor::PollCount;
use crate::Config;

verus! {

/// How often the SHT41 is polled.
pub const SHT41_POLL_INTERVAL_MS: u64 = 1000;

/// Why an SHT41 operation failed.
#[derive(Copy, Clone, PartialEq, Eq, Structural, Debug)]
pub enum Sht4xError {
    /// The bus transaction failed.
    I2c(I2cErrorKind),
    /// A response failed its CRC check.
    Crc,
    /// Any other driver error.
    Other,
}

impl SensorError for Sht4xError {
    open spec fn spec_i2c_error(&self) -> Option<I2cErrorKind> {
        match self {
            Sht4xError::I2c(k) => Some(*k),
            _ => None,
        }
    }

    open spec fn spec_should_reset(&self) -> bool {
        false
    }

    fn i2c_error(&self) -> (r: Option<I2cErrorKind>) {
        match self {
            Sht4xError::I2c(k) => Some(*k),
            _ => None,
        }
    }

    fn should_reset(&self) -> (r: bool) {
        false
    }
}

/// The measurement precision the device is asked for; higher precision
/// takes longer.
#[derive(Copy, Clone, PartialEq, Eq, Structural, Debug)]
pub enum Precision {
    Low,
    Medium,
    High,
}

/// The SHT41 adapter: its three gauge handles, measurement precision
/// and poll counter.
#[derive(Debug)]
pub struct Sht41 {
    temp: usize,
    rel_humidity: usize,
    abs_humidity: usize,
    precision: Precision,
    polls: PollCount,
}

impl Sht41 {
    /// The handles point into their families, at the slots carrying
    /// this sensor's label.
    pub closed spec fn wf(&self, m: &SensorMetrics) -> bool {
        &&& self.temp < m.temp_c@.metrics.len()
        &&& self.rel_humidity < m.rel_humidity_percent@.metrics.len()
        &&& self.abs_humidity < m.abs_humidity_grams_m3@.metrics.len()
        &&& m.temp_c@.labels[self.temp as int] == MetricLabel::Sensor(SensorName::Sht41)
        &&& m.rel_humidity_percent@.labels[self.rel_humidity as int] == MetricLabel::Sensor(
            SensorName::Sht41,
        )
        &&& m.abs_humidity_grams_m3@.labels[self.abs_humidity as int] == MetricLabel::Sensor(
            SensorName::Sht41,
        )
        &&& self.polls.wf()
    }

    pub closed spec fn spec_temp(&self) -> usize {
        self.temp
    }

    pub closed spec fn spec_rel_humidity(&self) -> usize {
        self.rel_humidity
    }

    pub closed spec fn spec_abs_humidity(&self) -> usize {
        self.abs_humidity
    }

    pub closed spec fn spec_precision(&self) -> Precision {
        self.precision
    }

    pub closed spec fn spec_polls(&self) -> &PollCount {
        &self.polls
    }

    /// Register the adapter's metric slots; it measures at medium
    /// precision unless told otherwise. `None` when a family is out of
    /// capacity, which is fatal at startup.
    pub fn new(metrics: &mut SensorMetrics, config: &Config) -> (r: Option<Sht41>)
        requires
            old(metrics).wf(),
            config.wf(),
        ensures
            final(metrics).wf(),
            // registration succeeds exactly when every family either
            // already holds this sensor's label or has room for it
            r is Some <==> spec_can_register(
                old(metrics).temp_c@,
                MetricLabel::Sensor(SensorName::Sht41),
            ) && spec_can_register(
                old(metrics).rel_humidity_percent@,
                MetricLabel::Sensor(SensorName::Sht41),
            ) && spec_can_register(
                old(metrics).abs_humidity_grams_m3@,
                MetricLabel::Sensor(SensorName::Sht41),
            ),
            // a handle's slot carries this sensor's label (see `wf`)
            r matches Some(s) ==> s.wf(final(metrics)) && s.spec_precision() == Precision::Medium,
            final(metrics).co2_ppm@ == old(metrics).co2_ppm@,
            final(metrics).eco2_ppm@ == old(metrics).eco2_ppm@,
            final(metrics).pressure_hpa@ == old(metrics).pressure_hpa@,
            final(metrics).gas_resistance@ == old(metrics).gas_resistance@,
            final(metrics).tvoc_ppb@ == old(metrics).tvoc_ppb@,
            final(metrics).tvoc_iaq_index@ == old(metrics).tvoc_iaq_index@,
            final(metrics).nox_iaq_index@ == old(metrics).nox_iaq_index@,
            final(metrics).pm_conc@ == old(metrics).pm_conc@,
            final(metrics).pm_count@ == old(metrics).pm_count@,
            final(metrics).sensor_errors@ == old(metrics).sensor_errors@,
            final(metrics).sensor_reset_count@ == old(metrics).sensor_reset_count@,
    {
        let polls = config.poll_counter(SHT41_POLL_INTERVAL_MS);
        let temp = match metrics.temp_c.register(MetricLabel::Sensor(SensorName::Sht41)) {
            Some(h) => h,
            None => {
                return None;
            },
        };
        let rel_humidity = match metrics.rel_humidity_percent.register(
            MetricLabel::Sensor(SensorName::Sht41),
        ) {
            Some(h) => h,
            None => {
                return None;
            },
        };
        let abs_humidity = match metrics.abs_humidity_grams_m3.register(
            MetricLabel::Sensor(SensorName::Sht41),
        ) {
            Some(h) => h,
            None => {
                return None;
            },
        };
        Some(Sht41 { temp, rel_humidity, abs_humidity, precision: Precision::Medium, polls })
    }

    /// The same adapter measuring at the given precision.
    pub fn with_precision(self, precision: Precision) -> (r: Sht41)
        ensures
            r.spec_precision() == precision,
            r.spec_temp() == self.spec_temp(),
            r.spec_rel_humidity() == self.spec_rel_humidity(),
            r.spec_abs_humidity() == self.spec_abs_humidity(),
            r.spec_polls() == self.spec_polls(),
    {
        Sht41 { precision, ..self }
    }

    /// The precision the device is asked to measure at.
    pub fn precision(&self) -> (p: Precision)
        ensures
            p == self.spec_precision(),
    {
        self.precision
    }

    /// Whether this poll logs its reading at INFO level.
    pub fn should_log_info(&self) -> (r: bool)
        requires
            self.spec_polls().wf(),
        ensures
            r == (self.spec_polls().spec_polls() % self.spec_polls().spec_log_info_interval()
                == 0),
    {
        self.polls.should_log_info()
    }

    /// Publish one measurement: temperature (milli-degrees) and
    /// relative humidity (milli-percent); every N-th poll also derives
    /// absolute humidity from the fresh reading.
    pub fn record_measurement(&mut self, metrics: &mut SensorMetrics, temp_milli: i64, rh_milli: i64)
        requires
            old(metrics).wf(),
            old(self).wf(old(metrics)),
            spec_temp_in_range(temp_milli as int),
            0 <= rh_milli <= 100_000,
        ensures
            final(metrics).wf(),
            final(self).wf(final(metrics)),
            final(self).spec_temp() == old(self).spec_temp(),
            final(self).spec_rel_humidity() == old(self).spec_rel_humidity(),
            final(self).spec_abs_humidity() == old(self).spec_abs_humidity(),
            final(self).spec_precision() == old(self).spec_precision(),
            final(metrics).temp_c@ == spec_family_after_set(
                old(metrics).temp_c@,
                old(self).spec_temp() as int,
                temp_milli as int,
            ),
            final(metrics).rel_humidity_percent@ == spec_family_after_set(
                old(metrics).rel_humidity_percent@,
                old(self).spec_rel_humidity() as int,
                rh_milli as int,
            ),
            final(metrics).abs_humidity_grams_m3@ == if old(self).spec_polls().spec_polls() % old(
                self,
            ).spec_polls().spec_abs_humidity_interval() == 0 {
                spec_family_after_set(
                    old(metrics).abs_humidity_grams_m3@,
                    old(self).spec_abs_humidity() as int,
                    spec_absolute_humidity_millis(temp_milli as int, rh_milli as int),
                )
            } else {
                old(metrics).abs_humidity_grams_m3@
            },
            final(metrics).co2_ppm@ == old(metrics).co2_ppm@,
            final(metrics).eco2_ppm@ == old(metrics).eco2_ppm@,
            final(metrics).pressure_hpa@ == old(metrics).pressure_hpa@,
            final(metrics).gas_resistance@ == old(metrics).gas_resistance@,
            final(metrics).tvoc_ppb@ == old(metrics).tvoc_ppb@,
            final(metrics).tvoc_iaq_index@ == old(metrics).tvoc_iaq_index@,
            final(metrics).nox_iaq_index@ == old(metrics).nox_iaq_index@,
            final(metrics).pm_conc@ == old(metrics).pm_conc@,
            final(metrics).pm_count@ == old(metrics).pm_count@,
            final(metrics).sensor_errors@ == old(metrics).sensor_errors@,
            final(metrics).sensor_reset_count@ == old(metrics).sensor_reset_count@,
    {
        metrics.temp_c.set_value(self.temp, temp_milli);
        metrics.rel_humidity_percent.set_value(self.rel_humidity, rh_milli);
        if self.polls.should_calc_abs_humidity() {
            let ah = absolute_humidity_millis(temp_milli, rh_milli);
            metrics.abs_humidity_grams_m3.set_value(self.abs_humidity, ah);
        }
        self.polls.add();
    }
}

} // verus!

//! The Bosch BME680 environmental sensor: temperature, humidity,
//! barometric pressure and gas resistance.

use vstd::prelude::*;

use crate::error::{I2cErrorKind, SensorError};
use crate::humidity::{
    absolute_humidity_millis, spec_absolute_humidity_millis, spec_temp_in_range,
};
use crate::metrics::{spec_can_register, spec_family_after_set, MetricLabel, SensorMetrics};
use crate::name::SensorName;
use crate::sensor::PollCount;
use crate::Config;

verus! {

/// How often the BME680 is polled.
pub const BME680_POLL_INTERVAL_MS: u64 = 2000;

/// How many consecutive measurement timeouts are retried quietly
/// before the poll gives up until its next turn.
pub const MAX_MEASUREMENT_TIMEOUTS: u32 = 5;

/// Why a BME680 operation failed.
#[derive(Copy, Clone, PartialEq, Eq, Structural, Debug)]
pub enum Bme680Error {
    /// An I2C write failed.
    WriteError(I2cErrorKind),
    /// An I2C write-read failed.
    WriteReadError(I2cErrorKind),
    /// The measurement did not complete in time.
    MeasuringTimeOut,
    /// The chip identified as something other than a BME680.
    UnexpectedChipId(u8),
    /// A measurement was requested before initialization.
    Uninitialized,
}

impl SensorError for Bme680Error {
    open spec fn spec_i2c_error(&self) -> Option<I2cErrorKind> {
        match self {
            Bme680Error::WriteError(k) => Some(*k),
            Bme680Error::WriteReadError(k) => Some(*k),
            _ => None,
        }
    }

    open spec fn spec_should_reset(&self) -> bool {
        false
    }

    fn i2c_error(&self) -> (r: Option<I2cErrorKind>) {
        match self {
            Bme680Error::WriteError(k) => Some(*k),
            Bme680Error::WriteReadError(k) => Some(*k),
            _ => None,
        }
    }

    fn should_reset(&self) -> (r: bool) {
        false
    }
}

/// What to do about a measurement timeout: retry a few times, then
/// give the device a rest until the next poll instead of backing off.
#[derive(Copy, Clone, PartialEq, Eq, Structural, Debug)]
pub enum TimeoutAction {
    RetryMeasurement,
    GiveUpQuietly,
}

/// The timeout policy: retry while fewer than
/// [`MAX_MEASUREMENT_TIMEOUTS`] timeouts have been seen this poll.
pub fn timeout_action(timeouts: u32) -> (r: TimeoutAction)
    ensures
        r == (if timeouts < MAX_MEASUREMENT_TIMEOUTS {
            TimeoutAction::RetryMeasurement
        } else {
            TimeoutAction::GiveUpQuietly
        }),
{
    if timeouts < MAX_MEASUREMENT_TIMEOUTS {
        TimeoutAction::RetryMeasurement
    } else {
        TimeoutAction::GiveUpQuietly
    }
}

/// Truncating division by one hundred: the driver reports pressure a
/// factor of one hundred above hectopascals.
pub open spec fn spec_div100(p: int) -> int {
    if p >= 0 {
        p / 100
    } else {
        -((-p) / 100)
    }
}

/// The BME680 adapter: its five gauge handles and poll counter.
#[derive(Debug)]
pub struct Bme680 {
    temp: usize,
    rel_humidity: usize,
    abs_humidity: usize,
    pressure: usize,
    gas_resistance: usize,
    polls: PollCount,
}

impl Bme680 {
    /// The handles point into their families, at the slots carrying
    /// this sensor's label.
    pub closed spec fn wf(&self, m: &SensorMetrics) -> bool {
        &&& self.temp < m.temp_c@.metrics.len()
        &&& self.rel_humidity < m.rel_humidity_percent@.metrics.len()
        &&& self.abs_humidity < m.abs_humidity_grams_m3@.metrics.len()
        &&& self.pressure < m.pressure_hpa@.metrics.len()
        &&& self.gas_resistance < m.gas_resistance@.metrics.len()
        &&& m.temp_c@.labels[self.temp as int] == MetricLabel::Sensor(SensorName::Bme680)
        &&& m.rel_humidity_percent@.labels[self.rel_humidity as int] == MetricLabel::Sensor(
            SensorName::Bme680,
        )
        &&& m.abs_humidity_grams_m3@.labels[self.abs_humidity as int] == MetricLabel::Sensor(
            SensorName::Bme680,
        )
        &&& m.pressure_hpa@.labels[self.pressure as int] == MetricLabel::Sensor(
            SensorName::Bme680,
        )
        &&& m.gas_resistance@.labels[self.gas_resistance as int] == MetricLabel::Sensor(
            SensorName::Bme680,
        )
        &&& self.polls.wf()
    }

    pub closed spec fn spec_temp(&self) -> usize {
        self.temp
    }

    pub closed spec fn spec_rel_humidity(&self) -> usize {
        self.rel_humidity
    }

    pub closed spec fn spec_abs_humidity(&self) -> usize {
        self.abs_humidity
    }

    pub closed spec fn spec_pressure(&self) -> usize {
        self.pressure
    }

    pub closed spec fn spec_gas_resistance(&self) -> usize {
        self.gas_resistance
    }

    pub closed spec fn spec_polls(&self) -> &PollCount {
        &self.polls
    }

    /// Register the adapter's metric slots. `None` when a family is out
    /// of capacity, which is fatal at startup.
    pub fn new(metrics: &mut SensorMetrics, config: &Config) -> (r: Option<Bme680>)
        requires
            old(metrics).wf(),
            config.wf(),
        ensures
            final(metrics).wf(),
            // registration succeeds exactly when every family either
            // already holds this sensor's label or has room for it
            r is Some <==> spec_can_register(
                old(metrics).temp_c@,
                MetricLabel::Sensor(SensorName::Bme680),
            ) && spec_can_register(
                old(metrics).pressure_hpa@,
                MetricLabel::Sensor(SensorName::Bme680),
            ) && spec_can_register(
                old(metrics).rel_humidity_percent@,
                MetricLabel::Sensor(SensorName::Bme680),
            ) && spec_can_register(
                old(metrics).abs_humidity_grams_m3@,
                MetricLabel::Sensor(SensorName::Bme680),
            ) && spec_can_register(
                old(metrics).gas_resistance@,
                MetricLabel::Sensor(SensorName::Bme680),
            ),
            // a handle's slot carries this sensor's label (see `wf`)
            r matches Some(s) ==> s.wf(final(metrics)),
            final(metrics).co2_ppm@ == old(metrics).co2_ppm@,
            final(metrics).eco2_ppm@ == old(metrics).eco2_ppm@,
            final(metrics).tvoc_ppb@ == old(metrics).tvoc_ppb@,
            final(metrics).tvoc_iaq_index@ == old(metrics).tvoc_iaq_index@,
            final(metrics).nox_iaq_index@ == old(metrics).nox_iaq_index@,
            final(metrics).pm_conc@ == old(metrics).pm_conc@,
            final(metrics).pm_count@ == old(metrics).pm_count@,
            final(metrics).sensor_errors@ == old(metrics).sensor_errors@,
            final(metrics).sensor_reset_count@ == old(metrics).sensor_reset_count@,
    {
        let polls = config.poll_counter(BME680_POLL_INTERVAL_MS);
        let temp = match metrics.temp_c.register(MetricLabel::Sensor(SensorName::Bme680)) {
            Some(h) => h,
            None => {
                return None;
            },
        };
        let pressure = match metrics.pressure_hpa.register(
            MetricLabel::Sensor(SensorName::Bme680),
        ) {
            Some(h) => h,
            None => {
                return None;
            },
        };
        let rel_humidity = match metrics.rel_humidity_percent.register(
            MetricLabel::Sensor(SensorName::Bme680),
        ) {
            Some(h) => h,
            None => {
                return None;
            },
        };
        let abs_humidity = match metrics.abs_humidity_grams_m3.register(
            MetricLabel::Sensor(SensorName::Bme680),
        ) {
            Some(h) => h,
            None => {
                return None;
            },
        };
        let gas_resistance = match metrics.gas_resistance.register(
            MetricLabel::Sensor(SensorName::Bme680),
        ) {
            Some(h) => h,
            None => {
                return None;
            },
        };
        Some(Bme680 { temp, rel_humidity, abs_humidity, pressure, gas_resistance, polls })
    }

    /// Whether this poll logs its reading at INFO level.
    pub fn should_log_info(&self) -> (r: bool)
        requires
            self.spec_polls().wf(),
        ensures
            r == (self.spec_polls().spec_polls() % self.spec_polls().spec_log_info_interval()
                == 0),
    {
        self.polls.should_log_info()
    }

    /// Publish one measurement: temperature (milli-degrees), relative
    /// humidity (milli-percent), raw pressure (which the driver reports
    /// a factor of one hundred above milli-hectopascals) and, when the
    /// device measured it, gas resistance in milli-ohms. Every N-th
    /// poll also derives absolute humidity, counting this poll first.
    pub fn record_measurement(
        &mut self,
        metrics: &mut SensorMetrics,
        temp_milli: i64,
        rh_milli: i64,
        pressure_raw_milli: i64,
        gas_resistance_milli: Option<i64>,
    )
        requires
            old(metrics).wf(),
            old(self).wf(old(metrics)),
            spec_temp_in_range(temp_milli as int),
            0 <= rh_milli <= 100_000,
            i64::MIN < pressure_raw_milli,
        ensures
            final(metrics).wf(),
            final(self).wf(final(metrics)),
            final(self).spec_temp() == old(self).spec_temp(),
            final(self).spec_rel_humidity() == old(self).spec_rel_humidity(),
            final(self).spec_abs_humidity() == old(self).spec_abs_humidity(),
            final(self).spec_pressure() == old(self).spec_pressure(),
            final(self).spec_gas_resistance() == old(self).spec_gas_resistance(),
            final(metrics).pressure_hpa@ == spec_family_after_set(
                old(metrics).pressure_hpa@,
                old(self).spec_pressure() as int,
                spec_div100(pressure_raw_milli as int),
            ),
            final(metrics).temp_c@ == spec_family_after_set(
                old(metrics).temp_c@,
                old(self).spec_temp() as int,
                temp_milli as int,
            ),
            final(metrics).rel_humidity_percent@ == spec_family_after_set(
                old(metrics).rel_humidity_percent@,
                old(self).spec_rel_humidity() as int,
                rh_milli as int,
            ),
            final(metrics).gas_resistance@ == (match gas_resistance_milli {
                Some(gr) => spec_family_after_set(
                    old(metrics).gas_resistance@,
                    old(self).spec_gas_resistance() as int,
                    gr as int,
                ),
                None => old(metrics).gas_resistance@,
            }),
            // the poll is counted before the stride decision here
            final(metrics).abs_humidity_grams_m3@ == if ((old(self).spec_polls().spec_polls()
                + 1) % 0x1_0000_0000) as u32 % old(self).spec_polls().spec_abs_humidity_interval()
                == 0 {
                spec_family_after_set(
                    old(metrics).abs_humidity_grams_m3@,
                    old(self).spec_abs_humidity() as int,
                    spec_absolute_humidity_millis(temp_milli as int, rh_milli as int),
                )
            } else {
                old(metrics).abs_humidity_grams_m3@
            },
            final(metrics).co2_ppm@ == old(metrics).co2_ppm@,
            final(metrics).eco2_ppm@ == old(metrics).eco2_ppm@,
            final(metrics).tvoc_ppb@ == old(metrics).tvoc_ppb@,
            final(metrics).tvoc_iaq_index@ == old(metrics).tvoc_iaq_index@,
            final(metrics).nox_iaq_index@ == old(metrics).nox_iaq_index@,
            final(metrics).pm_conc@ == old(metrics).pm_conc@,
            final(metrics).pm_count@ == old(metrics).pm_count@,
            final(metrics).sensor_errors@ == old(metrics).sensor_errors@,
            final(metrics).sensor_reset_count@ == old(metrics).sensor_reset_count@,
    {
        self.polls.add();
        let pressure_hpa_milli: i64 = if pressure_raw_milli >= 0 {
            pressure_raw_milli / 100
        } else {
            -((-pressure_raw_milli) / 100)
        };
        metrics.pressure_hpa.set_value(self.pressure, pressure_hpa_milli);
        metrics.temp_c.set_value(self.temp, temp_milli);
        metrics.rel_humidity_percent.set_value(self.rel_humidity, rh_milli);
        if let Some(gr) = gas_resistance_milli {
            metrics.gas_resistance.set_value(self.gas_resistance, gr);
        }
        if self.polls.should_calc_abs_humidity() {
            let ah = absolute_humidity_millis(temp_milli, rh_milli);
            metrics.abs_humidity_grams_m3.set_value(self.abs_humidity, ah);
        }
    }
}

} // verus!

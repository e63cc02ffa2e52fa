//! The ENS160 air-quality sensor: warm-up sequencing, compensation
//! scaling and the TVOC/eCO2 metrics it publishes.

use vstd::prelude::*;

use crate::error::{I2cErrorKind, SensorError};
use crate::metrics::{
    spec_can_register, spec_family_after_set, spec_family_mean, MetricLabel, SensorMetrics,
};
use crate::name::SensorName;
use crate::Config;

verus! {

/// How often the ENS160 is polled.
pub const ENS160_POLL_INTERVAL_MS: u64 = 2000;

/// While warming up (a three-minute phase), the device is checked
/// again after this long.
pub const WARMUP_DELAY_MS: u32 = 30_000;

/// During the initial startup phase (an hour, on first power-up), the
/// device is checked again after this long.
pub const INIT_SETUP_DELAY_MS: u32 = 120_000;

/// Why an ENS160 operation failed.
#[derive(Copy, Clone, PartialEq, Eq, Structural, Debug)]
pub enum Ens160Error {
    /// The bus transaction failed.
    I2c(I2cErrorKind),
    /// The device reports its output as invalid.
    Invalid,
}

impl SensorError for Ens160Error {
    open spec fn spec_i2c_error(&self) -> Option<I2cErrorKind> {
        match self {
            Ens160Error::I2c(k) => Some(*k),
            Ens160Error::Invalid => None,
        }
    }

    open spec fn spec_should_reset(&self) -> bool {
        false
    }

    fn i2c_error(&self) -> (r: Option<I2cErrorKind>) {
        match self {
            Ens160Error::I2c(k) => Some(*k),
            Ens160Error::Invalid => None,
        }
    }

    fn should_reset(&self) -> (r: bool) {
        false
    }
}

/// The validity phase the device reports in its status register.
#[derive(Copy, Clone, PartialEq, Eq, Structural, Debug)]
pub enum Validity {
    NormalOperation,
    WarmupPhase,
    InitStartupPhase,
    InvalidOutput,
}

/// What initialization does next.
#[derive(Copy, Clone, PartialEq, Eq, Structural, Debug)]
pub enum InitStep {
    /// The device is operational; initialization is done.
    Ready,
    /// The device is still settling; check again after the delay.
    Wait { delay_ms: u32 },
    /// The device reports invalid output; initialization failed.
    Fail,
}

/// The warm-up policy: wait thirty seconds through the warm-up phase,
/// two minutes through the initial startup phase, finish on normal
/// operation, and fail on invalid output.
pub fn init_validity_step(v: Validity) -> (r: InitStep)
    ensures
        r == (match v {
            Validity::NormalOperation => InitStep::Ready,
            Validity::WarmupPhase => InitStep::Wait { delay_ms: WARMUP_DELAY_MS },
            Validity::InitStartupPhase => InitStep::Wait { delay_ms: INIT_SETUP_DELAY_MS },
            Validity::InvalidOutput => InitStep::Fail,
        }),
{
    match v {
        Validity::NormalOperation => InitStep::Ready,
        Validity::WarmupPhase => InitStep::Wait { delay_ms: WARMUP_DELAY_MS },
        Validity::InitStartupPhase => InitStep::Wait { delay_ms: INIT_SETUP_DELAY_MS },
        Validity::InvalidOutput => InitStep::Fail,
    }
}

/// What to do when reading the status register itself fails during
/// warm-up: once the device has shown signs of life (some wait has
/// already happened), wait and retry; on the very first probe, give
/// up and report the error.
pub fn init_status_error_step(warmup_checks: u32, setup_checks: u32) -> (r: Option<u32>)
    ensures
        r == (if warmup_checks + setup_checks > 0 {
            Some(WARMUP_DELAY_MS)
        } else {
            None::<u32>
        }),
{
    if warmup_checks > 0 || setup_checks > 0 {
        Some(WARMUP_DELAY_MS)
    } else {
        None
    }
}

/// What a poll does given the device's validity phase.
#[derive(Copy, Clone, PartialEq, Eq, Structural, Debug)]
pub enum PollDecision {
    /// Normal operation: read the measurements.
    Proceed,
    /// The device fell back into a settling phase: skip this poll.
    Skip,
    /// The device reports invalid output: fail the poll.
    Fail,
}

/// The poll validity policy.
pub fn poll_validity_step(v: Validity) -> (r: PollDecision)
    ensures
        r == (match v {
            Validity::NormalOperation => PollDecision::Proceed,
            Validity::InvalidOutput => PollDecision::Fail,
            _ => PollDecision::Skip,
        }),
{
    match v {
        Validity::NormalOperation => PollDecision::Proceed,
        Validity::InvalidOutput => PollDecision::Fail,
        Validity::WarmupPhase => PollDecision::Skip,
        Validity::InitStartupPhase => PollDecision::Skip,
    }
}

/// A compensation value in the device's unit: the ambient value scaled
/// by one hundred (25.50 degrees becomes 2550), truncated toward zero.
pub open spec fn spec_scale_compensation(milli: int) -> int {
    if milli >= 0 {
        milli / 10
    } else {
        -((-milli) / 10)
    }
}

/// Scale a milli-unit ambient mean to the device's hundredth-steps.
pub fn scale_compensation(milli: i64) -> (r: i16)
    requires
        -300_000 <= milli <= 300_000,
    ensures
        r as int == spec_scale_compensation(milli as int),
{
    proof {
        if milli >= 0 {
            vstd::arithmetic::div_mod::lemma_div_is_ordered(milli as int, 300_000, 10);
        } else {
            vstd::arithmetic::div_mod::lemma_div_is_ordered(-milli as int, 300_000, 10);
        }
        vstd::arithmetic::div_mod::lemma_div_pos_is_pos(
            if milli >= 0 {
                milli as int
            } else {
                -milli as int
            },
            10,
        );
    }
    if milli >= 0 {
        (milli / 10) as i16
    } else {
        -(((-milli) / 10) as i16)
    }
}

/// The ENS160 adapter: its two gauge handles.
#[derive(Debug)]
pub struct Ens160 {
    tvoc: usize,
    eco2: usize,
}

impl Ens160 {
    /// The handles point into their families, at the slots carrying
    /// this sensor's label.
    pub closed spec fn wf(&self, m: &SensorMetrics) -> bool {
        &&& self.tvoc < m.tvoc_ppb@.metrics.len()
        &&& self.eco2 < m.eco2_ppm@.metrics.len()
        &&& m.tvoc_ppb@.labels[self.tvoc as int] == MetricLabel::Sensor(SensorName::Ens160)
        &&& m.eco2_ppm@.labels[self.eco2 as int] == MetricLabel::Sensor(SensorName::Ens160)
    }

    pub closed spec fn spec_tvoc(&self) -> usize {
        self.tvoc
    }

    pub closed spec fn spec_eco2(&self) -> usize {
        self.eco2
    }

    /// Register the adapter's metric slots. `None` when a family is out
    /// of capacity, which is fatal at startup.
    pub fn new(metrics: &mut SensorMetrics, config: &Config) -> (r: Option<Ens160>)
        requires
            old(metrics).wf(),
            config.wf(),
        ensures
            final(metrics).wf(),
            // registration succeeds exactly when both families either
            // already hold this sensor's label or have room for it
            r is Some <==> spec_can_register(
                old(metrics).tvoc_ppb@,
                MetricLabel::Sensor(SensorName::Ens160),
            ) && spec_can_register(
                old(metrics).eco2_ppm@,
                MetricLabel::Sensor(SensorName::Ens160),
            ),
            r matches Some(s) ==> s.wf(final(metrics)),
            // the returned handles point at slots carrying this
            // sensor's label
            r matches Some(s) ==> final(metrics).tvoc_ppb@.labels[s.spec_tvoc() as int]
                == MetricLabel::Sensor(SensorName::Ens160) && final(metrics).eco2_ppm@.labels[
                s.spec_eco2() as int] == MetricLabel::Sensor(SensorName::Ens160),
            final(metrics).temp_c@ == old(metrics).temp_c@,
            final(metrics).co2_ppm@ == old(metrics).co2_ppm@,
            final(metrics).rel_humidity_percent@ == old(metrics).rel_humidity_percent@,
            final(metrics).abs_humidity_grams_m3@ == old(metrics).abs_humidity_grams_m3@,
            final(metrics).pressure_hpa@ == old(metrics).pressure_hpa@,
            final(metrics).gas_resistance@ == old(metrics).gas_resistance@,
            final(metrics).tvoc_iaq_index@ == old(metrics).tvoc_iaq_index@,
            final(metrics).nox_iaq_index@ == old(metrics).nox_iaq_index@,
            final(metrics).pm_conc@ == old(metrics).pm_conc@,
            final(metrics).pm_count@ == old(metrics).pm_count@,
            final(metrics).sensor_errors@ == old(metrics).sensor_errors@,
            final(metrics).sensor_reset_count@ == old(metrics).sensor_reset_count@,
    {
        let tvoc = match metrics.tvoc_ppb.register(MetricLabel::Sensor(SensorName::Ens160)) {
            Some(h) => h,
            None => {
                return None;
            },
        };
        let eco2 = match metrics.eco2_ppm.register(MetricLabel::Sensor(SensorName::Ens160)) {
            Some(h) => h,
            None => {
                return None;
            },
        };
        Some(Ens160 { tvoc, eco2 })
    }

    /// The temperature compensation to push to the device, if ambient
    /// temperatures have been published: the mean in hundredth-degree
    /// steps.
    pub fn temp_compensation(&self, metrics: &SensorMetrics) -> (r: Option<i16>)
        requires
            metrics.wf(),
        ensures
            r matches Some(v) ==> spec_family_mean(metrics.temp_c@.metrics) matches Some(m)
                && -300_000 <= m <= 300_000 && v as int == spec_scale_compensation(m),
            r is None ==> spec_family_mean(metrics.temp_c@.metrics) is None || (spec_family_mean(
                metrics.temp_c@.metrics,
            ) matches Some(m) && !(-300_000 <= m <= 300_000)),
    {
        let m = match metrics.temp_c.mean() {
            Some(m) => m,
            None => {
                return None;
            },
        };
        if -300_000 <= m && m <= 300_000 {
            Some(scale_compensation(m))
        } else {
            None
        }
    }

    /// The relative-humidity compensation to push to the device, if
    /// ambient humidities have been published: the mean in
    /// hundredth-percent steps.
    pub fn rh_compensation(&self, metrics: &SensorMetrics) -> (r: Option<i16>)
        requires
            metrics.wf(),
        ensures
            r matches Some(v) ==> spec_family_mean(metrics.rel_humidity_percent@.metrics)
                matches Some(m) && -300_000 <= m <= 300_000 && v as int
                == spec_scale_compensation(m),
            r is None ==> spec_family_mean(metrics.rel_humidity_percent@.metrics) is None || (
            spec_family_mean(metrics.rel_humidity_percent@.metrics) matches Some(m) && !(-300_000
                <= m <= 300_000)),
    {
        let m = match metrics.rel_humidity_percent.mean() {
            Some(m) => m,
            None => {
                return None;
            },
        };
        if -300_000 <= m && m <= 300_000 {
            Some(scale_compensation(m))
        } else {
            None
        }
    }

    /// Publish one measurement: TVOC (ppb) and eCO2 (ppm).
    pub fn record_measurement(&self, metrics: &mut SensorMetrics, tvoc_ppb: u16, eco2_ppm: u16)
        requires
            old(metrics).wf(),
            self.wf(old(metrics)),
        ensures
            final(metrics).wf(),
            self.wf(final(metrics)),
            final(metrics).tvoc_ppb@ == spec_family_after_set(
                old(metrics).tvoc_ppb@,
                self.spec_tvoc() as int,
                tvoc_ppb * 1000,
            ),
            final(metrics).eco2_ppm@ == spec_family_after_set(
                old(metrics).eco2_ppm@,
                self.spec_eco2() as int,
                eco2_ppm * 1000,
            ),
            final(metrics).temp_c@ == old(metrics).temp_c@,
            final(metrics).co2_ppm@ == old(metrics).co2_ppm@,
            final(metrics).rel_humidity_percent@ == old(metrics).rel_humidity_percent@,
            final(metrics).abs_humidity_grams_m3@ == old(metrics).abs_humidity_grams_m3@,
            final(metrics).pressure_hpa@ == old(metrics).pressure_hpa@,
            final(metrics).gas_resistance@ == old(metrics).gas_resistance@,
            final(metrics).tvoc_iaq_index@ == old(metrics).tvoc_iaq_index@,
            final(metrics).nox_iaq_index@ == old(metrics).nox_iaq_index@,
            final(metrics).pm_conc@ == old(metrics).pm_conc@,
            final(metrics).pm_count@ == old(metrics).pm_count@,
            final(metrics).sensor_errors@ == old(metrics).sensor_errors@,
            final(metrics).sensor_reset_count@ == old(metrics).sensor_reset_count@,
    {
        metrics.tvoc_ppb.set_value(self.tvoc, tvoc_ppb as i64 * 1000);
        metrics.eco2_ppm.set_value(self.eco2, eco2_ppm as i64 * 1000);
    }
}

} // verus!

//! The Sensirion SEN55 combined environmental sensor: temperature,
//! humidity, particulates and the VOC/NOx air-quality indices.

use vstd::prelude::*;

use crate::error::{I2cErrorKind, SensorError};
use crate::humidity::{
    absolute_humidity_millis, spec_absolute_humidity_millis, spec_temp_in_range,
};
use crate::metrics::{
    spec_can_register, spec_find, spec_family_after_set, Diameter, DiameterLabel, FamilyView,
    GaugeView, MetricLabel, SensorMetrics,
};
use crate::name::SensorName;
use crate::sensor::PollCount;
use crate::Config;

verus! {

/// How often the SEN55 is polled.
pub const SEN55_POLL_INTERVAL_MS: u64 = 1000;

/// Why a SEN55 operation failed.
#[derive(Copy, Clone, PartialEq, Eq, Structural, Debug)]
pub enum Sen5xError {
    /// An I2C read failed.
    I2cRead(I2cErrorKind),
    /// An I2C write failed.
    I2cWrite(I2cErrorKind),
    /// A response failed its CRC check.
    Crc,
    /// Any other driver error.
    Other,
}

impl SensorError for Sen5xError {
    open spec fn spec_i2c_error(&self) -> Option<I2cErrorKind> {
        match self {
            Sen5xError::I2cRead(k) => Some(*k),
            Sen5xError::I2cWrite(k) => Some(*k),
            _ => None,
        }
    }

    open spec fn spec_should_reset(&self) -> bool {
        false
    }

    fn i2c_error(&self) -> (r: Option<I2cErrorKind>) {
        match self {
            Sen5xError::I2cRead(k) => Some(*k),
            Sen5xError::I2cWrite(k) => Some(*k),
            _ => None,
        }
    }

    fn should_reset(&self) -> (r: bool) {
        false
    }
}

/// The family state after writing an optional value: untouched when
/// the device did not report one.
pub open spec fn spec_family_after_opt(
    f: FamilyView<GaugeView>,
    i: int,
    v: Option<i64>,
) -> FamilyView<GaugeView> {
    match v {
        Some(x) => spec_family_after_set(f, i, x as int),
        None => f,
    }
}

/// The SEN55 adapter: gauge handles for everything the device reports,
/// and the warm-start parameter it learns while running.
#[derive(Debug)]
pub struct Sen55 {
    rel_humidity: usize,
    abs_humidity: usize,
    temp: usize,
    pm1_0: usize,
    pm2_5: usize,
    pm4_0: usize,
    pm10_0: usize,
    nox_index: usize,
    voc_index: usize,
    last_warm_start_param: Option<u16>,
    polls: PollCount,
}

impl Sen55 {
    /// The handles point into their families, at the slots carrying
    /// this sensor's labels.
    pub closed spec fn wf(&self, m: &SensorMetrics) -> bool {
        &&& self.rel_humidity < m.rel_humidity_percent@.metrics.len()
        &&& self.abs_humidity < m.abs_humidity_grams_m3@.metrics.len()
        &&& self.temp < m.temp_c@.metrics.len()
        &&& self.pm1_0 < m.pm_conc@.metrics.len()
        &&& self.pm2_5 < m.pm_conc@.metrics.len()
        &&& self.pm4_0 < m.pm_conc@.metrics.len()
        &&& self.pm10_0 < m.pm_conc@.metrics.len()
        &&& self.nox_index < m.nox_iaq_index@.metrics.len()
        &&& self.voc_index < m.tvoc_iaq_index@.metrics.len()
        &&& m.rel_humidity_percent@.labels[self.rel_humidity as int] == MetricLabel::Sensor(
            SensorName::Sen55,
        )
        &&& m.abs_humidity_grams_m3@.labels[self.abs_humidity as int] == MetricLabel::Sensor(
            SensorName::Sen55,
        )
        &&& m.temp_c@.labels[self.temp as int] == MetricLabel::Sensor(SensorName::Sen55)
        &&& m.pm_conc@.labels[self.pm1_0 as int] == spec_sen55_dia(Diameter::Um1_0)
        &&& m.pm_conc@.labels[self.pm2_5 as int] == spec_sen55_dia(Diameter::Um2_5)
        &&& m.pm_conc@.labels[self.pm4_0 as int] == spec_sen55_dia(Diameter::Um4_0)
        &&& m.pm_conc@.labels[self.pm10_0 as int] == spec_sen55_dia(Diameter::Um10_0)
        &&& m.nox_iaq_index@.labels[self.nox_index as int] == MetricLabel::Sensor(
            SensorName::Sen55,
        )
        &&& m.tvoc_iaq_index@.labels[self.voc_index as int] == MetricLabel::Sensor(
            SensorName::Sen55,
        )
        &&& self.polls.wf()
    }

    pub closed spec fn spec_rel_humidity(&self) -> usize {
        self.rel_humidity
    }

    pub closed spec fn spec_abs_humidity(&self) -> usize {
        self.abs_humidity
    }

    pub closed spec fn spec_temp(&self) -> usize {
        self.temp
    }

    pub closed spec fn spec_pm1_0(&self) -> usize {
        self.pm1_0
    }

    pub closed spec fn spec_pm2_5(&self) -> usize {
        self.pm2_5
    }

    pub closed spec fn spec_pm4_0(&self) -> usize {
        self.pm4_0
    }

    pub closed spec fn spec_pm10_0(&self) -> usize {
        self.pm10_0
    }

    pub closed spec fn spec_nox_index(&self) -> usize {
        self.nox_index
    }

    pub closed spec fn spec_voc_index(&self) -> usize {
        self.voc_index
    }

    pub closed spec fn spec_warm_start(&self) -> Option<u16> {
        self.last_warm_start_param
    }

    pub closed spec fn spec_polls(&self) -> &PollCount {
        &self.polls
    }

    /// Register the adapter's metric slots. `None` when a family is out
    /// of capacity, which is fatal at startup.
    pub fn new(metrics: &mut SensorMetrics, config: &Config) -> (r: Option<Sen55>)
        requires
            old(metrics).wf(),
            config.wf(),
        ensures
            final(metrics).wf(),
            // registration succeeds when every single-slot family can
            // take this sensor's label and the particulate family has
            // room for all four diameters ...
            spec_can_register(
                old(metrics).rel_humidity_percent@,
                MetricLabel::Sensor(SensorName::Sen55),
            ) && spec_can_register(
                old(metrics).abs_humidity_grams_m3@,
                MetricLabel::Sensor(SensorName::Sen55),
            ) && spec_can_register(old(metrics).temp_c@, MetricLabel::Sensor(SensorName::Sen55))
                && spec_can_register(
                old(metrics).nox_iaq_index@,
                MetricLabel::Sensor(SensorName::Sen55),
            ) && spec_can_register(
                old(metrics).tvoc_iaq_index@,
                MetricLabel::Sensor(SensorName::Sen55),
            ) && old(metrics).pm_conc@.labels.len() + 4 <= old(metrics).pm_conc@.capacity
                ==> r is Some,
            // ... and when the diameters are all registered already
            spec_can_register(
                old(metrics).rel_humidity_percent@,
                MetricLabel::Sensor(SensorName::Sen55),
            ) && spec_can_register(
                old(metrics).abs_humidity_grams_m3@,
                MetricLabel::Sensor(SensorName::Sen55),
            ) && spec_can_register(old(metrics).temp_c@, MetricLabel::Sensor(SensorName::Sen55))
                && spec_can_register(
                old(metrics).nox_iaq_index@,
                MetricLabel::Sensor(SensorName::Sen55),
            ) && spec_can_register(
                old(metrics).tvoc_iaq_index@,
                MetricLabel::Sensor(SensorName::Sen55),
            ) && spec_find(old(metrics).pm_conc@.labels, spec_sen55_dia(Diameter::Um1_0)) is Some
                && spec_find(
                old(metrics).pm_conc@.labels,
                spec_sen55_dia(Diameter::Um2_5),
            ) is Some && spec_find(
                old(metrics).pm_conc@.labels,
                spec_sen55_dia(Diameter::Um4_0),
            ) is Some && spec_find(
                old(metrics).pm_conc@.labels,
                spec_sen55_dia(Diameter::Um10_0),
            ) is Some ==> r is Some,
            // a handle's slot carries this sensor's label (see `wf`)
            r matches Some(s) ==> s.wf(final(metrics)) && s.spec_warm_start() is None,
            final(metrics).co2_ppm@ == old(metrics).co2_ppm@,
            final(metrics).eco2_ppm@ == old(metrics).eco2_ppm@,
            final(metrics).pressure_hpa@ == old(metrics).pressure_hpa@,
            final(metrics).gas_resistance@ == old(metrics).gas_resistance@,
            final(metrics).tvoc_ppb@ == old(metrics).tvoc_ppb@,
            final(metrics).pm_count@ == old(metrics).pm_count@,
            final(metrics).sensor_errors@ == old(metrics).sensor_errors@,
            final(metrics).sensor_reset_count@ == old(metrics).sensor_reset_count@,
    {
        let polls = config.poll_counter(SEN55_POLL_INTERVAL_MS);
        let rel_humidity = match metrics.rel_humidity_percent.register(
            MetricLabel::Sensor(SensorName::Sen55),
        ) {
            Some(h) => h,
            None => {
                return None;
            },
        };
        let abs_humidity = match metrics.abs_humidity_grams_m3.register(
            MetricLabel::Sensor(SensorName::Sen55),
        ) {
            Some(h) => h,
            None => {
                return None;
            },
        };
        let temp = match metrics.temp_c.register(MetricLabel::Sensor(SensorName::Sen55)) {
            Some(h) => h,
            None => {
                return None;
            },
        };
        let pm1_0 = match metrics.pm_conc.register(sen55_dia(Diameter::Um1_0)) {
            Some(h) => h,
            None => {
                return None;
            },
        };
        let pm2_5 = match metrics.pm_conc.register(sen55_dia(Diameter::Um2_5)) {
            Some(h) => h,
            None => {
                return None;
            },
        };
        let pm4_0 = match metrics.pm_conc.register(sen55_dia(Diameter::Um4_0)) {
            Some(h) => h,
            None => {
                return None;
            },
        };
        let pm10_0 = match metrics.pm_conc.register(sen55_dia(Diameter::Um10_0)) {
            Some(h) => h,
            None => {
                return None;
            },
        };
        let nox_index = match metrics.nox_iaq_index.register(
            MetricLabel::Sensor(SensorName::Sen55),
        ) {
            Some(h) => h,
            None => {
                return None;
            },
        };
        let voc_index = match metrics.tvoc_iaq_index.register(
            MetricLabel::Sensor(SensorName::Sen55),
        ) {
            Some(h) => h,
            None => {
                return None;
            },
        };
        Some(
            Sen55 {
                rel_humidity,
                abs_humidity,
                temp,
                pm1_0,
                pm2_5,
                pm4_0,
                pm10_0,
                nox_index,
                voc_index,
                last_warm_start_param: None,
                polls,
            },
        )
    }

    /// Remember the warm-start parameter the device reported, to apply
    /// on the next re-initialization.
    pub fn note_warm_start_param(&mut self, param: u16)
        ensures
            final(self).spec_warm_start() == Some(param),
            final(self).spec_rel_humidity() == old(self).spec_rel_humidity(),
            final(self).spec_abs_humidity() == old(self).spec_abs_humidity(),
            final(self).spec_temp() == old(self).spec_temp(),
            final(self).spec_pm1_0() == old(self).spec_pm1_0(),
            final(self).spec_pm2_5() == old(self).spec_pm2_5(),
            final(self).spec_pm4_0() == old(self).spec_pm4_0(),
            final(self).spec_pm10_0() == old(self).spec_pm10_0(),
            final(self).spec_nox_index() == old(self).spec_nox_index(),
            final(self).spec_voc_index() == old(self).spec_voc_index(),
            final(self).spec_polls() == old(self).spec_polls(),
    {
        self.last_warm_start_param = Some(param);
    }

    /// The warm-start parameter to apply during initialization, when
    /// one was learned.
    pub fn warm_start_param(&self) -> (r: Option<u16>)
        ensures
            r == self.spec_warm_start(),
    {
        self.last_warm_start_param
    }

    /// Whether this poll logs its reading at INFO level.
    pub fn should_log_info(&self) -> (r: bool)
        requires
            self.spec_polls().wf(),
        ensures
            r == (self.spec_polls().spec_polls() % self.spec_polls().spec_log_info_interval()
                == 0),
    {
        self.polls.should_log_info()
    }

    /// Publish one measurement cycle. When the device reports data as
    /// not ready, nothing is written. Otherwise every value the device
    /// reported updates its gauge (all in milli-units), and when both
    /// temperature and humidity are present, every N-th ready poll also
    /// derives absolute humidity.
    pub fn record_measurements(
        &mut self,
        metrics: &mut SensorMetrics,
        ready: bool,
        temp: Option<i64>,
        rel_humidity: Option<i64>,
        voc_index: Option<i64>,
        nox_index: Option<i64>,
        pm1_0: Option<i64>,
        pm2_5: Option<i64>,
        pm4_0: Option<i64>,
        pm10_0: Option<i64>,
    )
        requires
            old(metrics).wf(),
            old(self).wf(old(metrics)),
            temp matches Some(t) ==> spec_temp_in_range(t as int),
            rel_humidity matches Some(h) ==> 0 <= h <= 100_000,
        ensures
            final(metrics).wf(),
            final(self).wf(final(metrics)),
            !ready ==> final(metrics).rel_humidity_percent@ == old(metrics).rel_humidity_percent@ && final(metrics).temp_c@ == old(metrics).temp_c@ && final(metrics).abs_humidity_grams_m3@ == old(metrics).abs_humidity_grams_m3@ && final(metrics).pm_conc@ == old(metrics).pm_conc@ && final(metrics).nox_iaq_index@ == old(metrics).nox_iaq_index@ && final(metrics).tvoc_iaq_index@ == old(metrics).tvoc_iaq_index@,
            ready ==> {
                &&& final(metrics).rel_humidity_percent@ == spec_family_after_opt(
                    old(metrics).rel_humidity_percent@,
                    old(self).spec_rel_humidity() as int,
                    rel_humidity,
                )
                &&& final(metrics).temp_c@ == spec_family_after_opt(
                    old(metrics).temp_c@,
                    old(self).spec_temp() as int,
                    temp,
                )
                &&& final(metrics).nox_iaq_index@ == spec_family_after_opt(
                    old(metrics).nox_iaq_index@,
                    old(self).spec_nox_index() as int,
                    nox_index,
                )
                &&& final(metrics).tvoc_iaq_index@ == spec_family_after_opt(
                    old(metrics).tvoc_iaq_index@,
                    old(self).spec_voc_index() as int,
                    voc_index,
                )
                &&& final(metrics).pm_conc@ == spec_family_after_opt(
                    spec_family_after_opt(
                        spec_family_after_opt(
                            spec_family_after_opt(
                                old(metrics).pm_conc@,
                                old(self).spec_pm1_0() as int,
                                pm1_0,
                            ),
                            old(self).spec_pm2_5() as int,
                            pm2_5,
                        ),
                        old(self).spec_pm4_0() as int,
                        pm4_0,
                    ),
                    old(self).spec_pm10_0() as int,
                    pm10_0,
                )
                &&& final(metrics).abs_humidity_grams_m3@ == (match (temp, rel_humidity) {
                    (Some(t), Some(h)) => if old(self).spec_polls().spec_polls() % old(self).spec_polls().spec_abs_humidity_interval() == 0 {
                        spec_family_after_set(
                            old(metrics).abs_humidity_grams_m3@,
                            old(self).spec_abs_humidity() as int,
                            spec_absolute_humidity_millis(t as int, h as int),
                        )
                    } else {
                        old(metrics).abs_humidity_grams_m3@
                    },
                    _ => old(metrics).abs_humidity_grams_m3@,
                })
            },
            final(metrics).co2_ppm@ == old(metrics).co2_ppm@,
            final(metrics).eco2_ppm@ == old(metrics).eco2_ppm@,
            final(metrics).pressure_hpa@ == old(metrics).pressure_hpa@,
            final(metrics).gas_resistance@ == old(metrics).gas_resistance@,
            final(metrics).tvoc_ppb@ == old(metrics).tvoc_ppb@,
            final(metrics).pm_count@ == old(metrics).pm_count@,
            final(metrics).sensor_errors@ == old(metrics).sensor_errors@,
            final(metrics).sensor_reset_count@ == old(metrics).sensor_reset_count@,
    {
        if !ready {
            return ;
        }
        if let Some(h) = rel_humidity {
            metrics.rel_humidity_percent.set_value(self.rel_humidity, h);
        }
        if let Some(t) = temp {
            metrics.temp_c.set_value(self.temp, t);
        }
        if let Some(n) = nox_index {
            metrics.nox_iaq_index.set_value(self.nox_index, n);
        }
        if let Some(v) = voc_index {
            metrics.tvoc_iaq_index.set_value(self.voc_index, v);
        }
        if let Some(pm) = pm1_0 {
            metrics.pm_conc.set_value(self.pm1_0, pm);
        }
        if let Some(pm) = pm2_5 {
            metrics.pm_conc.set_value(self.pm2_5, pm);
        }
        if let Some(pm) = pm4_0 {
            metrics.pm_conc.set_value(self.pm4_0, pm);
        }
        if let Some(pm) = pm10_0 {
            metrics.pm_conc.set_value(self.pm10_0, pm);
        }
        if let (Some(t), Some(h)) = (temp, rel_humidity) {
            if self.polls.should_calc_abs_humidity() {
                let ah = absolute_humidity_millis(t, h);
                metrics.abs_humidity_grams_m3.set_value(self.abs_humidity, ah);
            }
        }
        self.polls.add();
    }
}

/// The particulate label for one diameter of this sensor.
pub open spec fn spec_sen55_dia(d: Diameter) -> MetricLabel {
    MetricLabel::Diameter((DiameterLabel { diameter: d, sensor: SensorName::Sen55 }))
}

fn sen55_dia(d: Diameter) -> (l: MetricLabel)
    ensures
        l == spec_sen55_dia(d),
{
    MetricLabel::Diameter(DiameterLabel { diameter: d, sensor: SensorName::Sen55 })
}

} // verus!

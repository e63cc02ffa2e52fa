//! Sensor supervision core for an environmental-monitoring daemon.
//!
//! The crate models the per-sensor lifecycle (initialize, poll, classify
//! errors, retry with bounded backoff), a fixed-capacity metric registry
//! with Prometheus-text and JSON rendering, calibration-baseline
//! persistence, and the per-sensor decision logic of every supported
//! air-quality sensor. All numeric readings are carried as integer
//! milli-units so that the arithmetic can be verified; the binary that
//! drives real hardware converts at its own boundary.

pub mod baseline;
pub mod bus;
pub mod error;
pub mod humidity;
pub mod metrics;
pub mod name;
pub mod render;
pub mod retry;
pub mod sensor;
pub mod supervisor;
pub mod status;
pub mod trace;

use vstd::prelude::*;

verus! {

/// How many sensors the registries are dimensioned for.
pub const MAX_SENSORS: usize = 16;

/// Global configuration for the supervision core.
///
/// Durations are carried in milliseconds.
#[derive(Debug, Copy, Clone)]
pub struct Config {
    /// Give up on a sensor permanently after this many failed
    /// initialization attempts; `None` retries forever.
    pub max_init_attempts: Option<u32>,
    /// Recompute absolute humidity every this many polls.
    pub abs_humidity_interval: u32,
    /// Log readings at INFO level with this cadence.
    pub log_reading_interval_ms: u64,
    /// First retry delay.
    pub initial_backoff_ms: u64,
    /// Largest retry delay.
    pub max_backoff_ms: u64,
}

impl Config {
    /// A configuration's intervals must be positive: a zero stride would
    /// divide by zero when deciding whether a poll is due.
    pub open spec fn wf(&self) -> bool {
        &&& self.abs_humidity_interval >= 1
        &&& self.log_reading_interval_ms >= 1
    }

    pub fn new() -> (c: Config)
        ensures
            c.wf(),
            c.max_init_attempts is None,
            c.abs_humidity_interval == 1,
            c.log_reading_interval_ms == 30_000,
            c.initial_backoff_ms == 500,
            c.max_backoff_ms == 60_000,
    {
        Config {
            max_init_attempts: None,
            abs_humidity_interval: 1,
            log_reading_interval_ms: 30_000,
            initial_backoff_ms: 500,
            max_backoff_ms: 60_000,
        }
    }
}


/// The process-wide composition: the metric registry, the sensor state
/// registry and the shared-bus model, owned for the daemon's lifetime.
#[derive(Debug)]
pub struct Eclss {
    metrics: metrics::SensorMetrics,
    sensors: sensor::Registry,
    bus: bus::SharedBus,
}

impl Eclss {
    pub open spec fn wf(&self) -> bool {
        &&& self.spec_metrics().wf()
        &&& self.spec_sensors().wf()
    }

    pub closed spec fn spec_metrics(&self) -> &metrics::SensorMetrics {
        &self.metrics
    }

    pub closed spec fn spec_sensors(&self) -> &sensor::Registry {
        &self.sensors
    }

    pub closed spec fn spec_bus(&self) -> &bus::SharedBus {
        &self.bus
    }

    /// A fresh composition: empty registries dimensioned for every
    /// supported sensor, and a free bus.
    pub fn new() -> (e: Eclss)
        ensures
            e.wf(),
            e.spec_metrics().spec_empty(),
            e.spec_sensors()@.names.len() == 0,
            e.spec_sensors()@.capacity == MAX_SENSORS,
            e.spec_bus().spec_holder() is None,
    {
        Eclss {
            metrics: metrics::SensorMetrics::new(),
            sensors: sensor::Registry::new(MAX_SENSORS),
            bus: bus::SharedBus::new(),
        }
    }

    pub fn sensors(&self) -> (r: &sensor::Registry)
        ensures
            r == self.spec_sensors(),
    {
        &self.sensors
    }

    pub fn metrics(&self) -> (r: &metrics::SensorMetrics)
        ensures
            r == self.spec_metrics(),
    {
        &self.metrics
    }

    pub fn sensors_mut(&mut self) -> (r: &mut sensor::Registry)
        ensures
            *r == old(self).spec_sensors(),
            final(self).spec_metrics() == old(self).spec_metrics(),
            final(self).spec_bus() == old(self).spec_bus(),
            final(self).spec_sensors() == *final(r),
    {
        &mut self.sensors
    }

    pub fn metrics_mut(&mut self) -> (r: &mut metrics::SensorMetrics)
        ensures
            *r == old(self).spec_metrics(),
            final(self).spec_sensors() == old(self).spec_sensors(),
            final(self).spec_bus() == old(self).spec_bus(),
            final(self).spec_metrics() == *final(r),
    {
        &mut self.metrics
    }

    pub fn bus_mut(&mut self) -> (r: &mut bus::SharedBus)
        ensures
            *r == old(self).spec_bus(),
            final(self).spec_sensors() == old(self).spec_sensors(),
            final(self).spec_metrics() == old(self).spec_metrics(),
            final(self).spec_bus() == *final(r),
    {
        &mut self.bus
    }
}


impl Eclss {
    /// Apply one supervisor transition's actions for a sensor: publish
    /// the status, count errors and resets, mark the sensor found, and
    /// drive its backoff. Returns the delay to sleep before the next
    /// operation when the policy asked to back off.
    pub fn apply_actions(
        &mut self,
        state_handle: usize,
        errors_handle: usize,
        resets_handle: usize,
        actions: &supervisor::Actions,
    ) -> (delay_ms: Option<u64>)
        requires
            old(self).wf(),
            state_handle < old(self).spec_sensors()@.states.len(),
            errors_handle < old(self).spec_metrics().sensor_errors@.metrics.len(),
            resets_handle < old(self).spec_metrics().sensor_reset_count@.metrics.len(),
        ensures
            final(self).wf(),
            final(self).spec_sensors()@.states.len() == old(self).spec_sensors()@.states.len(),
            final(self).spec_metrics().sensor_errors@.metrics.len() == old(self).spec_metrics().sensor_errors@.metrics.len(),
            final(self).spec_metrics().sensor_reset_count@.metrics.len() == old(self).spec_metrics().sensor_reset_count@.metrics.len(),
            // the status published for the event
            final(self).spec_sensors()@.states[state_handle as int].status == (
            match actions.set_status {
                Some(status) => status,
                None => old(self).spec_sensors()@.states[state_handle as int].status,
            }),
            // the found flag
            final(self).spec_sensors()@.states[state_handle as int].found == (actions.mark_found
                || old(self).spec_sensors()@.states[state_handle as int].found),
            // the error counter
            actions.incr_error_count && old(self).spec_metrics().sensor_errors@.metrics[
                errors_handle as int].value + 1 <= u64::MAX ==> final(self).spec_metrics().sensor_errors@.metrics[errors_handle as int].value == old(self).spec_metrics().sensor_errors@.metrics[errors_handle as int].value + 1,
            !actions.incr_error_count ==> final(self).spec_metrics().sensor_errors@ == old(self).spec_metrics().sensor_errors@,
            // the reset counter
            actions.incr_reset_count && old(self).spec_metrics().sensor_reset_count@.metrics[
                resets_handle as int].value + 1 <= u64::MAX ==> final(self).spec_metrics().sensor_reset_count@.metrics[resets_handle as int].value == old(self).spec_metrics().sensor_reset_count@.metrics[resets_handle as int].value + 1,
            !actions.incr_reset_count ==> final(self).spec_metrics().sensor_reset_count@ == old(self).spec_metrics().sensor_reset_count@,
            // the backoff: reset exactly when asked, and a wait taken
            // exactly when asked, whose delay the caller sleeps
            delay_ms is Some <==> actions.backoff_wait,
            actions.backoff_wait && !actions.backoff_reset ==> delay_ms == Some(
                old(self).spec_sensors()@.states[state_handle as int].backoff.spec_current(),
            ),
            actions.backoff_reset && !actions.backoff_wait ==> final(self).spec_sensors()@.states[
                state_handle as int].backoff.spec_exp() == 1,
    {
        if let Some(status) = actions.set_status {
            self.sensors.set_status(state_handle, status);
        }
        if actions.mark_found {
            self.sensors.set_found(state_handle, true);
        }
        if actions.incr_error_count {
            self.metrics.sensor_errors.fetch_add(errors_handle, 1);
        }
        if actions.incr_reset_count {
            self.metrics.sensor_reset_count.fetch_add(resets_handle, 1);
        }
        if actions.backoff_reset {
            self.sensors.backoff_reset(state_handle);
        }
        if actions.backoff_wait {
            Some(self.sensors.backoff_wait(state_handle))
        } else {
            None
        }
    }
}

} // verus!

//! Supervisor lifecycle scenarios.

use eclss::status::SensorStatus;
use eclss::supervisor::{run_events, step, Event, Phase};
use eclss::Config;

fn fresh() -> Phase {
    Phase::Initializing {
        attempts: 0,
        has_come_up: false,
    }
}

#[test]
fn absent_sensor_keeps_no_acknowledge_and_counts_errors() {
    let cfg = Config::new();
    let events = vec![
        Event::InitErr {
            status: SensorStatus::NoAcknowledge,
        };
        6
    ];
    let summary = run_events(fresh(), &events, &cfg);
    // unbounded retries: still initializing, errors counted, one
    // backoff wait per failure
    assert!(matches!(summary.phase, Phase::Initializing { .. }));
    assert_eq!(summary.error_count, 6);
    assert_eq!(summary.backoff_waits, 6);
    assert_eq!(summary.reset_count, 0);
    // the published trail alternates Initializing / NoAcknowledge
    assert_eq!(summary.statuses.len(), 12);
    for pair in summary.statuses.chunks(2) {
        assert_eq!(pair[0], SensorStatus::Initializing);
        assert_eq!(pair[1], SensorStatus::NoAcknowledge);
    }
}

#[test]
fn max_init_attempts_terminates_the_task() {
    let mut cfg = Config::new();
    cfg.max_init_attempts = Some(3);
    let events = vec![
        Event::InitErr {
            status: SensorStatus::NoAcknowledge,
        };
        5
    ];
    let summary = run_events(fresh(), &events, &cfg);
    assert_eq!(summary.phase, Phase::Terminated);
    // exactly three attempts count; later events are ignored
    assert_eq!(summary.error_count, 3);
    // the last attempt terminates instead of backing off
    assert_eq!(summary.backoff_waits, 2);
    // the last published status survives termination
    assert_eq!(
        summary.statuses.last(),
        Some(&SensorStatus::NoAcknowledge)
    );
}

#[test]
fn saturation_resets_and_recovers() {
    let cfg = Config::new();
    // running sensor reads a saturated value three polls in a row is
    // modeled by its driver reporting a should-reset failure; the
    // supervisor re-enters INIT, and a successful re-init counts one
    // reset before the sensor reports Up again
    let events = vec![
        Event::PollOk,
        Event::PollErr {
            status: SensorStatus::SensorError,
            should_reset: true,
        },
        Event::InitOk,
        Event::PollOk,
    ];
    let summary = run_events(Phase::Running, &events, &cfg);
    assert_eq!(summary.phase, Phase::Running);
    assert_eq!(summary.reset_count, 1);
    assert_eq!(summary.error_count, 1);
    assert_eq!(
        summary.statuses,
        vec![
            SensorStatus::Up,
            SensorStatus::SensorError,
            SensorStatus::Initializing,
            SensorStatus::Up,
        ]
    );
}

#[test]
fn one_cycle_status_path_is_monotone() {
    let cfg = Config::new();
    let events = vec![
        Event::InitErr {
            status: SensorStatus::BusError,
        },
        Event::InitOk,
        Event::PollOk,
        Event::PollOk,
    ];
    let summary = run_events(fresh(), &events, &cfg);
    assert_eq!(
        summary.statuses,
        vec![
            SensorStatus::Initializing,
            SensorStatus::BusError,
            SensorStatus::Initializing,
            SensorStatus::Up,
            SensorStatus::Up,
        ]
    );
    // the backoff was reset exactly once, at the INIT→RUNNING edge
    assert_eq!(summary.backoff_resets, 1);
}

#[test]
fn transient_poll_error_retries_without_reinit() {
    let cfg = Config::new();
    let (phase, actions) = step(
        Phase::Running,
        Event::PollErr {
            status: SensorStatus::BusError,
            should_reset: false,
        },
        &cfg,
    );
    assert_eq!(phase, Phase::Running);
    assert!(actions.backoff_wait);
    assert!(!actions.backoff_reset);
    assert!(actions.incr_error_count);
    assert_eq!(actions.set_status, Some(SensorStatus::BusError));
    assert!(!actions.sleep_poll_interval);
}

#[test]
fn first_init_success_is_not_a_reset() {
    let cfg = Config::new();
    let (phase, actions) = step(fresh(), Event::InitOk, &cfg);
    assert_eq!(phase, Phase::Running);
    assert!(!actions.incr_reset_count);
    assert!(actions.backoff_reset);
    assert!(actions.mark_found);
    assert!(actions.sleep_poll_interval);
}

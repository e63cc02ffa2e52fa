//! The per-sensor lifecycle state machine.
//!
//! A sensor's supervisor task runs initialize → poll → classify errors →
//! retry/reset. The decisions live here as a pure transition function
//! from phase and event to the next phase and the actions to take; the
//! binary's task loop performs the device I/O, feeds the outcome back in
//! as an [`Event`], and applies the [`Actions`] through the registry's
//! verified operations.

use vstd::prelude::*;

use crate::status::SensorStatus;
use crate::Config;

verus! {

/// Where a sensor's supervisor stands in its lifecycle.
#[derive(Copy, Clone, PartialEq, Eq, Structural, Debug)]
pub enum Phase {
    /// Bringing the device up; `attempts` failures so far in this
    /// initialization round, `has_come_up` whether the device ever
    /// initialized successfully before (a re-entry is a reset).
    Initializing { attempts: u32, has_come_up: bool },
    /// Periodic measurement.
    Running,
    /// Given up permanently after exhausting `max_init_attempts`.
    Terminated,
}

/// The outcome of one device operation, as the supervisor sees it.
#[derive(Copy, Clone, PartialEq, Eq, Structural, Debug)]
pub enum Event {
    /// `init` succeeded.
    InitOk,
    /// `init` failed; `status` is the error's mapped status.
    InitErr { status: SensorStatus },
    /// `poll` succeeded.
    PollOk,
    /// `poll` failed; `should_reset` asks for a re-initialization.
    PollErr { status: SensorStatus, should_reset: bool },
}

/// What the supervisor does in response to an event.
#[derive(Copy, Clone, PartialEq, Eq, Structural, Debug)]
pub struct Actions {
    /// Status to publish for this event.
    pub set_status: Option<SensorStatus>,
    /// Count one error in the sensor's error counter.
    pub incr_error_count: bool,
    /// Count one successful reset.
    pub incr_reset_count: bool,
    /// Mark the sensor as found on the bus.
    pub mark_found: bool,
    /// Await the next backoff delay before the next operation.
    pub backoff_wait: bool,
    /// Start the backoff over (on the INIT→RUNNING edge only).
    pub backoff_reset: bool,
    /// Sleep for the poll interval before the next poll.
    pub sleep_poll_interval: bool,
}

/// The events a phase can produce: init outcomes while initializing,
/// poll outcomes while running, nothing when terminated.
pub open spec fn spec_compatible(phase: Phase, ev: Event) -> bool {
    match phase {
        Phase::Initializing { .. } => ev is InitOk || ev is InitErr,
        Phase::Running => ev is PollOk || ev is PollErr,
        Phase::Terminated => false,
    }
}

/// The statuses an adapter error can map to.
pub open spec fn spec_is_failure(s: SensorStatus) -> bool {
    s.spec_is_error() || s == SensorStatus::NoAcknowledge
}

/// An event carries only failure statuses.
pub open spec fn spec_event_wf(ev: Event) -> bool {
    match ev {
        Event::InitErr { status } => spec_is_failure(status),
        Event::PollErr { status, .. } => spec_is_failure(status),
        _ => true,
    }
}

/// No action.
pub open spec fn spec_no_actions() -> Actions {
    Actions {
        set_status: None,
        incr_error_count: false,
        incr_reset_count: false,
        mark_found: false,
        backoff_wait: false,
        backoff_reset: false,
        sleep_poll_interval: false,
    }
}

/// The supervisor policy: from the current phase and the outcome of the
/// last device operation, the next phase and the actions to take.
///
/// - A successful `init` resets the backoff and enters RUNNING; when it
///   was a re-initialization, it counts as one successful reset.
/// - A failed `init` publishes the error's status, counts an error, and
///   backs off before retrying — unless `max_init_attempts` is now
///   exhausted, which terminates the sensor's task for good.
/// - A successful `poll` publishes `Up` and sleeps one poll interval.
/// - A failed `poll` publishes the error's status and counts an error;
///   a should-reset failure re-enters initialization, any other failure
///   backs off and retries the poll without re-initializing. The
///   backoff is deliberately not reset by a successful poll: only the
///   INIT→RUNNING edge resets it, so a burst of poll errors within one
///   RUNNING phase is treated as a single episode.
pub open spec fn spec_step(phase: Phase, ev: Event, cfg: &Config) -> (Phase, Actions) {
    match (phase, ev) {
        (Phase::Initializing { attempts, has_come_up }, Event::InitOk) => (
            Phase::Running,
            (Actions {
                set_status: None,
                incr_error_count: false,
                incr_reset_count: has_come_up,
                mark_found: true,
                backoff_wait: false,
                backoff_reset: true,
                sleep_poll_interval: true,
            }),
        ),
        (Phase::Initializing { attempts, has_come_up }, Event::InitErr { status }) => {
            let next_attempts = if attempts < u32::MAX {
                (attempts + 1) as u32
            } else {
                attempts
            };
            if cfg.max_init_attempts == Some(next_attempts) {
                (
                    Phase::Terminated,
                    (Actions {
                        set_status: Some(status),
                        incr_error_count: true,
                        incr_reset_count: false,
                        mark_found: false,
                        backoff_wait: false,
                        backoff_reset: false,
                        sleep_poll_interval: false,
                    }),
                )
            } else {
                (
                    Phase::Initializing { attempts: next_attempts, has_come_up },
                    (Actions {
                        set_status: Some(status),
                        incr_error_count: true,
                        incr_reset_count: false,
                        mark_found: false,
                        backoff_wait: true,
                        backoff_reset: false,
                        sleep_poll_interval: false,
                    }),
                )
            }
        },
        (Phase::Running, Event::PollOk) => (
            Phase::Running,
            (Actions {
                set_status: Some(SensorStatus::Up),
                incr_error_count: false,
                incr_reset_count: false,
                mark_found: false,
                backoff_wait: false,
                backoff_reset: false,
                sleep_poll_interval: true,
            }),
        ),
        (Phase::Running, Event::PollErr { status, should_reset }) => {
            if should_reset {
                (
                    Phase::Initializing { attempts: 0, has_come_up: true },
                    (Actions {
                        set_status: Some(status),
                        incr_error_count: true,
                        incr_reset_count: false,
                        mark_found: false,
                        backoff_wait: false,
                        backoff_reset: false,
                        sleep_poll_interval: false,
                    }),
                )
            } else {
                (
                    Phase::Running,
                    (Actions {
                        set_status: Some(status),
                        incr_error_count: true,
                        incr_reset_count: false,
                        mark_found: false,
                        backoff_wait: true,
                        backoff_reset: false,
                        sleep_poll_interval: false,
                    }),
                )
            }
        },
        _ => (phase, spec_no_actions()),
    }
}

/// One supervisor transition; see [`spec_step`] for the policy.
pub fn step(phase: Phase, ev: Event, cfg: &Config) -> (r: (Phase, Actions))
    requires
        spec_compatible(phase, ev),
    ensures
        r == spec_step(phase, ev, cfg),
{
    match (phase, ev) {
        (Phase::Initializing { attempts, has_come_up }, Event::InitOk) => (
            Phase::Running,
            Actions {
                set_status: None,
                incr_error_count: false,
                incr_reset_count: has_come_up,
                mark_found: true,
                backoff_wait: false,
                backoff_reset: true,
                sleep_poll_interval: true,
            },
        ),
        (Phase::Initializing { attempts, has_come_up }, Event::InitErr { status }) => {
            let next_attempts: u32 = if attempts < u32::MAX {
                attempts + 1
            } else {
                attempts
            };
            let exhausted = match cfg.max_init_attempts {
                Some(max) => max == next_attempts,
                None => false,
            };
            if exhausted {
                (
                    Phase::Terminated,
                    Actions {
                        set_status: Some(status),
                        incr_error_count: true,
                        incr_reset_count: false,
                        mark_found: false,
                        backoff_wait: false,
                        backoff_reset: false,
                        sleep_poll_interval: false,
                    },
                )
            } else {
                (
                    Phase::Initializing { attempts: next_attempts, has_come_up },
                    Actions {
                        set_status: Some(status),
                        incr_error_count: true,
                        incr_reset_count: false,
                        mark_found: false,
                        backoff_wait: true,
                        backoff_reset: false,
                        sleep_poll_interval: false,
                    },
                )
            }
        },
        (Phase::Running, Event::PollOk) => (
            Phase::Running,
            Actions {
                set_status: Some(SensorStatus::Up),
                incr_error_count: false,
                incr_reset_count: false,
                mark_found: false,
                backoff_wait: false,
                backoff_reset: false,
                sleep_poll_interval: true,
            },
        ),
        (Phase::Running, Event::PollErr { status, should_reset }) => {
            if should_reset {
                (
                    Phase::Initializing { attempts: 0, has_come_up: true },
                    Actions {
                        set_status: Some(status),
                        incr_error_count: true,
                        incr_reset_count: false,
                        mark_found: false,
                        backoff_wait: false,
                        backoff_reset: false,
                        sleep_poll_interval: false,
                    },
                )
            } else {
                (
                    Phase::Running,
                    Actions {
                        set_status: Some(status),
                        incr_error_count: true,
                        incr_reset_count: false,
                        mark_found: false,
                        backoff_wait: true,
                        backoff_reset: false,
                        sleep_poll_interval: false,
                    },
                )
            }
        },
        (p, _) => (p, step_noop()),
    }
}

fn step_noop() -> (a: Actions)
    ensures
        a == spec_no_actions(),
{
    Actions {
        set_status: None,
        incr_error_count: false,
        incr_reset_count: false,
        mark_found: false,
        backoff_wait: false,
        backoff_reset: false,
        sleep_poll_interval: false,
    }
}

/// Status monotonicity of one lifecycle cycle: while initializing, only
/// `Initializing` and failure kinds are ever published, never `Up`; in
/// RUNNING, `Up` is published exactly by a successful poll and failure
/// kinds by failed polls; and the machine leaves RUNNING for
/// initialization only on a should-reset failure — there is no
/// Up → Initializing transition without a reset event.
pub proof fn lemma_status_monotone(phase: Phase, ev: Event, cfg: &Config)
    requires
        spec_compatible(phase, ev),
        spec_event_wf(ev),
    ensures
        (phase is Running && spec_step(phase, ev, cfg).0 is Initializing) ==> (ev matches
            Event::PollErr { should_reset, .. } && should_reset),
        phase is Running ==> (spec_step(phase, ev, cfg).1.set_status == Some(SensorStatus::Up)
            <==> ev is PollOk),
        phase is Initializing ==> spec_step(phase, ev, cfg).1.set_status != Some(SensorStatus::Up),
        phase is Initializing ==> match spec_step(phase, ev, cfg).1.set_status {
            Some(s) => spec_is_failure(s),
            None => true,
        },
        phase is Initializing && ev is InitOk ==> spec_step(phase, ev, cfg).0 is Running,
{
}

/// The backoff is reset exactly on the INIT→RUNNING edge: no other
/// transition resets it, and every transition into RUNNING from
/// initialization does.
pub proof fn lemma_backoff_reset_on_init_edge(phase: Phase, ev: Event, cfg: &Config)
    requires
        spec_compatible(phase, ev),
    ensures
        spec_step(phase, ev, cfg).1.backoff_reset <==> (phase is Initializing && ev is InitOk),
{
}

/// A terminated sensor stays terminated, and only initialization
/// failures with a configured attempt limit terminate.
pub proof fn lemma_termination(phase: Phase, ev: Event, cfg: &Config)
    requires
        spec_compatible(phase, ev),
    ensures
        spec_step(phase, ev, cfg).0 is Terminated ==> phase is Initializing && ev is InitErr
            && cfg.max_init_attempts is Some,
{
}

/// A summary of a supervisor run: where it ended and what it published
/// and counted along the way.
#[derive(Debug)]
pub struct RunSummary {
    /// The phase after the last event.
    pub phase: Phase,
    /// Every status published, in order (including the `Initializing`
    /// published when an init attempt starts).
    pub statuses: Vec<SensorStatus>,
    /// How many errors were counted.
    pub error_count: u64,
    /// How many successful resets were counted.
    pub reset_count: u64,
    /// How many backoff waits were taken.
    pub backoff_waits: u64,
    /// How many times the backoff was reset.
    pub backoff_resets: u64,
}

/// The statuses one step publishes: starting an init attempt publishes
/// `Initializing`, then the event's own status, if any.
pub open spec fn spec_step_statuses(phase: Phase, ev: Event, cfg: &Config) -> Seq<SensorStatus> {
    let before: Seq<SensorStatus> = if phase is Initializing {
        seq![SensorStatus::Initializing]
    } else {
        Seq::empty()
    };
    match spec_step(phase, ev, cfg).1.set_status {
        Some(s) => before.push(s),
        None => before,
    }
}

/// The run summary after folding `events` from `phase`, starting from
/// the given counters.
pub open spec fn spec_run(
    phase: Phase,
    events: Seq<Event>,
    cfg: &Config,
    statuses: Seq<SensorStatus>,
    error_count: nat,
    reset_count: nat,
    backoff_waits: nat,
    backoff_resets: nat,
) -> (Phase, Seq<SensorStatus>, nat, nat, nat, nat)
    decreases events.len(),
{
    if events.len() == 0 {
        (phase, statuses, error_count, reset_count, backoff_waits, backoff_resets)
    } else {
        let ev = events[0];
        let next = spec_step(phase, ev, cfg);
        let a = next.1;
        spec_run(
            next.0,
            events.drop_first(),
            cfg,
            statuses + spec_step_statuses(phase, ev, cfg),
            error_count + if a.incr_error_count {
                1nat
            } else {
                0nat
            },
            reset_count + if a.incr_reset_count {
                1nat
            } else {
                0nat
            },
            backoff_waits + if a.backoff_wait {
                1nat
            } else {
                0nat
            },
            backoff_resets + if a.backoff_reset {
                1nat
            } else {
                0nat
            },
        )
    }
}

/// Drive the supervisor over a sequence of device outcomes and report
/// what it did. Events arriving after termination, or of the wrong kind
/// for the current phase, are ignored, as a terminated or busy task
/// would ignore them.
pub fn run_events(start: Phase, events: &Vec<Event>, cfg: &Config) -> (r: RunSummary)
    ensures
        ({
            let expected = spec_run(start, events@, cfg, Seq::empty(), 0, 0, 0, 0);
            &&& r.phase == expected.0
            &&& r.statuses@ == expected.1
            &&& r.error_count as nat == expected.2
            &&& r.reset_count as nat == expected.3
            &&& r.backoff_waits as nat == expected.4
            &&& r.backoff_resets as nat == expected.5
        }),
{
    let mut phase = start;
    let mut statuses: Vec<SensorStatus> = Vec::new();
    let mut error_count: u64 = 0;
    let mut reset_count: u64 = 0;
    let mut backoff_waits: u64 = 0;
    let mut backoff_resets: u64 = 0;
    let n = events.len();
    let mut i: usize = 0;
    proof {
        assert(events@.skip(0) =~= events@);
        assert(statuses@ =~= Seq::<SensorStatus>::empty());
    }
    while i < n
        invariant
            i <= n,
            n == events@.len(),
            error_count <= i,
            reset_count <= i,
            backoff_waits <= i,
            backoff_resets <= i,
            spec_run(start, events@, cfg, Seq::empty(), 0, 0, 0, 0) == spec_run(
                phase,
                events@.skip(i as int),
                cfg,
                statuses@,
                error_count as nat,
                reset_count as nat,
                backoff_waits as nat,
                backoff_resets as nat,
            ),
        decreases n - i,
    {
        let ev = events[i];
        proof {
            assert(events@.skip(i as int)[0] == events@[i as int]);
            assert(events@.skip(i as int).drop_first() =~= events@.skip(i + 1));
        }
        let ghost prev_statuses = statuses@;
        let compatible = match (phase, ev) {
            (Phase::Initializing { .. }, Event::InitOk) => true,
            (Phase::Initializing { .. }, Event::InitErr { .. }) => true,
            (Phase::Running, Event::PollOk) => true,
            (Phase::Running, Event::PollErr { .. }) => true,
            _ => false,
        };
        if matches!(phase, Phase::Initializing { .. }) {
            statuses.push(SensorStatus::Initializing);
        }
        let (next_phase, actions) = if compatible {
            step(phase, ev, cfg)
        } else {
            (phase, step_noop())
        };
        if let Some(s) = actions.set_status {
            statuses.push(s);
        }
        if actions.incr_error_count {
            error_count += 1;
        }
        if actions.incr_reset_count {
            reset_count += 1;
        }
        if actions.backoff_wait {
            backoff_waits += 1;
        }
        if actions.backoff_reset {
            backoff_resets += 1;
        }
        proof {
            assert(statuses@ =~= prev_statuses + spec_step_statuses(phase, ev, cfg));
        }
        phase = next_phase;
        i += 1;
    }
    proof {
        assert(events@.skip(n as int) =~= Seq::<Event>::empty());
    }
    RunSummary { phase, statuses, error_count, reset_count, backoff_waits, backoff_resets }
}

} // verus!

//! Per-sensor runtime state and the fixed-capacity sensor registry.

pub mod bme680;
pub mod ens160;
pub mod pmsa003i;
pub mod scd;
pub mod sen55;
pub mod sgp30;
pub mod sht41;

use vstd::prelude::*;

use crate::metrics::{lemma_spec_find, lemma_spec_find_at, spec_find};
use crate::name::SensorName;
use crate::retry::ExpBackoff;
use crate::status::{SensorStatus, StatusCell};
use crate::Config;

verus! {

/// Decides, from a wrapping poll counter, which polls derive absolute
/// humidity and which log their readings at INFO level.
#[derive(Debug)]
pub struct PollCount {
    polls: u32,
    abs_humidity_interval: u32,
    log_info_interval: u32,
}

impl PollCount {
    pub closed spec fn spec_polls(&self) -> u32 {
        self.polls
    }

    pub closed spec fn spec_abs_humidity_interval(&self) -> u32 {
        self.abs_humidity_interval
    }

    pub closed spec fn spec_log_info_interval(&self) -> u32 {
        self.log_info_interval
    }

    /// The strides must be positive, or deciding a poll would divide by
    /// zero.
    pub open spec fn wf(&self) -> bool {
        &&& self.spec_abs_humidity_interval() >= 1
        &&& self.spec_log_info_interval() >= 1
    }

    /// Count one poll; the counter wraps around at `u32::MAX`.
    pub fn add(&mut self)
        ensures
            final(self).spec_polls() == (old(self).spec_polls() + 1) % 0x1_0000_0000,
            final(self).spec_abs_humidity_interval() == old(self).spec_abs_humidity_interval(),
            final(self).spec_log_info_interval() == old(self).spec_log_info_interval(),
    {
        self.polls = self.polls.wrapping_add(1);
    }

    /// Whether this poll recomputes absolute humidity: every N-th poll,
    /// counting from the first.
    pub fn should_calc_abs_humidity(&self) -> (r: bool)
        requires
            self.wf(),
        ensures
            r == (self.spec_polls() % self.spec_abs_humidity_interval() == 0),
    {
        self.polls % self.abs_humidity_interval == 0
    }

    /// Whether this poll logs its reading at INFO level.
    pub fn should_log_info(&self) -> (r: bool)
        requires
            self.wf(),
        ensures
            r == (self.spec_polls() % self.spec_log_info_interval() == 0),
    {
        self.polls % self.log_info_interval == 0
    }
}

/// How many polls of `poll_interval_ms` cover `log_reading_interval_ms`,
/// rounded up; the INFO-log stride.
pub open spec fn spec_log_stride(log_ms: nat, poll_ms: nat) -> nat {
    ((log_ms + poll_ms - 1) as int / poll_ms as int) as nat
}

impl Config {
    /// The poll counter for a sensor polled every `poll_interval_ms`.
    pub fn poll_counter(&self, poll_interval_ms: u64) -> (pc: PollCount)
        requires
            self.wf(),
            poll_interval_ms >= 1,
        ensures
            pc.wf(),
            pc.spec_polls() == 0,
            pc.spec_abs_humidity_interval() == self.abs_humidity_interval,
            pc.spec_log_info_interval() as nat == if spec_log_stride(
                self.log_reading_interval_ms as nat,
                poll_interval_ms as nat,
            ) <= u32::MAX {
                spec_log_stride(self.log_reading_interval_ms as nat, poll_interval_ms as nat)
            } else {
                u32::MAX as nat
            },
    {
        // ceil(log / poll), saturated to the counter's width
        let stride_wide: u128 = ((self.log_reading_interval_ms as u128) + (
        poll_interval_ms as u128) - 1) / (poll_interval_ms as u128);
        proof {
            vstd::arithmetic::div_mod::lemma_div_is_ordered(
                poll_interval_ms as int,
                self.log_reading_interval_ms as int + poll_interval_ms as int - 1,
                poll_interval_ms as int,
            );
            vstd::arithmetic::div_mod::lemma_div_by_self(poll_interval_ms as int);
        }
        let log_info_interval: u32 = if stride_wide > u32::MAX as u128 {
            u32::MAX
        } else {
            stride_wide as u32
        };
        PollCount {
            polls: 0,
            abs_humidity_interval: self.abs_humidity_interval,
            log_info_interval,
        }
    }
}

/// Mathematical state of one registered sensor.
pub ghost struct StateView {
    pub status: SensorStatus,
    pub found: bool,
    pub poll_interval_ms: u64,
    pub backoff: ExpBackoff,
}

/// The per-sensor state the supervisor owns and the HTTP surface reads:
/// current status, whether the sensor was ever found, its poll cadence,
/// and its retry backoff.
#[derive(Debug)]
pub struct State {
    status: StatusCell,
    found: bool,
    poll_interval_ms: u64,
    backoff: ExpBackoff,
}

impl View for State {
    type V = StateView;

    closed spec fn view(&self) -> StateView {
        StateView {
            status: self.status.spec_status(),
            found: self.found,
            poll_interval_ms: self.poll_interval_ms,
            backoff: self.backoff,
        }
    }
}

impl State {
    /// A fresh state: status unknown, not found, with the given poll
    /// cadence and backoff.
    pub fn new(poll_interval_ms: u64, backoff: ExpBackoff) -> (s: State)
        ensures
            s@.status == SensorStatus::Unknown,
            !s@.found,
            s@.poll_interval_ms == poll_interval_ms,
            s@.backoff == backoff,
    {
        State { status: StatusCell::new(), found: false, poll_interval_ms, backoff }
    }
}

impl Default for State {
    /// The default state polls every two seconds with the default
    /// backoff.
    fn default() -> (s: State)
        ensures
            s@.status == SensorStatus::Unknown,
            !s@.found,
            s@.poll_interval_ms == 2000,
    {
        State::new(2000, ExpBackoff::new(1000))
    }
}

/// Mathematical state of the sensor registry.
pub ghost struct RegistryView {
    pub capacity: nat,
    pub names: Seq<SensorName>,
    pub states: Seq<StateView>,
}

/// Fixed-capacity mapping from sensor identity to its runtime state.
/// `get_or_register` is the single insertion point; the same name always
/// maps to the same slot.
#[derive(Debug)]
pub struct Registry {
    capacity: usize,
    names: Vec<SensorName>,
    states: Vec<State>,
}

impl View for Registry {
    type V = RegistryView;

    closed spec fn view(&self) -> RegistryView {
        RegistryView {
            capacity: self.capacity as nat,
            names: self.names@,
            states: self.states@.map_values(|s: State| s@),
        }
    }
}

impl Registry {
    pub open spec fn wf(&self) -> bool {
        &&& self@.names.len() == self@.states.len()
        &&& self@.names.len() <= self@.capacity
        &&& self@.names.no_duplicates()
    }

    pub fn new(capacity: usize) -> (r: Registry)
        ensures
            r.wf(),
            r@.capacity == capacity as nat,
            r@.names.len() == 0,
    {
        Registry { capacity, names: Vec::new(), states: Vec::new() }
    }

    /// Look up a sensor's slot, registering it with `state` when absent.
    /// The same name always answers the same slot; `None` means the
    /// registry is full, a startup-time fatal.
    pub fn get_or_register(&mut self, name: SensorName, state: State) -> (r: Option<usize>)
        requires
            old(self).wf(),
        ensures
            final(self).wf(),
            final(self)@.capacity == old(self)@.capacity,
            match spec_find(old(self)@.names, name) {
                Some(i) => r == Some(i as usize) && final(self)@ == old(self)@,
                None => if old(self)@.names.len() < old(self)@.capacity {
                    &&& r == Some(old(self)@.names.len() as usize)
                    &&& final(self)@.names == old(self)@.names.push(name)
                    &&& final(self)@.states == old(self)@.states.push(state@)
                } else {
                    r is None && final(self)@ == old(self)@
                },
            },
            r matches Some(i) ==> i < final(self)@.names.len() && final(self)@.names[i as int]
                == name,
    {
        proof {
            lemma_spec_find(self@.names, name);
        }
        let n = self.names.len();
        let mut i: usize = 0;
        while i < n
            invariant
                i <= n,
                self.wf(),
                self@ == old(self)@,
                n == self.names@.len(),
                forall|j: int| 0 <= j < i ==> self.names@[j] != name,
            decreases n - i,
        {
            if self.names[i] == name {
                proof {
                    lemma_spec_find_at(self.names@, name, i as int);
                }
                return Some(i);
            }
            i += 1;
        }
        if n < self.capacity {
            self.names.push(name);
            self.states.push(state);
            proof {
                assert(self@.states =~= old(self)@.states.push(state@));
            }
            Some(n)
        } else {
            None
        }
    }

    pub fn len(&self) -> (n: usize)
        ensures
            n == self@.names.len(),
    {
        self.names.len()
    }

    pub fn name_at(&self, i: usize) -> (n: SensorName)
        requires
            i < self@.names.len(),
        ensures
            n == self@.names[i as int],
    {
        self.names[i]
    }

    /// Publish a new status for a slot; returns the previous status.
    pub fn set_status(&mut self, handle: usize, status: SensorStatus) -> (prev: SensorStatus)
        requires
            old(self).wf(),
            handle < old(self)@.states.len(),
        ensures
            final(self).wf(),
            prev == old(self)@.states[handle as int].status,
            final(self)@.capacity == old(self)@.capacity,
            final(self)@.names == old(self)@.names,
            final(self)@.states == old(self)@.states.update(
                handle as int,
                (StateView { status, ..old(self)@.states[handle as int] }),
            ),
    {
        proof {
            assert(old(self)@.states[handle as int] == self.states@[handle as int]@);
        }
        let state = &mut self.states[handle];
        let prev = state.status.set_status(status);
        proof {
            assert(self@.states =~= old(self)@.states.update(
                handle as int,
                (StateView { status, ..old(self)@.states[handle as int] }),
            ));
        }
        prev
    }

    pub fn status(&self, handle: usize) -> (s: SensorStatus)
        requires
            handle < self@.states.len(),
        ensures
            s == self@.states[handle as int].status,
    {
        self.states[handle].status.status()
    }

    /// Mark a slot's sensor as found on the bus.
    pub fn set_found(&mut self, handle: usize, found: bool)
        requires
            old(self).wf(),
            handle < old(self)@.states.len(),
        ensures
            final(self).wf(),
            final(self)@.capacity == old(self)@.capacity,
            final(self)@.names == old(self)@.names,
            final(self)@.states == old(self)@.states.update(
                handle as int,
                (StateView { found, ..old(self)@.states[handle as int] }),
            ),
    {
        proof {
            assert(old(self)@.states[handle as int] == self.states@[handle as int]@);
        }
        let state = &mut self.states[handle];
        state.found = found;
        proof {
            assert(self@.states =~= old(self)@.states.update(
                handle as int,
                (StateView { found, ..old(self)@.states[handle as int] }),
            ));
        }
    }

    pub fn found(&self, handle: usize) -> (f: bool)
        requires
            handle < self@.states.len(),
        ensures
            f == self@.states[handle as int].found,
    {
        self.states[handle].found
    }

    pub fn poll_interval_ms(&self, handle: usize) -> (p: u64)
        requires
            handle < self@.states.len(),
        ensures
            p == self@.states[handle as int].poll_interval_ms,
    {
        self.states[handle].poll_interval_ms
    }

    /// Take the next backoff delay of a slot; the caller sleeps for the
    /// returned number of milliseconds.
    pub fn backoff_wait(&mut self, handle: usize) -> (delay_ms: u64)
        requires
            old(self).wf(),
            handle < old(self)@.states.len(),
        ensures
            final(self).wf(),
            final(self)@.capacity == old(self)@.capacity,
            final(self)@.names == old(self)@.names,
            final(self)@.states.len() == old(self)@.states.len(),
            delay_ms == old(self)@.states[handle as int].backoff.spec_current(),
            delay_ms <= old(self)@.states[handle as int].backoff.spec_max(),
            forall|j: int|
                0 <= j < old(self)@.states.len() && j != handle ==> final(self)@.states[j] == old(
                    self,
                )@.states[j],
            final(self)@.states[handle as int].status == old(self)@.states[handle as int].status,
            final(self)@.states[handle as int].found == old(self)@.states[handle as int].found,
            final(self)@.states[handle as int].poll_interval_ms == old(self)@.states[
                handle as int].poll_interval_ms,
            final(self)@.states[handle as int].backoff.spec_current() >= delay_ms,
    {
        proof {
            assert(old(self)@.states[handle as int] == self.states@[handle as int]@);
        }
        let state = &mut self.states[handle];
        let delay = state.backoff.wait();
        proof {
            assert(self@.states =~= old(self)@.states.update(
                handle as int,
                self.states@[handle as int]@,
            ));
        }
        delay
    }

    /// Reset a slot's backoff after a successful initialization.
    pub fn backoff_reset(&mut self, handle: usize)
        requires
            old(self).wf(),
            handle < old(self)@.states.len(),
        ensures
            final(self).wf(),
            final(self)@.capacity == old(self)@.capacity,
            final(self)@.names == old(self)@.names,
            final(self)@.states.len() == old(self)@.states.len(),
            forall|j: int|
                0 <= j < old(self)@.states.len() && j != handle ==> final(self)@.states[j] == old(
                    self,
                )@.states[j],
            final(self)@.states[handle as int].status == old(self)@.states[handle as int].status,
            final(self)@.states[handle as int].found == old(self)@.states[handle as int].found,
            final(self)@.states[handle as int].poll_interval_ms == old(self)@.states[
                handle as int].poll_interval_ms,
            final(self)@.states[handle as int].backoff.spec_exp() == 1,
            final(self)@.states[handle as int].backoff.spec_initial() == old(self)@.states[
                handle as int].backoff.spec_initial(),
            final(self)@.states[handle as int].backoff.spec_max() == old(self)@.states[
                handle as int].backoff.spec_max(),
    {
        proof {
            assert(old(self)@.states[handle as int] == self.states@[handle as int]@);
        }
        let state = &mut self.states[handle];
        state.backoff.reset();
        proof {
            assert(self@.states =~= old(self)@.states.update(
                handle as int,
                self.states@[handle as int]@,
            ));
        }
    }

    /// The delay the next backoff wait of a slot would use.
    pub fn backoff_current(&self, handle: usize) -> (d: u64)
        requires
            handle < self@.states.len(),
        ensures
            d == self@.states[handle as int].backoff.spec_current(),
    {
        self.states[handle].backoff.current()
    }
}


/// A point-in-time snapshot of one sensor's externally visible state.
#[derive(Copy, Clone, PartialEq, Eq, Structural, Debug)]
pub struct SensorState {
    pub status: SensorStatus,
    pub found: bool,
    pub poll_interval_ms: u64,
}

impl Registry {
    /// Snapshot a slot's externally visible state.
    pub fn snapshot(&self, handle: usize) -> (s: SensorState)
        requires
            handle < self@.states.len(),
        ensures
            s.status == self@.states[handle as int].status,
            s.found == self@.states[handle as int].found,
            s.poll_interval_ms == self@.states[handle as int].poll_interval_ms,
    {
        SensorState {
            status: self.status(handle),
            found: self.found(handle),
            poll_interval_ms: self.poll_interval_ms(handle),
        }
    }
}

} // verus!

//! Exponential retry backoff with a cap.

use vstd::prelude::*;

verus! {

/// Retry delay policy: the n-th wait sleeps `initial × n`, never more
/// than `max`. A fresh backoff waits zero first, so that a cold start
/// adds no latency when the first attempt succeeds; after `reset` the
/// next wait is `initial`.
#[derive(Debug)]
pub struct ExpBackoff {
    max_ms: u64,
    initial_ms: u64,
    exp: u64,
}

/// Default cap on the retry delay: one minute.
pub const DEFAULT_MAX_BACKOFF_MS: u64 = 60_000;

impl ExpBackoff {
    pub closed spec fn spec_initial(&self) -> u64 {
        self.initial_ms
    }

    pub closed spec fn spec_max(&self) -> u64 {
        self.max_ms
    }

    pub closed spec fn spec_exp(&self) -> u64 {
        self.exp
    }

    /// The delay the next `wait` will use: `initial × attempt`,
    /// saturated at `max`.
    pub open spec fn spec_current(&self) -> u64 {
        if self.spec_initial() * self.spec_exp() >= self.spec_max() {
            self.spec_max()
        } else {
            (self.spec_initial() * self.spec_exp()) as u64
        }
    }

    /// A new backoff starting from `initial`, capped at the default
    /// maximum of one minute.
    pub fn new(initial_ms: u64) -> (b: ExpBackoff)
        ensures
            b.spec_initial() == initial_ms,
            b.spec_max() == DEFAULT_MAX_BACKOFF_MS,
            b.spec_exp() == 0,
    {
        ExpBackoff { max_ms: DEFAULT_MAX_BACKOFF_MS, initial_ms, exp: 0 }
    }

    /// The same backoff with the cap replaced.
    pub fn with_max(self, max_ms: u64) -> (b: ExpBackoff)
        ensures
            b.spec_initial() == self.spec_initial(),
            b.spec_max() == max_ms,
            b.spec_exp() == self.spec_exp(),
    {
        ExpBackoff { max_ms, ..self }
    }

    /// Take the next delay: returns the current delay and advances the
    /// attempt counter, unless the delay has already reached the cap.
    /// The caller is expected to sleep for the returned duration.
    pub fn wait(&mut self) -> (delay_ms: u64)
        ensures
            delay_ms == old(self).spec_current(),
            delay_ms <= old(self).spec_max(),
            final(self).spec_initial() == old(self).spec_initial(),
            final(self).spec_max() == old(self).spec_max(),
            final(self).spec_exp() == if old(self).spec_initial() * old(self).spec_exp()
                < old(self).spec_max() && old(self).spec_exp() < u64::MAX {
                (old(self).spec_exp() + 1) as u64
            } else {
                old(self).spec_exp()
            },
            final(self).spec_current() >= delay_ms,
    {
        let current: u64 = self.current_ms();
        if current < self.max_ms && self.exp < u64::MAX {
            // the attempt counter advances only while the delay is
            // still below the cap
            self.exp = self.exp + 1;
        }
        proof {
            lemma_mul_monotone(self.initial_ms as nat, old(self).spec_exp() as nat, self.exp as nat);
        }
        current
    }

    /// Start over: the next `wait` sleeps for `initial` (saturated at
    /// the cap), not zero.
    pub fn reset(&mut self)
        ensures
            final(self).spec_initial() == old(self).spec_initial(),
            final(self).spec_max() == old(self).spec_max(),
            final(self).spec_exp() == 1,
            old(self).spec_initial() <= old(self).spec_max() ==> final(self).spec_current()
                == old(self).spec_initial(),
    {
        self.exp = 1;
    }

    /// The delay the next `wait` would use, without advancing.
    pub fn current_ms(&self) -> (d: u64)
        ensures
            d == self.spec_current(),
    {
        proof {
            assert((self.initial_ms as int) * (self.exp as int) < u128::MAX) by (nonlinear_arith)
                requires
                    self.initial_ms <= u64::MAX,
                    self.exp <= u64::MAX,
            ;
        }
        let wide: u128 = (self.initial_ms as u128) * (self.exp as u128);
        if wide >= self.max_ms as u128 {
            self.max_ms
        } else {
            wide as u64
        }
    }

    /// The delay the next `wait` would use, without advancing.
    /// Synonym of `current_ms` for callers that think in durations.
    pub fn current(&self) -> (d: u64)
        ensures
            d == self.spec_current(),
    {
        self.current_ms()
    }
}

impl Clone for ExpBackoff {
    /// A cloned backoff keeps the configured delays but starts its
    /// attempt counter over: the copy's first wait is zero.
    fn clone(&self) -> (r: ExpBackoff)
        ensures
            r.spec_initial() == self.spec_initial(),
            r.spec_max() == self.spec_max(),
            r.spec_exp() == 0,
            r.spec_current() == 0,
    {
        ExpBackoff { max_ms: self.max_ms, initial_ms: self.initial_ms, exp: 0 }
    }
}

impl Default for ExpBackoff {
    /// The default backoff starts at one second.
    fn default() -> (b: ExpBackoff)
        ensures
            b.spec_initial() == 1000,
            b.spec_max() == DEFAULT_MAX_BACKOFF_MS,
            b.spec_exp() == 0,
    {
        ExpBackoff::new(1000)
    }
}

/// `a * b <= a * c` when `b <= c`.
proof fn lemma_mul_monotone(a: nat, b: nat, c: nat)
    requires
        b <= c,
    ensures
        a * b <= a * c,
{
    assert(a * b <= a * c) by (nonlinear_arith)
        requires
            b <= c,
    ;
}

/// Successive delays of `wait`, with no `reset` in between, never
/// shrink and never exceed the configured maximum.
pub proof fn lemma_backoff_monotone_capped(b0: ExpBackoff, b1: ExpBackoff, d0: u64, d1: u64)
    requires
        // one `wait` stepped `b0` to `b1` returning `d0`:
        d0 == b0.spec_current(),
        b1.spec_initial() == b0.spec_initial(),
        b1.spec_max() == b0.spec_max(),
        b1.spec_exp() == if b0.spec_initial() * b0.spec_exp() < b0.spec_max()
            && b0.spec_exp() < u64::MAX {
            (b0.spec_exp() + 1) as u64
        } else {
            b0.spec_exp()
        },
        // and the next `wait` returns `d1`:
        d1 == b1.spec_current(),
    ensures
        d0 <= d1,
        d0 <= b0.spec_max(),
        d1 <= b0.spec_max(),
{
    lemma_mul_monotone(b0.spec_initial() as nat, b0.spec_exp() as nat, b1.spec_exp() as nat);
}

/// Immediately after `reset`, `current` reports the initial delay,
/// saturated at the cap: on every configuration whose initial delay
/// fits the cap, it is exactly the initial delay.
pub proof fn lemma_backoff_reset_current(before: ExpBackoff, after: ExpBackoff)
    requires
        // `reset` stepped `before` to `after`:
        after.spec_initial() == before.spec_initial(),
        after.spec_max() == before.spec_max(),
        after.spec_exp() == 1,
    ensures
        after.spec_current() == if before.spec_initial() <= before.spec_max() {
            before.spec_initial()
        } else {
            before.spec_max()
        },
        before.spec_initial() <= before.spec_max() ==> after.spec_current()
            == before.spec_initial(),
{
}

} // verus!

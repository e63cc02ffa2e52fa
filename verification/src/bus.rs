//! Mutual exclusion of the shared I2C bus.
//!
//! The daemon drives one I2C controller from several sensor tasks; each
//! transaction must own the bus alone. This module is the verified model
//! of that discipline: a bus with at most one holder, acquired and
//! released around every transaction. The asynchronous mutex that
//! enforces it at runtime lives in the binary; its contract is exactly
//! `acquire` / `release` below.

use vstd::prelude::*;

use crate::name::SensorName;

verus! {

/// The occupancy state of the shared bus.
#[derive(Debug)]
pub struct SharedBus {
    holder: Option<SensorName>,
}

impl SharedBus {
    /// Who holds the bus, if anyone.
    pub closed spec fn spec_holder(&self) -> Option<SensorName> {
        self.holder
    }

    /// How many transactions are active: one while the bus is held.
    pub open spec fn spec_active(&self) -> nat {
        if self.spec_holder() is Some {
            1
        } else {
            0
        }
    }

    /// A fresh bus is free.
    pub fn new() -> (b: SharedBus)
        ensures
            b.spec_holder() is None,
    {
        SharedBus { holder: None }
    }

    /// Try to take the bus for one transaction. Succeeds exactly when
    /// the bus is free; a held bus refuses, and the caller must wait.
    pub fn acquire(&mut self, who: SensorName) -> (ok: bool)
        ensures
            ok <==> old(self).spec_holder() is None,
            ok ==> final(self).spec_holder() == Some(who),
            !ok ==> final(self).spec_holder() == old(self).spec_holder(),
    {
        match self.holder {
            None => {
                self.holder = Some(who);
                true
            },
            Some(_) => false,
        }
    }

    /// Release the bus at the end of a transaction. Only the holder may
    /// release.
    pub fn release(&mut self, who: SensorName)
        requires
            old(self).spec_holder() == Some(who),
        ensures
            final(self).spec_holder() is None,
    {
        self.holder = None;
    }

    /// Who currently holds the bus.
    pub fn holder(&self) -> (h: Option<SensorName>)
        ensures
            h == self.spec_holder(),
    {
        self.holder
    }
}

/// At most one bus transaction is active at any instant: however the
/// bus was driven, its number of active holders never exceeds one, and
/// while a task holds the bus no other acquire succeeds.
pub proof fn lemma_bus_exclusion(b: &SharedBus)
    ensures
        b.spec_active() <= 1,
        b.spec_holder() matches Some(h) ==> b.spec_active() == 1,
{
}

} // verus!

//! The energy that abilities draw on.

use vstd::prelude::*;
use crate::fixed::{accrued, min_int, saturated, scale_rate};

verus! {

/// Energy of an actor, in thousandths of a point, refilled over time.
#[derive(Clone, Copy, Debug, PartialEq, Eq, Structural)]
pub struct Energy {
    pub current: u32,
    pub max: u32,
    /// Energy regained per second.
    pub recharge_rate: u32,
}

/// One change to an actor's energy.
#[derive(Clone, Copy, Debug, PartialEq, Eq, Structural)]
pub enum EnergyChange {
    /// An attempt to pay an amount.
    Consume(u32),
    /// Recharging over a number of nanoseconds.
    Recharge(u64),
}

impl Energy {
    /// The current energy lies between zero and the maximum.
    pub open spec fn wf(self) -> bool {
        0 <= self.current <= self.max
    }

    /// Whether `amount` can be paid from the current energy.
    pub open spec fn affords(self, amount: u32) -> bool {
        self.current >= amount
    }

    /// The energy after paying `amount`; unchanged where it cannot be paid.
    pub open spec fn spent(self, amount: u32) -> Energy {
        if self.affords(amount) {
            Energy { current: (self.current - amount) as u32, ..self }
        } else {
            self
        }
    }

    /// The energy after `delta_ns` nanoseconds of recharging: raised by
    /// what accrued at the recharge rate, but not above the maximum.
    pub open spec fn recharged(self, delta_ns: u64) -> Energy {
        Energy {
            current: min_int(
                self.current + saturated(accrued(self.recharge_rate as int, delta_ns as int)),
                self.max as int,
            ) as u32,
            ..self
        }
    }

    /// The energy after one change.
    pub open spec fn changed(self, change: EnergyChange) -> Energy {
        match change {
            EnergyChange::Consume(amount) => self.spent(amount),
            EnergyChange::Recharge(delta_ns) => self.recharged(delta_ns),
        }
    }

    /// The energy after a sequence of changes, applied in order.
    pub open spec fn changed_by_all(self, changes: Seq<EnergyChange>) -> Energy
        decreases changes.len(),
    {
        if changes.len() == 0 {
            self
        } else {
            self.changed_by_all(changes.drop_last()).changed(changes.last())
        }
    }

    /// The current energy as a share of the maximum in thousandths, not
    /// held to the whole; zero where the maximum is zero.
    pub open spec fn share(self) -> int {
        if self.max > 0 { (self.current * 1000) / (self.max as int) } else { 0 }
    }

    /// Full energy at the given maximum.
    pub fn new(max_energy: u32, recharge_rate: u32) -> (energy: Energy)
        ensures
            energy == (Energy { current: max_energy, max: max_energy, recharge_rate }),
            energy.wf(),
    {
        Energy { current: max_energy, max: max_energy, recharge_rate }
    }

    /// Pays `amount` if the current energy covers it. Returns whether it
    /// was paid; where it was not, nothing changes.
    pub fn consume(&mut self, amount: u32) -> (paid: bool)
        ensures
            paid == old(self).affords(amount),
            *final(self) == old(self).spent(amount),
            paid ==> final(self).current == old(self).current - amount,
            !paid ==> *final(self) == *old(self),
            final(self).current >= 0,
            old(self).wf() ==> final(self).wf(),
    {
        if self.current >= amount {
            self.current = self.current - amount;
            true
        } else {
            false
        }
    }

    /// Regains what accrues over `delta_ns` nanoseconds, up to the maximum.
    pub fn recharge(&mut self, delta_ns: u64)
        ensures
            *final(self) == old(self).recharged(delta_ns),
            final(self).wf(),
    {
        let gain: u32 = scale_rate(self.recharge_rate, delta_ns);
        let raised: u64 = self.current as u64 + gain as u64;
        self.current = if raised > self.max as u64 { self.max } else { raised as u32 };
    }

    /// Whether `amount` could be paid now.
    pub fn can_consume(&self, amount: u32) -> (enough: bool)
        ensures
            enough == self.affords(amount),
    {
        self.current >= amount
    }

    /// Whether the energy has reached its maximum.
    pub fn is_full(&self) -> (full: bool)
        ensures
            full == (self.current >= self.max),
    {
        self.current >= self.max
    }

    /// The share of the maximum that is left, in thousandths and not held
    /// to the whole; zero where the maximum is zero.
    pub fn percentage(&self) -> (ratio: u64)
        ensures
            ratio == self.share(),
    {
        if self.max > 0 {
            (self.current as u64 * 1000) / (self.max as u64)
        } else {
            0
        }
    }
}

/// Energy bound: whatever is paid from a well-formed energy and however
/// long it recharges, in whatever order, its current value stays between
/// zero and its maximum, and a payment that it cannot cover changes
/// nothing.
pub proof fn lemma_energy_stays_bounded(energy: Energy, changes: Seq<EnergyChange>)
    requires
        energy.wf(),
    ensures
        energy.changed_by_all(changes).wf(),
        energy.changed_by_all(changes).max == energy.max,
        energy.changed_by_all(changes).recharge_rate == energy.recharge_rate,
        forall|amount: u32|
            amount > energy.current ==> #[trigger] energy.spent(amount) == energy,
    decreases changes.len(),
{
    if changes.len() > 0 {
        lemma_energy_stays_bounded(energy, changes.drop_last());
    }
}

} // verus!

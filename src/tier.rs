//! Devices, their ordered tiers, and the tier decision engine.

use vstd::prelude::*;
use crate::price::{band_of, classify, Band, Thresholds};

verus! {

/// A named operating mode, ordered from least to most performant.
#[derive(Clone, Copy, Debug, PartialEq, Eq, Structural)]
pub enum Tier {
    Slow,
    Normal,
    Turbo,
}

/// A device and the frequency bound to each tier it supports. A device
/// without `turbo` has two tiers.
#[derive(Debug)]
pub struct Device {
    pub host: String,
    pub slow: i32,
    pub normal: i32,
    pub turbo: Option<i32>,
}

/// What to do with a device this cycle.
#[derive(Clone, Copy, Debug, PartialEq, Eq, Structural)]
pub enum Decision {
    NoChange,
    MoveTo(Tier),
}

/// The frequency a device binds to `tier`, if it supports that tier.
pub open spec fn tier_frequency(d: Device, tier: Tier) -> Option<i32> {
    match tier {
        Tier::Slow => Some(d.slow),
        Tier::Normal => Some(d.normal),
        Tier::Turbo => d.turbo,
    }
}

/// The tier a band calls for: expensive means slow, normal means normal, and
/// cheap means the highest tier the device has.
pub open spec fn target_tier(band: Band, d: Device) -> Tier {
    match band {
        Band::Expensive => Tier::Slow,
        Band::Normal => Tier::Normal,
        Band::Cheap => if d.turbo is Some {
            Tier::Turbo
        } else {
            Tier::Normal
        },
    }
}

/// Jump straight to the tier the price band calls for, unless the device
/// already runs at that tier's frequency.
pub open spec fn decision_of(price: int, running: i32, t: Thresholds, d: Device) -> Decision {
    let target = target_tier(band_of(price, t), d);
    if tier_frequency(d, target) == Some(running) {
        Decision::NoChange
    } else {
        Decision::MoveTo(target)
    }
}

impl Device {
    /// Tiers run at strictly ascending frequencies.
    pub open spec fn wf(&self) -> bool {
        &&& self.slow < self.normal
        &&& self.turbo matches Some(f) ==> self.normal < f
    }

    /// Builds a device, refusing tier frequencies that are not strictly ascending.
    pub fn new(host: String, slow: i32, normal: i32, turbo: Option<i32>) -> (r: Option<Device>)
        ensures
            r is Some <==> (slow < normal && (turbo matches Some(f) ==> normal < f)),
            r matches Some(d) ==> d.host@ == host@ && d.slow == slow && d.normal == normal
                && d.turbo == turbo && d.wf(),
    {
        let d = Device { host, slow, normal, turbo };
        if d.is_ordered() {
            Some(d)
        } else {
            None
        }
    }

    /// Whether the tier frequencies are strictly ascending.
    pub fn is_ordered(&self) -> (r: bool)
        ensures
            r == self.wf(),
    {
        match self.turbo {
            Some(f) => self.slow < self.normal && self.normal < f,
            None => self.slow < self.normal,
        }
    }

    /// The frequency this device binds to `tier`, if it supports that tier.
    pub fn frequency(&self, tier: Tier) -> (r: Option<i32>)
        ensures
            r == tier_frequency(*self, tier),
    {
        match tier {
            Tier::Slow => Some(self.slow),
            Tier::Normal => Some(self.normal),
            Tier::Turbo => self.turbo,
        }
    }
}

/// The tier decision engine: maps the current price and the device's live
/// frequency to a decision. A frequency that matches no configured tier is
/// never taken for the target, so it always leads to a move.
pub fn decide(price: i64, running: i32, t: &Thresholds, d: &Device) -> (r: Decision)
    requires
        t.wf(),
    ensures
        r == decision_of(price as int, running, *t, *d),
        price > t.expensive ==> (r == Decision::NoChange <==> running == d.slow),
        price > t.expensive && running != d.slow ==> r == Decision::MoveTo(Tier::Slow),
        t.cheap <= price <= t.expensive ==> (r == Decision::NoChange <==> running == d.normal),
        t.cheap <= price <= t.expensive && running != d.normal ==> r == Decision::MoveTo(
            Tier::Normal,
        ),
        price < t.cheap && d.turbo is Some ==> (r == Decision::NoChange <==> d.turbo == Some(
            running,
        )),
        price < t.cheap && d.turbo is Some && d.turbo != Some(running) ==> r == Decision::MoveTo(
            Tier::Turbo,
        ),
        price < t.cheap && d.turbo is None ==> (r == Decision::NoChange <==> running == d.normal),
        price < t.cheap && d.turbo is None && running != d.normal ==> r == Decision::MoveTo(
            Tier::Normal,
        ),
{
    let target = match classify(price, t) {
        Band::Expensive => Tier::Slow,
        Band::Normal => Tier::Normal,
        Band::Cheap => if d.turbo.is_some() {
            Tier::Turbo
        } else {
            Tier::Normal
        },
    };
    match d.frequency(target) {
        Some(f) if f == running => Decision::NoChange,
        _ => Decision::MoveTo(target),
    }
}

/// Once a device runs at the frequency of the tier it was moved to, deciding
/// again on the same price and thresholds leaves it where it is.
pub proof fn lemma_decision_settles(price: int, running: i32, t: Thresholds, d: Device, tier: Tier)
    requires
        t.wf(),
        decision_of(price, running, t, d) == Decision::MoveTo(tier),
    ensures
        tier_frequency(d, tier) is Some,
        decision_of(price, tier_frequency(d, tier)->Some_0, t, d) == Decision::NoChange,
{
}

/// The decision depends on its inputs alone: equal inputs give equal decisions.
pub proof fn lemma_decision_deterministic(
    price1: int,
    running1: i32,
    t1: Thresholds,
    d1: Device,
    price2: int,
    running2: i32,
    t2: Thresholds,
    d2: Device,
)
    requires
        price1 == price2,
        running1 == running2,
        t1 == t2,
        d1.slow == d2.slow,
        d1.normal == d2.normal,
        d1.turbo == d2.turbo,
    ensures
        decision_of(price1, running1, t1, d1) == decision_of(price2, running2, t2, d2),
{
}

} // verus!

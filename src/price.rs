//! Price thresholds and the banding of a price against them.

use vstd::prelude::*;

verus! {

/// The two configured price limits. A price under `cheap` is cheap, a price
/// over `expensive` is expensive, anything between (bounds included) is normal.
#[derive(Clone, Copy, Debug, PartialEq, Eq, Structural)]
pub struct Thresholds {
    pub cheap: i64,
    pub expensive: i64,
}

impl Thresholds {
    /// The thresholds describe three non-empty bands.
    pub open spec fn wf(&self) -> bool {
        self.cheap < self.expensive
    }

    /// Builds thresholds, refusing a pair whose `cheap` is not below `expensive`.
    pub fn new(cheap: i64, expensive: i64) -> (r: Option<Thresholds>)
        ensures
            r is Some <==> cheap < expensive,
            r matches Some(t) ==> t.cheap == cheap && t.expensive == expensive && t.wf(),
    {
        if cheap < expensive {
            Some(Thresholds { cheap, expensive })
        } else {
            None
        }
    }
}

/// The classification of a price against the thresholds.
#[derive(Clone, Copy, Debug, PartialEq, Eq, Structural)]
pub enum Band {
    Cheap,
    Normal,
    Expensive,
}

/// Strict comparisons: a price equal to either threshold is normal.
pub open spec fn band_of(price: int, t: Thresholds) -> Band {
    if price < t.cheap {
        Band::Cheap
    } else if price > t.expensive {
        Band::Expensive
    } else {
        Band::Normal
    }
}

/// Classifies `price` into its band.
pub fn classify(price: i64, t: &Thresholds) -> (r: Band)
    requires
        t.wf(),
    ensures
        r == band_of(price as int, *t),
        r == Band::Cheap <==> price < t.cheap,
        r == Band::Expensive <==> price > t.expensive,
        r == Band::Normal <==> t.cheap <= price <= t.expensive,
        price == t.cheap || price == t.expensive ==> r == Band::Normal,
{
    if price < t.cheap {
        Band::Cheap
    } else if price > t.expensive {
        Band::Expensive
    } else {
        Band::Normal
    }
}

} // verus!

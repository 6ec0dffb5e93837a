//! The configuration the control loop runs with, validated once at startup.

use vstd::prelude::*;
use crate::price::Thresholds;
use crate::tier::Device;

verus! {

/// Milliseconds in a minute.
pub const MILLIS_PER_MINUTE: u64 = 60_000;

/// Why a configuration cannot be run with. Each is fatal at startup.
#[derive(Clone, Copy, Debug, PartialEq, Eq, Structural)]
pub enum ConfigError {
    /// The check interval is not a positive number of minutes.
    InvalidInterval,
    /// `cheap` is not below `expensive`.
    InvalidThresholds,
    /// The device at `index` has tier frequencies that are not strictly ascending.
    UnorderedTiers { index: usize },
}

/// Everything a cycle needs, read-only for the life of the process.
#[derive(Debug)]
pub struct Config {
    /// Minutes between two cycles.
    pub check_interval: i32,
    pub thresholds: Thresholds,
    /// Selects the price series of the schedule.
    pub price_zone: String,
    /// Processed in this order, one at a time.
    pub devices: Vec<Device>,
}

/// Every device of `devices` has ascending tier frequencies.
pub open spec fn all_ordered(devices: Seq<Device>) -> bool {
    forall|i: int| 0 <= i < devices.len() ==> (#[trigger] devices[i]).wf()
}

/// `index` is the first device of `devices` whose tiers are out of order.
pub open spec fn is_first_unordered(devices: Seq<Device>, index: int) -> bool {
    &&& 0 <= index < devices.len()
    &&& !devices[index].wf()
    &&& forall|j: int| 0 <= j < index ==> (#[trigger] devices[j]).wf()
}

impl Config {
    pub open spec fn wf(&self) -> bool {
        &&& self.check_interval >= 1
        &&& self.thresholds.wf()
        &&& all_ordered(self.devices@)
    }

    /// Validates a configuration: the interval first, then the thresholds,
    /// then each device in order.
    pub fn new(
        check_interval: i32,
        cheap: i64,
        expensive: i64,
        price_zone: String,
        devices: Vec<Device>,
    ) -> (r: Result<Config, ConfigError>)
        ensures
            check_interval < 1 ==> r == Err::<Config, ConfigError>(ConfigError::InvalidInterval),
            check_interval >= 1 && cheap >= expensive ==> r == Err::<Config, ConfigError>(
                ConfigError::InvalidThresholds,
            ),
            check_interval >= 1 && cheap < expensive && !all_ordered(devices@) ==> (r matches Err(
                ConfigError::UnorderedTiers { index },
            ) && is_first_unordered(devices@, index as int)),
            r is Ok <==> (check_interval >= 1 && cheap < expensive && all_ordered(devices@)),
            r matches Ok(c) ==> c.wf() && c.check_interval == check_interval && c.thresholds.cheap
                == cheap && c.thresholds.expensive == expensive && c.price_zone@ == price_zone@
                && c.devices@ == devices@,
    {
        if check_interval < 1 {
            return Err(ConfigError::InvalidInterval);
        }
        let thresholds = match Thresholds::new(cheap, expensive) {
            Some(t) => t,
            None => return Err(ConfigError::InvalidThresholds),
        };
        let mut i: usize = 0;
        while i < devices.len()
            invariant
                i <= devices@.len(),
                check_interval >= 1,
                cheap < expensive,
                thresholds.cheap == cheap && thresholds.expensive == expensive,
                forall|j: int| 0 <= j < i ==> (#[trigger] devices@[j]).wf(),
            decreases devices@.len() - i,
        {
            if !devices[i].is_ordered() {
                return Err(ConfigError::UnorderedTiers { index: i });
            }
            i = i + 1;
        }
        Ok(Config { check_interval, thresholds, price_zone, devices })
    }

    /// How long the loop sleeps between two cycles, in milliseconds.
    pub fn sleep_millis(&self) -> (r: u64)
        requires
            self.wf(),
        ensures
            r == self.check_interval * MILLIS_PER_MINUTE,
    {
        (self.check_interval as u64) * MILLIS_PER_MINUTE
    }
}

} // verus!

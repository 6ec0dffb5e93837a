//! The control loop: one price fetch per cycle, then each device in its
//! configured order, then a sleep. The caller performs each action and hands
//! back what came of it.

use vstd::prelude::*;
use crate::config::Config;
use crate::sync::Outcome;

verus! {

/// Where the loop stands.
#[derive(Clone, Copy, Debug, PartialEq, Eq, Structural)]
pub enum LoopState {
    /// Between cycles.
    Idle,
    /// A cycle has begun; its price is being fetched.
    FetchingPrice,
    /// The device at `next` is being processed at `price`.
    Cycling { price: i64, next: usize },
}

/// What came of the last action.
#[derive(Clone, Copy, Debug, PartialEq, Eq, Structural)]
pub enum LoopEvent {
    /// The sleep between cycles is over.
    Woke,
    /// The price for this cycle.
    PriceFetched(i64),
    /// No price could be had this cycle.
    PriceUnavailable,
    /// The current device's turn ended this way.
    DeviceDone(Outcome),
}

/// What the caller is to do next.
#[derive(Clone, Copy, Debug, PartialEq, Eq, Structural)]
pub enum LoopAction {
    FetchPrice,
    /// Run the device at `index` through its turn at `price`.
    ProcessDevice { index: usize, price: i64 },
    Sleep { millis: u64 },
}

pub open spec fn loop_action_of(state: LoopState, sleep_millis: u64) -> LoopAction {
    match state {
        LoopState::Idle => LoopAction::Sleep { millis: sleep_millis },
        LoopState::FetchingPrice => LoopAction::FetchPrice,
        LoopState::Cycling { price, next } => LoopAction::ProcessDevice { index: next, price },
    }
}

/// The state after `event`, with `n` devices configured. An event that does
/// not answer the current action leaves the state as it is.
pub open spec fn next_loop_state(state: LoopState, event: LoopEvent, n: nat) -> LoopState {
    match (state, event) {
        (LoopState::Idle, LoopEvent::Woke) => LoopState::FetchingPrice,
        (LoopState::FetchingPrice, LoopEvent::PriceFetched(price)) => if n > 0 {
            LoopState::Cycling { price, next: 0 }
        } else {
            LoopState::Idle
        },
        (LoopState::FetchingPrice, LoopEvent::PriceUnavailable) => LoopState::Idle,
        (LoopState::Cycling { price, next }, LoopEvent::DeviceDone(_)) => if next + 1 < n {
            LoopState::Cycling { price, next: (next + 1) as usize }
        } else {
            LoopState::Idle
        },
        _ => state,
    }
}

/// The loop over a fixed list of devices.
#[derive(Clone, Copy, Debug)]
pub struct ControlLoop {
    pub n_devices: usize,
    pub sleep_millis: u64,
    pub state: LoopState,
}

impl ControlLoop {
    /// A device being processed is one of the configured devices.
    pub open spec fn wf(&self) -> bool {
        self.state matches LoopState::Cycling { next, .. } ==> next < self.n_devices
    }

    /// The loop for `config`, starting with a cycle at once.
    pub fn new(config: &Config) -> (r: ControlLoop)
        requires
            config.wf(),
        ensures
            r.n_devices == config.devices@.len(),
            r.sleep_millis == config.check_interval * crate::config::MILLIS_PER_MINUTE,
            r.state == LoopState::FetchingPrice,
            r.wf(),
    {
        ControlLoop {
            n_devices: config.devices.len(),
            sleep_millis: config.sleep_millis(),
            state: LoopState::FetchingPrice,
        }
    }

    /// The action the loop asks for now.
    pub fn action(&self) -> (r: LoopAction)
        ensures
            r == loop_action_of(self.state, self.sleep_millis),
    {
        match self.state {
            LoopState::Idle => LoopAction::Sleep { millis: self.sleep_millis },
            LoopState::FetchingPrice => LoopAction::FetchPrice,
            LoopState::Cycling { price, next } => LoopAction::ProcessDevice { index: next, price },
        }
    }

    /// Takes in what came of the last action and returns the next one.
    pub fn step(&mut self, event: LoopEvent) -> (r: LoopAction)
        requires
            old(self).wf(),
        ensures
            final(self).n_devices == old(self).n_devices,
            final(self).sleep_millis == old(self).sleep_millis,
            final(self).state == next_loop_state(old(self).state, event, old(self).n_devices as nat),
            final(self).wf(),
            r == loop_action_of(final(self).state, final(self).sleep_millis),
            r matches LoopAction::ProcessDevice { index, .. } ==> index < final(self).n_devices,
    {
        let next = match (self.state, event) {
            (LoopState::Idle, LoopEvent::Woke) => LoopState::FetchingPrice,
            (LoopState::FetchingPrice, LoopEvent::PriceFetched(price)) => {
                if self.n_devices > 0 {
                    LoopState::Cycling { price, next: 0 }
                } else {
                    LoopState::Idle
                }
            },
            (LoopState::FetchingPrice, LoopEvent::PriceUnavailable) => LoopState::Idle,
            (LoopState::Cycling { price, next }, LoopEvent::DeviceDone(_)) => {
                if next + 1 < self.n_devices {
                    LoopState::Cycling { price, next: next + 1 }
                } else {
                    LoopState::Idle
                }
            },
            (state, _) => state,
        };
        self.state = next;
        self.action()
    }
}

/// Without a price the cycle makes no transition: the loop goes back to
/// sleep without processing any device.
pub proof fn lemma_unavailable_price_skips_cycle(n: nat, sleep_millis: u64)
    ensures
        next_loop_state(LoopState::FetchingPrice, LoopEvent::PriceUnavailable, n) == LoopState::Idle,
        loop_action_of(
            next_loop_state(LoopState::FetchingPrice, LoopEvent::PriceUnavailable, n),
            sleep_millis,
        ) == (LoopAction::Sleep { millis: sleep_millis }),
{
}

/// How one device's turn ended has no bearing on the devices after it: the
/// loop moves on to the next device in the configured order, at the same price.
pub proof fn lemma_device_outcome_is_isolated(price: i64, next: usize, n: nat, o1: Outcome, o2: Outcome)
    requires
        next + 1 < n,
    ensures
        next_loop_state(LoopState::Cycling { price, next }, LoopEvent::DeviceDone(o1), n)
            == next_loop_state(LoopState::Cycling { price, next }, LoopEvent::DeviceDone(o2), n),
        next_loop_state(LoopState::Cycling { price, next }, LoopEvent::DeviceDone(o1), n)
            == (LoopState::Cycling { price, next: (next + 1) as usize }),
{
}

/// The state reached from `state` after the events of `events`, in order.
pub open spec fn run_loop(state: LoopState, events: Seq<LoopEvent>, n: nat) -> LoopState
    decreases events.len(),
{
    if events.len() == 0 {
        state
    } else {
        run_loop(next_loop_state(state, events[0], n), events.drop_first(), n)
    }
}

/// Once a cycle has its price, the devices are processed one at a time, in
/// their configured order, each once, whatever their turns' outcomes; after
/// the last one the loop goes back to sleep.
pub proof fn lemma_cycle_visits_devices_in_order(
    price: i64,
    first: usize,
    n: nat,
    events: Seq<LoopEvent>,
)
    requires
        first < n,
        n <= usize::MAX,
        first + events.len() <= n,
        forall|i: int| 0 <= i < events.len() ==> #[trigger] events[i] is DeviceDone,
    ensures
        first + events.len() < n ==> run_loop(LoopState::Cycling { price, next: first }, events, n)
            == (LoopState::Cycling { price, next: (first + events.len()) as usize }),
        first + events.len() == n ==> run_loop(
            LoopState::Cycling { price, next: first },
            events,
            n,
        ) == LoopState::Idle,
    decreases events.len(),
{
    if events.len() > 0 {
        let rest = events.drop_first();
        assert(events[0] is DeviceDone);
        assert forall|i: int| 0 <= i < rest.len() implies #[trigger] rest[i] is DeviceDone by {
            assert(rest[i] == events[i + 1]);
        }
        if first + 1 < n {
            lemma_cycle_visits_devices_in_order(price, (first + 1) as usize, n, rest);
        } else {
            assert(rest.len() == 0);
            assert(run_loop(LoopState::Idle, rest, n) == LoopState::Idle);
        }
    }
}

} // verus!

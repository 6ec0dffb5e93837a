//! The per-device synchronization protocol: probe the live frequency,
//! decide, then configure and restart. The protocol is a state machine: the
//! caller performs each action and hands back what came of it.

use vstd::prelude::*;
use crate::price::Thresholds;
use crate::tier::{decide, decision_of, tier_frequency, Decision, Device};

verus! {

/// The HTTP status a device answers an accepted configuration with.
pub const STATUS_OK: u16 = 200;

/// How one device's turn in a cycle ended.
#[derive(Clone, Copy, Debug, PartialEq, Eq, Structural)]
pub enum Outcome {
    /// The device could not be probed; it was left alone this cycle.
    ProbeFailed,
    /// The device already ran at the frequency the price calls for.
    Unchanged,
    /// The device answered the configuration with a status other than OK.
    ConfigureRejected { status: u16 },
    /// The configuration request did not reach the device.
    ConfigureFailed,
    /// The device was configured for `frequency`, but the restart failed.
    RestartFailed { frequency: i32 },
    /// The device was configured for `frequency` and restarted.
    Switched { frequency: i32 },
}

/// Where a device's turn stands.
#[derive(Clone, Copy, Debug, PartialEq, Eq, Structural)]
pub enum Phase {
    Probing,
    Configuring { frequency: i32 },
    Restarting { frequency: i32 },
    Finished(Outcome),
}

/// What came of the last action.
#[derive(Clone, Copy, Debug, PartialEq, Eq, Structural)]
pub enum Event {
    /// The device reported it runs at this frequency.
    Probed(i32),
    /// The status read failed or its answer was malformed.
    ProbeError,
    /// The device answered the configuration with this HTTP status.
    ConfigureAnswered(u16),
    /// The configuration request failed before any answer.
    ConfigureError,
    /// The restart command was delivered.
    Restarted,
    /// The restart command failed.
    RestartError,
}

/// What the caller is to do next.
#[derive(Clone, Copy, Debug, PartialEq, Eq, Structural)]
pub enum Action {
    /// Read the device's live frequency.
    Probe,
    /// Send the device a configuration carrying `frequency`.
    Configure { frequency: i32 },
    /// Send the device a restart command.
    Restart,
    /// The device's turn is over.
    Finish(Outcome),
}

/// The action that each phase asks for.
pub open spec fn action_of(phase: Phase) -> Action {
    match phase {
        Phase::Probing => Action::Probe,
        Phase::Configuring { frequency } => Action::Configure { frequency },
        Phase::Restarting { .. } => Action::Restart,
        Phase::Finished(o) => Action::Finish(o),
    }
}

/// An action that changes the device.
pub open spec fn is_write(a: Action) -> bool {
    a is Configure || a is Restart
}

/// The phase after `event`. An event that does not answer the current
/// phase's action leaves the phase as it is.
pub open spec fn next_phase(phase: Phase, event: Event, price: int, t: Thresholds, d: Device) -> Phase {
    match (phase, event) {
        (Phase::Probing, Event::Probed(running)) => match decision_of(price, running, t, d) {
            Decision::NoChange => Phase::Finished(Outcome::Unchanged),
            Decision::MoveTo(tier) => match tier_frequency(d, tier) {
                Some(frequency) => Phase::Configuring { frequency },
                None => Phase::Finished(Outcome::Unchanged),
            },
        },
        (Phase::Probing, Event::ProbeError) => Phase::Finished(Outcome::ProbeFailed),
        (Phase::Configuring { frequency }, Event::ConfigureAnswered(status)) => if status
            == STATUS_OK {
            Phase::Restarting { frequency }
        } else {
            Phase::Finished(Outcome::ConfigureRejected { status })
        },
        (Phase::Configuring { .. }, Event::ConfigureError) => Phase::Finished(
            Outcome::ConfigureFailed,
        ),
        (Phase::Restarting { frequency }, Event::Restarted) => Phase::Finished(
            Outcome::Switched { frequency },
        ),
        (Phase::Restarting { frequency }, Event::RestartError) => Phase::Finished(
            Outcome::RestartFailed { frequency },
        ),
        _ => phase,
    }
}

impl Phase {
    /// The action this phase asks for.
    pub fn action(&self) -> (r: Action)
        ensures
            r == action_of(*self),
    {
        match *self {
            Phase::Probing => Action::Probe,
            Phase::Configuring { frequency } => Action::Configure { frequency },
            Phase::Restarting { .. } => Action::Restart,
            Phase::Finished(o) => Action::Finish(o),
        }
    }
}

/// One device's turn in a cycle, at the price fetched for that cycle.
#[derive(Clone, Copy, Debug)]
pub struct Session {
    pub price: i64,
    pub thresholds: Thresholds,
    pub phase: Phase,
}

impl Session {
    pub open spec fn wf(&self) -> bool {
        self.thresholds.wf()
    }

    /// A fresh turn: nothing is known of the device, so it is probed first.
    pub fn new(price: i64, thresholds: Thresholds) -> (r: Session)
        requires
            thresholds.wf(),
        ensures
            r.price == price,
            r.thresholds == thresholds,
            r.phase == Phase::Probing,
            r.wf(),
    {
        Session { price, thresholds, phase: Phase::Probing }
    }

    /// The action the turn asks for now.
    pub fn action(&self) -> (r: Action)
        ensures
            r == action_of(self.phase),
    {
        self.phase.action()
    }

    /// Takes in what came of the last action and returns the next one.
    pub fn step(&mut self, d: &Device, event: Event) -> (r: Action)
        requires
            old(self).wf(),
        ensures
            final(self).price == old(self).price,
            final(self).thresholds == old(self).thresholds,
            final(self).phase == next_phase(
                old(self).phase,
                event,
                old(self).price as int,
                old(self).thresholds,
                *d,
            ),
            r == action_of(final(self).phase),
    {
        let next = match (self.phase, event) {
            (Phase::Probing, Event::Probed(running)) => match decide(
                self.price,
                running,
                &self.thresholds,
                d,
            ) {
                Decision::NoChange => Phase::Finished(Outcome::Unchanged),
                Decision::MoveTo(tier) => match d.frequency(tier) {
                    Some(frequency) => Phase::Configuring { frequency },
                    None => Phase::Finished(Outcome::Unchanged),
                },
            },
            (Phase::Probing, Event::ProbeError) => Phase::Finished(Outcome::ProbeFailed),
            (Phase::Configuring { frequency }, Event::ConfigureAnswered(status)) => {
                if status == STATUS_OK {
                    Phase::Restarting { frequency }
                } else {
                    Phase::Finished(Outcome::ConfigureRejected { status })
                }
            },
            (Phase::Configuring { .. }, Event::ConfigureError) => Phase::Finished(
                Outcome::ConfigureFailed,
            ),
            (Phase::Restarting { frequency }, Event::Restarted) => Phase::Finished(
                Outcome::Switched { frequency },
            ),
            (Phase::Restarting { frequency }, Event::RestartError) => Phase::Finished(
                Outcome::RestartFailed { frequency },
            ),
            (phase, _) => phase,
        };
        self.phase = next;
        next.action()
    }
}

/// The phase reached from `phase` after the events of `events`, in order.
pub open spec fn run(phase: Phase, events: Seq<Event>, price: int, t: Thresholds, d: Device) -> Phase
    decreases events.len(),
{
    if events.len() == 0 {
        phase
    } else {
        run(next_phase(phase, events[0], price, t, d), events.drop_first(), price, t, d)
    }
}

/// A device whose live frequency already matches the price's tier is left
/// alone: its turn ends at once, with no configuration and no restart.
pub proof fn lemma_no_change_sends_no_write(price: int, running: i32, t: Thresholds, d: Device)
    requires
        t.wf(),
        decision_of(price, running, t, d) == Decision::NoChange,
    ensures
        next_phase(Phase::Probing, Event::Probed(running), price, t, d) == Phase::Finished(
            Outcome::Unchanged,
        ),
        !is_write(action_of(next_phase(Phase::Probing, Event::Probed(running), price, t, d))),
{
}

/// A move is carried out by configuring the target tier's frequency.
pub proof fn lemma_move_configures_target(
    price: int,
    running: i32,
    t: Thresholds,
    d: Device,
    tier: crate::tier::Tier,
)
    requires
        t.wf(),
        decision_of(price, running, t, d) == Decision::MoveTo(tier),
    ensures
        tier_frequency(d, tier) is Some,
        action_of(next_phase(Phase::Probing, Event::Probed(running), price, t, d))
            == (Action::Configure { frequency: tier_frequency(d, tier)->Some_0 }),
{
}

/// A failed probe ends the device's turn with no write to it.
pub proof fn lemma_probe_failure_sends_no_write(price: int, t: Thresholds, d: Device)
    ensures
        next_phase(Phase::Probing, Event::ProbeError, price, t, d) == Phase::Finished(
            Outcome::ProbeFailed,
        ),
        !is_write(action_of(next_phase(Phase::Probing, Event::ProbeError, price, t, d))),
{
}

/// A configuration answered with a status other than OK ends the turn
/// without a restart.
pub proof fn lemma_rejected_configuration_skips_restart(
    frequency: i32,
    status: u16,
    price: int,
    t: Thresholds,
    d: Device,
)
    requires
        status != STATUS_OK,
    ensures
        next_phase(Phase::Configuring { frequency }, Event::ConfigureAnswered(status), price, t, d)
            == Phase::Finished(Outcome::ConfigureRejected { status }),
        action_of(
            next_phase(Phase::Configuring { frequency }, Event::ConfigureAnswered(status), price, t, d),
        ) != Action::Restart,
{
}

/// A restart is only ever asked for right after the device accepted a
/// configuration, and it goes with that configuration's frequency.
pub proof fn lemma_restart_follows_accepted_configuration(
    phase: Phase,
    event: Event,
    price: int,
    t: Thresholds,
    d: Device,
)
    requires
        !(phase is Restarting),
        next_phase(phase, event, price, t, d) is Restarting,
    ensures
        phase is Configuring,
        event == Event::ConfigureAnswered(STATUS_OK),
        next_phase(phase, event, price, t, d)->Restarting_frequency == phase->Configuring_frequency,
{
}

/// Once a device's turn is over, nothing that follows writes to it.
pub proof fn lemma_finished_is_final(o: Outcome, events: Seq<Event>, price: int, t: Thresholds, d: Device)
    ensures
        run(Phase::Finished(o), events, price, t, d) == Phase::Finished(o),
    decreases events.len(),
{
    if events.len() > 0 {
        lemma_finished_is_final(o, events.drop_first(), price, t, d);
    }
}

} // verus!

use bitaxe_clocker::price::Thresholds;
use bitaxe_clocker::sync::{Action, Event, Outcome, Phase, Session};
use bitaxe_clocker::tier::Device;

#[derive(Debug, PartialEq)]
enum Call {
    Probe(String),
    Configure(String, i32),
    Restart(String),
}

/// A scripted device: what it answers to each kind of request.
struct Script {
    probe: Event,
    configure: Event,
    restart: Event,
}

fn thresholds() -> Thresholds {
    Thresholds::new(100_000, 500_000).unwrap()
}

fn device(host: &str) -> Device {
    Device::new(host.to_string(), 400, 490, Some(575)).unwrap()
}

/// Runs one cycle over `devices` at `price`, recording every call made.
fn run_cycle(price: i64, devices: &[(Device, Script)], calls: &mut Vec<Call>) -> Vec<Outcome> {
    let mut outcomes = Vec::new();
    for (d, script) in devices {
        let mut session = Session::new(price, thresholds());
        let mut action = session.action();
        loop {
            let event = match action {
                Action::Probe => {
                    calls.push(Call::Probe(d.host.clone()));
                    script.probe
                }
                Action::Configure { frequency } => {
                    calls.push(Call::Configure(d.host.clone(), frequency));
                    script.configure
                }
                Action::Restart => {
                    calls.push(Call::Restart(d.host.clone()));
                    script.restart
                }
                Action::Finish(o) => {
                    outcomes.push(o);
                    break;
                }
            };
            action = session.step(d, event);
        }
    }
    outcomes
}

fn writes(calls: &[Call]) -> usize {
    calls.iter().filter(|c| !matches!(c, Call::Probe(_))).count()
}

#[test]
fn expensive_price_configures_slow_then_restarts_same_host() {
    let mut calls = Vec::new();
    let devices = [(
        device("10.0.0.2"),
        Script {
            probe: Event::Probed(490),
            configure: Event::ConfigureAnswered(200),
            restart: Event::Restarted,
        },
    )];
    let outcomes = run_cycle(750_000, &devices, &mut calls);
    assert_eq!(
        calls,
        vec![
            Call::Probe("10.0.0.2".to_string()),
            Call::Configure("10.0.0.2".to_string(), 400),
            Call::Restart("10.0.0.2".to_string()),
        ]
    );
    assert_eq!(outcomes, vec![Outcome::Switched { frequency: 400 }]);
}

#[test]
fn device_already_slow_gets_no_write() {
    let mut calls = Vec::new();
    let devices = [(
        device("10.0.0.2"),
        Script {
            probe: Event::Probed(400),
            configure: Event::ConfigureAnswered(200),
            restart: Event::Restarted,
        },
    )];
    let outcomes = run_cycle(750_000, &devices, &mut calls);
    assert_eq!(writes(&calls), 0);
    assert_eq!(outcomes, vec![Outcome::Unchanged]);
}

#[test]
fn probe_failure_skips_device_and_next_is_processed() {
    let mut calls = Vec::new();
    let devices = [
        (
            device("10.0.0.2"),
            Script {
                probe: Event::ProbeError,
                configure: Event::ConfigureAnswered(200),
                restart: Event::Restarted,
            },
        ),
        (
            device("10.0.0.3"),
            Script {
                probe: Event::Probed(490),
                configure: Event::ConfigureAnswered(200),
                restart: Event::Restarted,
            },
        ),
    ];
    let outcomes = run_cycle(750_000, &devices, &mut calls);
    assert_eq!(
        calls,
        vec![
            Call::Probe("10.0.0.2".to_string()),
            Call::Probe("10.0.0.3".to_string()),
            Call::Configure("10.0.0.3".to_string(), 400),
            Call::Restart("10.0.0.3".to_string()),
        ]
    );
    assert_eq!(outcomes, vec![Outcome::ProbeFailed, Outcome::Switched { frequency: 400 }]);
}

#[test]
fn rejected_configuration_gets_no_restart_and_next_is_processed() {
    let mut calls = Vec::new();
    let devices = [
        (
            device("10.0.0.2"),
            Script {
                probe: Event::Probed(490),
                configure: Event::ConfigureAnswered(500),
                restart: Event::Restarted,
            },
        ),
        (
            device("10.0.0.3"),
            Script {
                probe: Event::Probed(490),
                configure: Event::ConfigureAnswered(200),
                restart: Event::Restarted,
            },
        ),
    ];
    let outcomes = run_cycle(750_000, &devices, &mut calls);
    assert_eq!(
        calls,
        vec![
            Call::Probe("10.0.0.2".to_string()),
            Call::Configure("10.0.0.2".to_string(), 400),
            Call::Probe("10.0.0.3".to_string()),
            Call::Configure("10.0.0.3".to_string(), 400),
            Call::Restart("10.0.0.3".to_string()),
        ]
    );
    assert_eq!(
        outcomes,
        vec![Outcome::ConfigureRejected { status: 500 }, Outcome::Switched { frequency: 400 }]
    );
}

#[test]
fn configure_and_restart_errors_are_reported() {
    let mut calls = Vec::new();
    let devices = [
        (
            device("a"),
            Script {
                probe: Event::Probed(400),
                configure: Event::ConfigureError,
                restart: Event::Restarted,
            },
        ),
        (
            device("b"),
            Script {
                probe: Event::Probed(400),
                configure: Event::ConfigureAnswered(200),
                restart: Event::RestartError,
            },
        ),
    ];
    let outcomes = run_cycle(50_000, &devices, &mut calls);
    assert_eq!(
        outcomes,
        vec![Outcome::ConfigureFailed, Outcome::RestartFailed { frequency: 575 }]
    );
    assert_eq!(writes(&calls), 3);
}

#[test]
fn stray_events_leave_the_phase_unchanged() {
    let d = device("a");
    let mut session = Session::new(750_000, thresholds());
    assert_eq!(session.step(&d, Event::Restarted), Action::Probe);
    assert_eq!(session.phase, Phase::Probing);
    assert_eq!(session.step(&d, Event::ProbeError), Action::Finish(Outcome::ProbeFailed));
    assert_eq!(session.step(&d, Event::Probed(490)), Action::Finish(Outcome::ProbeFailed));
    assert_eq!(session.phase.action(), Action::Finish(Outcome::ProbeFailed));
}

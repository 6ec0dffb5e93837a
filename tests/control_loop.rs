use bitaxe_clocker::config::Config;
use bitaxe_clocker::control::{ControlLoop, LoopAction, LoopEvent, LoopState};
use bitaxe_clocker::sync::Outcome;
use bitaxe_clocker::tier::Device;

fn config(n: usize) -> Config {
    let devices = (0..n)
        .map(|i| Device::new(format!("10.0.0.{}", i), 400, 490, Some(575)).unwrap())
        .collect();
    Config::new(30, 100_000, 500_000, "SE3".to_string(), devices).unwrap()
}

#[test]
fn cycle_fetches_once_then_visits_devices_in_order() {
    let c = config(3);
    let mut l = ControlLoop::new(&c);
    assert_eq!(l.action(), LoopAction::FetchPrice);
    assert_eq!(
        l.step(LoopEvent::PriceFetched(750_000)),
        LoopAction::ProcessDevice { index: 0, price: 750_000 }
    );
    assert_eq!(
        l.step(LoopEvent::DeviceDone(Outcome::ProbeFailed)),
        LoopAction::ProcessDevice { index: 1, price: 750_000 }
    );
    assert_eq!(
        l.step(LoopEvent::DeviceDone(Outcome::ConfigureRejected { status: 500 })),
        LoopAction::ProcessDevice { index: 2, price: 750_000 }
    );
    assert_eq!(
        l.step(LoopEvent::DeviceDone(Outcome::Switched { frequency: 400 })),
        LoopAction::Sleep { millis: 1_800_000 }
    );
    assert_eq!(l.state, LoopState::Idle);
    assert_eq!(l.step(LoopEvent::Woke), LoopAction::FetchPrice);
}

#[test]
fn unavailable_price_sleeps_without_processing_devices() {
    let c = config(2);
    let mut l = ControlLoop::new(&c);
    assert_eq!(l.step(LoopEvent::PriceUnavailable), LoopAction::Sleep { millis: 1_800_000 });
    assert_eq!(l.state, LoopState::Idle);
}

#[test]
fn loop_without_devices_sleeps_after_the_price() {
    let c = config(0);
    let mut l = ControlLoop::new(&c);
    assert_eq!(l.step(LoopEvent::PriceFetched(1)), LoopAction::Sleep { millis: 1_800_000 });
}

#[test]
fn stray_loop_events_change_nothing() {
    let c = config(1);
    let mut l = ControlLoop::new(&c);
    assert_eq!(l.step(LoopEvent::Woke), LoopAction::FetchPrice);
    assert_eq!(l.step(LoopEvent::DeviceDone(Outcome::Unchanged)), LoopAction::FetchPrice);
    assert_eq!(l.state, LoopState::FetchingPrice);
}

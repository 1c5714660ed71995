use esp32temp::config::Ipv4;
use esp32temp::watchdog::{
    button_sample, probe_calls_reboot, probe_plan, tick, wait_step, ButtonStep, Probe, WaitStep,
    CONFIG_RESET_COUNT, STARTUP_WAIT_POLLS,
};

fn run_button(samples: &[bool]) -> ButtonStep {
    let mut remaining = CONFIG_RESET_COUNT;
    for &s in samples {
        match button_sample(remaining, s) {
            ButtonStep::Countdown(n) => remaining = n,
            other => return other,
        }
    }
    ButtonStep::Countdown(remaining)
}

#[test]
fn reset_pin_held_for_full_countdown_resets() {
    let samples = vec![true; CONFIG_RESET_COUNT as usize + 1];
    assert_eq!(run_button(&samples), ButtonStep::FactoryReset);
}

#[test]
fn reset_pin_released_one_interval_early_does_nothing() {
    let mut samples = vec![true; CONFIG_RESET_COUNT as usize];
    samples.push(false);
    assert_eq!(run_button(&samples), ButtonStep::Released);
}

#[test]
fn button_sample_steps() {
    assert_eq!(button_sample(3, true), ButtonStep::Countdown(2));
    assert_eq!(button_sample(0, true), ButtonStep::FactoryReset);
    assert_eq!(button_sample(0, false), ButtonStep::Released);
}

#[test]
fn probe_decisions() {
    let gw = Ipv4 { a: 10, b: 0, c: 0, d: 1 };
    assert_eq!(probe_plan(None, 3), Probe::Idle);
    assert_eq!(probe_plan(Some(gw), 0), Probe::NoInterface);
    assert_eq!(probe_plan(Some(gw), 3), Probe::Ping { target: gw, if_index: 3 });
    assert!(probe_calls_reboot(0));
    assert!(!probe_calls_reboot(1));
}

#[test]
fn startup_wait_gives_up_after_limit() {
    assert_eq!(wait_step(0, true), WaitStep::Ready);
    assert_eq!(wait_step(0, false), WaitStep::Again(1));
    assert_eq!(wait_step(STARTUP_WAIT_POLLS, false), WaitStep::Again(STARTUP_WAIT_POLLS + 1));
    assert_eq!(wait_step(STARTUP_WAIT_POLLS + 1, false), WaitStep::Reboot);
}

#[test]
fn tick_advances_uptime_and_reports_pending_reset() {
    assert_eq!(tick(0, false), (2, false));
    assert_eq!(tick(10, true), (12, true));
    assert_eq!(tick(u64::MAX - 1, false), (u64::MAX, false));
}

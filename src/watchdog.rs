//! Watchdog and recovery decisions: the manual factory-reset countdown, the
//! reachability probe, the bounded waits at start-up, and the cooperative
//! pending-reset flag.
use vstd::prelude::*;
use crate::config::Ipv4;

verus! {

/// Samples, after the first one seen low, for which the reset pin must stay
/// low before the factory reset happens.
pub const CONFIG_RESET_COUNT: u32 = 9;

/// Period of the reset task, in seconds; the uptime advances by it.
pub const TICK_SECS: u64 = 2;

/// Polls, every 200 ms, before a start-up wait gives up and reboots.
pub const STARTUP_WAIT_POLLS: u32 = 300;

/// What one sample of the reset pin leads to.
#[derive(Debug, Clone, Copy, PartialEq, Eq, Structural)]
pub enum ButtonStep {
    /// The pin was released: the reset is called off.
    Released,
    /// Still held: sample again with this many samples left.
    Countdown(u32),
    /// Held to the end: restore the factory configuration and reboot.
    FactoryReset,
}

/// One sample of the reset pin while counting down from `remaining`.
pub open spec fn spec_button_sample(remaining: u32, pressed: bool) -> ButtonStep {
    if !pressed {
        ButtonStep::Released
    } else if remaining == 0 {
        ButtonStep::FactoryReset
    } else {
        ButtonStep::Countdown((remaining - 1) as u32)
    }
}

/// One sample of the reset pin while counting down from `remaining`.
pub fn button_sample(remaining: u32, pressed: bool) -> (r: ButtonStep)
    ensures
        r == spec_button_sample(remaining, pressed),
{
    if !pressed {
        ButtonStep::Released
    } else if remaining == 0 {
        ButtonStep::FactoryReset
    } else {
        ButtonStep::Countdown(remaining - 1)
    }
}

/// Where a run of samples leads, counting down from `remaining`: the first
/// `Released` or `FactoryReset`, else the count left when the samples end.
pub open spec fn hold_outcome(remaining: u32, samples: Seq<bool>) -> ButtonStep
    decreases samples.len(),
{
    if samples.len() == 0 {
        ButtonStep::Countdown(remaining)
    } else {
        match spec_button_sample(remaining, samples[0]) {
            ButtonStep::Countdown(n) => hold_outcome(n, samples.drop_first()),
            other => other,
        }
    }
}

/// `n` samples with the pin held low.
pub open spec fn held(n: nat) -> Seq<bool> {
    Seq::new(n, |i: int| true)
}

/// Holding the pin for the whole countdown, `count + 1` samples, resets;
/// holding it for any fewer samples and then releasing it calls the reset
/// off.
pub proof fn lemma_reset_needs_full_hold(count: u32, k: nat)
    requires
        k <= count,
    ensures
        hold_outcome(count, held((count + 1) as nat)) == ButtonStep::FactoryReset,
        hold_outcome(count, held(k).push(false)) == ButtonStep::Released,
{
    lemma_full_hold(count);
    lemma_early_release(count, k);
}

proof fn lemma_full_hold(count: u32)
    ensures
        hold_outcome(count, held((count + 1) as nat)) == ButtonStep::FactoryReset,
    decreases count,
{
    let s = held((count + 1) as nat);
    assert(s[0]);
    if count > 0 {
        lemma_full_hold((count - 1) as u32);
        assert(s.drop_first() =~= held(count as nat));
    }
}

proof fn lemma_early_release(count: u32, k: nat)
    requires
        k <= count,
    ensures
        hold_outcome(count, held(k).push(false)) == ButtonStep::Released,
    decreases k,
{
    let s = held(k).push(false);
    if k > 0 {
        assert(s[0]);
        lemma_early_release((count - 1) as u32, (k - 1) as nat);
        assert(s.drop_first() =~= held((k - 1) as nat).push(false));
    } else {
        assert(!s[0]);
    }
}

/// What the reachability probe does this period.
#[derive(Debug, Clone, Copy, PartialEq, Eq, Structural)]
pub enum Probe {
    /// No target recorded yet: nothing to probe.
    Idle,
    /// A target but no interface index: nothing can be sent.
    NoInterface,
    /// Probe `target` through interface `if_index`.
    Ping { target: Ipv4, if_index: u32 },
}

/// The probe for the recorded target and interface.
pub fn probe_plan(ping_ip: Option<Ipv4>, if_index: u32) -> (r: Probe)
    ensures
        ping_ip is None ==> r == Probe::Idle,
        ping_ip matches Some(t) ==> r == if if_index > 0 {
            Probe::Ping { target: t, if_index }
        } else {
            Probe::NoInterface
        },
{
    match ping_ip {
        None => Probe::Idle,
        Some(target) => if if_index > 0 {
            Probe::Ping { target, if_index }
        } else {
            Probe::NoInterface
        },
    }
}

/// Whether a probing window calls for a reboot: no reply at all means a hung
/// network stack.
pub fn probe_calls_reboot(received: u32) -> (r: bool)
    ensures
        r == (received == 0),
{
    received == 0
}

/// What a bounded start-up wait does after a poll.
#[derive(Debug, Clone, Copy, PartialEq, Eq, Structural)]
pub enum WaitStep {
    /// The condition holds: go on.
    Ready,
    /// Poll again; this many polls are then done.
    Again(u32),
    /// Waited too long: reboot.
    Reboot,
}

/// One poll of a start-up wait with `polls` polls done so far: ready goes
/// on; past `STARTUP_WAIT_POLLS` polls it reboots.
pub fn wait_step(polls: u32, ready: bool) -> (r: WaitStep)
    ensures
        ready ==> r == WaitStep::Ready,
        !ready && polls > STARTUP_WAIT_POLLS ==> r == WaitStep::Reboot,
        !ready && polls <= STARTUP_WAIT_POLLS ==> r == WaitStep::Again((polls + 1) as u32),
{
    if ready {
        WaitStep::Ready
    } else if polls > STARTUP_WAIT_POLLS {
        WaitStep::Reboot
    } else {
        WaitStep::Again(polls + 1)
    }
}

/// One period of the reset task: the new uptime, and whether the pending
/// reset flag calls for a reboot now.
pub fn tick(uptime: u64, reset_pending: bool) -> (r: (u64, bool))
    ensures
        r.0 == if uptime <= u64::MAX - TICK_SECS {
            (uptime + TICK_SECS) as u64
        } else {
            u64::MAX
        },
        r.1 == reset_pending,
{
    (uptime.saturating_add(TICK_SECS), reset_pending)
}

} // verus!

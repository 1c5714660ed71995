//! The connectivity manager's decisions: how the interface is configured
//! from the configuration, the connect loop as a state machine, and the
//! connectivity state that the rest of the node reads.
//!
//! The loop waits for the link to drop, connects, then waits for an address.
//! On the initial traversal the first wait is bounded and a failure to get an
//! address escalates (see `MyConfig::after_initial_failure`); in steady state
//! failures are retried forever.
use vstd::prelude::*;
use vstd::string::StringExecFns;
use crate::config::{Ipv4, MyConfig};

verus! {

/// Bound on the first wait of the initial traversal, in seconds.
pub const INITIAL_CONNECT_TIMEOUT_SECS: u64 = 30;

/// Grace delay before the reboot that follows a failed initial traversal, in
/// seconds.
pub const FAILED_BOOT_REBOOT_SECS: u64 = 5;

/// How the station authenticates.
#[derive(Debug, Clone, Copy, PartialEq, Eq, Structural)]
pub enum AuthMethod {
    /// An open network.
    Open,
    /// A pre-shared key.
    Wpa2Personal,
    /// An enterprise identity with username and password.
    Wpa2Enterprise,
}

/// The authentication that a configuration selects: enterprise when asked
/// for, else a pre-shared key unless the password is empty.
pub open spec fn spec_auth_method(cfg: MyConfig) -> AuthMethod {
    if cfg.wifi_wpa2ent {
        AuthMethod::Wpa2Enterprise
    } else if cfg.wifi_pass@.len() == 0 {
        AuthMethod::Open
    } else {
        AuthMethod::Wpa2Personal
    }
}

/// The authentication that a configuration selects.
pub fn auth_method(cfg: &MyConfig) -> (r: AuthMethod)
    ensures
        r == spec_auth_method(*cfg),
{
    if cfg.wifi_wpa2ent {
        AuthMethod::Wpa2Enterprise
    } else if cfg.wifi_pass.as_str().is_empty() {
        AuthMethod::Open
    } else {
        AuthMethod::Wpa2Personal
    }
}

/// How the interface gets its address.
#[derive(Debug, Clone, Copy, PartialEq, Eq, Structural)]
pub enum IpPlan {
    Dhcp,
    Fixed { ip: Ipv4, gateway: Ipv4, mask: u8, dns1: Ipv4, dns2: Ipv4 },
}

/// DHCP when the configuration asks for it, else its static addressing.
pub fn ip_plan(cfg: &MyConfig) -> (r: IpPlan)
    ensures
        cfg.v4dhcp ==> r == IpPlan::Dhcp,
        !cfg.v4dhcp ==> r == (IpPlan::Fixed {
            ip: cfg.v4addr,
            gateway: cfg.v4gw,
            mask: cfg.v4mask,
            dns1: cfg.dns1,
            dns2: cfg.dns2,
        }),
{
    if cfg.v4dhcp {
        IpPlan::Dhcp
    } else {
        IpPlan::Fixed {
            ip: cfg.v4addr,
            gateway: cfg.v4gw,
            mask: cfg.v4mask,
            dns1: cfg.dns1,
            dns2: cfg.dns2,
        }
    }
}

/// Where the connect loop stands.
#[derive(Debug, Clone, Copy, PartialEq, Eq, Structural)]
pub enum LinkPhase {
    /// Waiting for the link to drop.
    AwaitingDown,
    /// Associating with the access point.
    Connecting,
    /// Waiting for an address.
    AwaitingAddress,
    /// The initial traversal reached `Up`.
    Up,
    /// The initial traversal failed.
    Failed,
}

/// What the loop asks for next.
#[derive(Debug, Clone, Copy, PartialEq, Eq, Structural)]
pub enum LinkAction {
    /// Wait until the link is down, for at most `timeout_secs` if given.
    WaitDown { timeout_secs: Option<u64> },
    /// Start association.
    Connect,
    /// Wait until an address is assigned.
    WaitAddress,
    /// The initial traversal is done: record the address and go on.
    InitialUp,
    /// The initial traversal failed: persist the escalated configuration and
    /// reboot after `reboot_after_secs`.
    Escalate { reboot_after_secs: u64 },
}

/// The connect loop: whether this is the initial traversal, and its phase.
#[derive(Debug, Clone, Copy, PartialEq, Eq, Structural)]
pub struct Link {
    pub initial: bool,
    pub phase: LinkPhase,
}

/// The first wait of a traversal.
pub open spec fn spec_wait_down(initial: bool) -> LinkAction {
    LinkAction::WaitDown {
        timeout_secs: if initial {
            Some(INITIAL_CONNECT_TIMEOUT_SECS)
        } else {
            None
        },
    }
}

/// The loop's next state and action once the last action completed; `ok`
/// says whether it succeeded. The outcome of the waits for the link to drop
/// and of the connect request is not acted upon; only the wait for an
/// address decides.
pub open spec fn link_next(l: Link, ok: bool) -> (Link, LinkAction) {
    match l.phase {
        LinkPhase::AwaitingDown => (Link { phase: LinkPhase::Connecting, ..l }, LinkAction::Connect),
        LinkPhase::Connecting => (
            Link { phase: LinkPhase::AwaitingAddress, ..l },
            LinkAction::WaitAddress,
        ),
        LinkPhase::AwaitingAddress => if l.initial {
            if ok {
                (Link { phase: LinkPhase::Up, ..l }, LinkAction::InitialUp)
            } else {
                (
                    Link { phase: LinkPhase::Failed, ..l },
                    LinkAction::Escalate { reboot_after_secs: FAILED_BOOT_REBOOT_SECS },
                )
            }
        } else {
            (Link { phase: LinkPhase::AwaitingDown, ..l }, spec_wait_down(false))
        },
        LinkPhase::Up => (l, LinkAction::InitialUp),
        LinkPhase::Failed => (
            l,
            LinkAction::Escalate { reboot_after_secs: FAILED_BOOT_REBOOT_SECS },
        ),
    }
}

impl Link {
    /// Only the initial traversal ends, in `Up` or `Failed`.
    pub open spec fn wf(&self) -> bool {
        !self.initial ==> !(self.phase is Up) && !(self.phase is Failed)
    }

    /// Starts a traversal, initial or steady-state, with its first wait.
    pub fn start(initial: bool) -> (r: (Link, LinkAction))
        ensures
            r.0 == (Link { initial, phase: LinkPhase::AwaitingDown }),
            r.0.wf(),
            r.1 == spec_wait_down(initial),
    {
        let timeout_secs = if initial {
            Some(INITIAL_CONNECT_TIMEOUT_SECS)
        } else {
            None
        };
        (Link { initial, phase: LinkPhase::AwaitingDown }, LinkAction::WaitDown { timeout_secs })
    }

    /// Advances the loop once the last action completed.
    pub fn on_done(&mut self, ok: bool) -> (r: LinkAction)
        requires
            old(self).wf(),
        ensures
            final(self).wf(),
            (*final(self), r) == link_next(*old(self), ok),
            final(self).initial == old(self).initial,
            !old(self).initial ==> !(r is Escalate) && !(r is InitialUp),
    {
        let l = *self;
        let (next, action) = match l.phase {
            LinkPhase::AwaitingDown => (
                Link { phase: LinkPhase::Connecting, ..l },
                LinkAction::Connect,
            ),
            LinkPhase::Connecting => (
                Link { phase: LinkPhase::AwaitingAddress, ..l },
                LinkAction::WaitAddress,
            ),
            LinkPhase::AwaitingAddress => if l.initial {
                if ok {
                    (Link { phase: LinkPhase::Up, ..l }, LinkAction::InitialUp)
                } else {
                    (
                        Link { phase: LinkPhase::Failed, ..l },
                        LinkAction::Escalate { reboot_after_secs: FAILED_BOOT_REBOOT_SECS },
                    )
                }
            } else {
                (
                    Link { phase: LinkPhase::AwaitingDown, ..l },
                    LinkAction::WaitDown { timeout_secs: None },
                )
            },
            LinkPhase::Up => (l, LinkAction::InitialUp),
            LinkPhase::Failed => (
                l,
                LinkAction::Escalate { reboot_after_secs: FAILED_BOOT_REBOOT_SECS },
            ),
        };
        *self = next;
        action
    }
}

/// The state of the network interface, written by the connectivity manager
/// alone.
#[derive(Debug)]
pub struct ConnectivityState {
    pub wifi_up: bool,
    pub ntp_ok: bool,
    pub if_index: u32,
    pub ip_addr: Ipv4,
    /// Target of the watchdog's reachability probe: the gateway.
    pub ping_ip: Option<Ipv4>,
    /// Identity used as the telemetry client identifier.
    pub myid: String,
}

impl ConnectivityState {
    /// The link down, nothing recorded yet.
    pub fn new() -> (r: ConnectivityState)
        ensures
            !r.wifi_up,
            !r.ntp_ok,
            r.if_index == 0,
            r.ip_addr == Ipv4::spec_unspecified(),
            r.ping_ip is None,
            r.myid@ == "esp32temp"@,
    {
        ConnectivityState {
            wifi_up: false,
            ntp_ok: false,
            if_index: 0,
            ip_addr: Ipv4::unspecified(),
            ping_ip: None,
            myid: String::from_str("esp32temp"),
        }
    }

    /// Records the link as up with its interface, address and gateway; the
    /// gateway becomes the watchdog's probe target.
    pub fn record_up(&mut self, if_index: u32, ip: Ipv4, gateway: Ipv4)
        ensures
            final(self).wifi_up,
            final(self).if_index == if_index,
            final(self).ip_addr == ip,
            final(self).ping_ip == Some(gateway),
            final(self).ntp_ok == old(self).ntp_ok,
            final(self).myid == old(self).myid,
    {
        self.if_index = if_index;
        self.ip_addr = ip;
        self.ping_ip = Some(gateway);
        self.wifi_up = true;
    }

    /// Records that the link dropped.
    pub fn record_down(&mut self)
        ensures
            !final(self).wifi_up,
            final(self).if_index == old(self).if_index,
            final(self).ip_addr == old(self).ip_addr,
            final(self).ping_ip == old(self).ping_ip,
            final(self).ntp_ok == old(self).ntp_ok,
            final(self).myid == old(self).myid,
    {
        self.wifi_up = false;
    }
}

} // verus!

use esp32temp::config::{Ipv4, MyConfig};
use esp32temp::connect::{
    auth_method, ip_plan, AuthMethod, ConnectivityState, IpPlan, Link, LinkAction, LinkPhase,
    FAILED_BOOT_REBOOT_SECS, INITIAL_CONNECT_TIMEOUT_SECS,
};

#[test]
fn auth_follows_config() {
    let mut c = MyConfig::default();
    assert_eq!(auth_method(&c), AuthMethod::Wpa2Personal);
    c.wifi_pass = String::new();
    assert_eq!(auth_method(&c), AuthMethod::Open);
    c.wifi_wpa2ent = true;
    assert_eq!(auth_method(&c), AuthMethod::Wpa2Enterprise);
}

#[test]
fn ip_plan_follows_config() {
    let mut c = MyConfig::default();
    assert_eq!(ip_plan(&c), IpPlan::Dhcp);
    c.v4dhcp = false;
    c.v4addr = Ipv4 { a: 10, b: 0, c: 0, d: 7 };
    c.v4mask = 8;
    assert_eq!(
        ip_plan(&c),
        IpPlan::Fixed {
            ip: Ipv4 { a: 10, b: 0, c: 0, d: 7 },
            gateway: Ipv4::unspecified(),
            mask: 8,
            dns1: Ipv4::unspecified(),
            dns2: Ipv4::unspecified(),
        }
    );
}

#[test]
fn initial_traversal_reaches_up() {
    let (mut l, a) = Link::start(true);
    assert_eq!(a, LinkAction::WaitDown { timeout_secs: Some(INITIAL_CONNECT_TIMEOUT_SECS) });
    assert_eq!(l.on_done(false), LinkAction::Connect);
    assert_eq!(l.on_done(false), LinkAction::WaitAddress);
    assert_eq!(l.on_done(true), LinkAction::InitialUp);
    assert_eq!(l.phase, LinkPhase::Up);
}

#[test]
fn initial_traversal_failure_escalates() {
    let (mut l, _) = Link::start(true);
    l.on_done(true);
    l.on_done(true);
    assert_eq!(l.on_done(false), LinkAction::Escalate { reboot_after_secs: FAILED_BOOT_REBOOT_SECS });
    assert_eq!(l.phase, LinkPhase::Failed);
}

#[test]
fn steady_state_retries_forever() {
    let (mut l, a) = Link::start(false);
    assert_eq!(a, LinkAction::WaitDown { timeout_secs: None });
    for i in 0..10 {
        assert_eq!(l.on_done(true), LinkAction::Connect);
        assert_eq!(l.on_done(false), LinkAction::WaitAddress);
        assert_eq!(l.on_done(i % 2 == 0), LinkAction::WaitDown { timeout_secs: None });
    }
}

#[test]
fn connectivity_state_records_up_and_down() {
    let mut s = ConnectivityState::new();
    assert!(!s.wifi_up);
    assert_eq!(s.myid, "esp32temp");
    assert_eq!(s.ping_ip, None);
    let gw = Ipv4 { a: 192, b: 168, c: 0, d: 1 };
    s.record_up(2, Ipv4 { a: 192, b: 168, c: 0, d: 9 }, gw);
    assert!(s.wifi_up);
    assert_eq!(s.if_index, 2);
    assert_eq!(s.ping_ip, Some(gw));
    s.record_down();
    assert!(!s.wifi_up);
}

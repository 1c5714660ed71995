use esp32temp::config::{ConfigError, Ipv4, MyConfig, DEFAULT_API_PORT, DEFAULT_BOOT_FAIL_MAX};

fn ip(a: u8, b: u8, c: u8, d: u8) -> Ipv4 {
    Ipv4 { a, b, c, d }
}

fn custom() -> MyConfig {
    let mut c = MyConfig::factory("home".to_string(), "secret".to_string(), 8080);
    c.v4dhcp = false;
    c.v4addr = ip(192, 168, 1, 50);
    c.v4mask = 24;
    c.v4gw = ip(192, 168, 1, 1);
    c.dns1 = ip(1, 1, 1, 1);
    c.dns2 = ip(8, 8, 8, 8);
    c.mqtt_enable = true;
    c.mqtt_topic = "garage".to_string();
    c.retries = 2;
    c.delay = 60;
    c
}

fn same_settings(a: &MyConfig, b: &MyConfig) -> bool {
    a.port == b.port
        && a.retries == b.retries
        && a.delay == b.delay
        && a.wifi_ssid == b.wifi_ssid
        && a.wifi_pass == b.wifi_pass
        && a.wifi_wpa2ent == b.wifi_wpa2ent
        && a.wifi_username == b.wifi_username
        && a.v4dhcp == b.v4dhcp
        && a.v4addr == b.v4addr
        && a.v4mask == b.v4mask
        && a.v4gw == b.v4gw
        && a.dns1 == b.dns1
        && a.dns2 == b.dns2
        && a.mqtt_enable == b.mqtt_enable
        && a.mqtt_url == b.mqtt_url
        && a.mqtt_topic == b.mqtt_topic
        && a.boot_fail_max == b.boot_fail_max
}

#[test]
fn default_config_values() {
    let c = MyConfig::default();
    assert_eq!(c.port, DEFAULT_API_PORT);
    assert_eq!(c.port, 80);
    assert_eq!(c.wifi_ssid, "internet");
    assert_eq!(c.wifi_pass, "password");
    assert_eq!(c.retries, 4);
    assert_eq!(c.delay, 30);
    assert!(c.v4dhcp);
    assert_eq!(c.v4addr, Ipv4::unspecified());
    assert!(!c.mqtt_enable);
    assert_eq!(c.mqtt_url, "mqtt://mqtt.local:1883");
    assert_eq!(c.mqtt_topic, "esp32temp");
    assert_eq!(c.boot_fail_cnt, 0);
    assert_eq!(c.boot_fail_max, DEFAULT_BOOT_FAIL_MAX);
}

#[test]
fn fresh_device_uses_defaults_and_saves_them() {
    let (c, save) = MyConfig::at_boot(None, MyConfig::factory("lab".to_string(), "pw".to_string(), 8081));
    assert!(save);
    assert_eq!(c.wifi_ssid, "lab");
    assert_eq!(c.wifi_pass, "pw");
    assert_eq!(c.port, 8081);
    assert_eq!(c.boot_fail_cnt, 0);
}

#[test]
fn stored_config_is_kept_at_boot() {
    let (c, save) = MyConfig::at_boot(Some(custom()), MyConfig::default());
    assert!(!save);
    assert!(same_settings(&c, &custom()));
}

#[test]
fn initial_failure_below_threshold_counts() {
    let mut c = custom();
    c.boot_fail_cnt = 3;
    c.boot_fail_max = 4;
    let r = c.after_initial_failure(MyConfig::default());
    assert_eq!(r.boot_fail_cnt, 4);
    let mut expected = custom();
    expected.boot_fail_max = 4;
    assert!(same_settings(&r, &expected));
}

#[test]
fn initial_failure_at_threshold_resets_to_defaults() {
    let mut c = custom();
    c.boot_fail_cnt = 4;
    c.boot_fail_max = 4;
    let r = c.after_initial_failure(MyConfig::default());
    assert_eq!(r.boot_fail_cnt, 0);
    assert!(same_settings(&r, &MyConfig::default()));
}

#[test]
fn boot_failures_from_zero_escalate_after_threshold_plus_one() {
    let mut c = custom();
    c.boot_fail_max = 2;
    c = c.after_initial_failure(MyConfig::default());
    assert_eq!(c.boot_fail_cnt, 1);
    c = c.after_initial_failure(MyConfig::default());
    assert_eq!(c.boot_fail_cnt, 2);
    assert_eq!(c.wifi_ssid, "home");
    c = c.after_initial_failure(MyConfig::default());
    assert_eq!(c.boot_fail_cnt, 0);
    assert_eq!(c.wifi_ssid, "internet");
}

#[test]
fn connected_clears_failure_count() {
    let mut c = custom();
    c.boot_fail_cnt = 2;
    let (r, persist) = c.after_connected();
    assert!(persist);
    assert_eq!(r.boot_fail_cnt, 0);
    assert!(same_settings(&r, &custom()));
    let (r2, persist2) = r.after_connected();
    assert!(!persist2);
    assert_eq!(r2.boot_fail_cnt, 0);
}

#[test]
fn update_with_wide_mask_is_refused() {
    let mut c = custom();
    c.v4mask = 31;
    assert_eq!(c.validated().err(), Some(ConfigError::MaskTooWide));
}

#[test]
fn update_with_mask_thirty_is_accepted() {
    let mut c = custom();
    c.v4mask = 30;
    let r = c.validated().unwrap();
    assert_eq!(r.v4mask, 30);
    assert_eq!(r.v4addr, ip(192, 168, 1, 50));
}

#[test]
fn update_with_dhcp_clears_static_addressing() {
    let mut c = custom();
    c.v4dhcp = true;
    let r = c.validated().unwrap();
    assert_eq!(r.v4addr, Ipv4::unspecified());
    assert_eq!(r.v4mask, 0);
    assert_eq!(r.v4gw, Ipv4::unspecified());
    assert_eq!(r.dns1, Ipv4::unspecified());
    assert_eq!(r.dns2, Ipv4::unspecified());
    assert_eq!(r.wifi_ssid, "home");
    assert_eq!(r.port, 8080);
}

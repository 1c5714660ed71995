use esp32temp::acquire::{Acquisition, SensorChannel, Step};
use esp32temp::readings::{TempValues, NO_TEMP};

fn channel(name: &str, ids: &[u64]) -> SensorChannel {
    SensorChannel { name: name.to_string(), ids: ids.to_vec() }
}

fn values(a: &Acquisition) -> Vec<i32> {
    a.data.temperatures.iter().map(|t| t.value).collect()
}

#[test]
fn boot_scan_drops_empty_channels_and_sizes_readings() {
    let a = Acquisition::new(
        vec![channel("gpio0", &[]), channel("gpio1", &[1, 2]), channel("gpio2", &[]), channel("gpio3", &[3])],
        4,
    );
    assert_eq!(a.channels.len(), 2);
    assert_eq!(a.channels[0].name, "gpio1");
    assert_eq!(a.channels[1].name, "gpio3");
    assert_eq!(a.data.temperatures.len(), 3);
    assert!(a.data.temperatures.iter().all(|t| t.value == NO_TEMP && t.sensor == "N/A" && t.iopin == "N/A"));
    assert!(!a.fresh);
}

#[test]
fn boot_scan_with_nothing_found() {
    let mut a = Acquisition::new(vec![channel("gpio0", &[])], 1);
    assert_eq!(a.data.temperatures.len(), 0);
    assert_eq!(a.begin_cycle(), Step::Finished);
    assert!(a.take_fresh());
}

#[test]
fn cycle_with_failing_channel_keeps_its_readings() {
    let mut a = Acquisition::new(vec![channel("A", &[0xA1, 0xA2, 0xA3]), channel("B", &[0xB1, 0xB2])], 2);
    // A first cycle fills every slot.
    let mut step = a.begin_cycle();
    let mut v = 1_000;
    while let Step::Read { .. } = step {
        step = a.record(Some(v));
        v += 1_000;
    }
    assert_eq!(values(&a), vec![1_000, 2_000, 3_000, 4_000, 5_000]);
    assert!(a.take_fresh());
    // Channel A: all succeed.
    assert_eq!(a.begin_cycle(), Step::Read { channel: 0, device: 0, addr: 0xA1 });
    assert_eq!(a.record(Some(21_000)), Step::Read { channel: 0, device: 1, addr: 0xA2 });
    assert_eq!(a.record(Some(22_000)), Step::Read { channel: 0, device: 2, addr: 0xA3 });
    assert_eq!(a.record(Some(23_000)), Step::Read { channel: 1, device: 0, addr: 0xB1 });
    // Channel B: the first device fails all 3 attempts; B2 is never read.
    assert_eq!(a.record(None), Step::Read { channel: 1, device: 0, addr: 0xB1 });
    assert_eq!(a.record(None), Step::Read { channel: 1, device: 0, addr: 0xB1 });
    assert_eq!(a.record(None), Step::Finished);
    assert_eq!(values(&a), vec![21_000, 22_000, 23_000, 4_000, 5_000]);
    assert_eq!(a.data.temperatures[0].iopin, "A");
    assert_eq!(a.data.temperatures[0].sensor, "00000000000000A1");
    assert_eq!(a.data.temperatures[2].sensor, "00000000000000A3");
    assert_eq!(a.data.temperatures[3].iopin, "B");
    assert_eq!(a.data.temperatures[3].sensor, "00000000000000B1");
    assert!(a.take_fresh());
    assert!(!a.take_fresh());
}

#[test]
fn exhausted_retries_leave_prior_reading_and_skip_rest_of_channel() {
    let mut a = Acquisition::new(vec![channel("A", &[1, 2, 3]), channel("B", &[4])], 1);
    a.begin_cycle();
    a.record(Some(10_000));
    a.record(Some(11_000));
    a.record(Some(12_000));
    a.record(Some(13_000));
    assert_eq!(values(&a), vec![10_000, 11_000, 12_000, 13_000]);
    // Second cycle: device 2 fails both attempts (retries = 1).
    assert_eq!(a.begin_cycle(), Step::Read { channel: 0, device: 0, addr: 1 });
    assert_eq!(a.record(Some(20_000)), Step::Read { channel: 0, device: 1, addr: 2 });
    assert_eq!(a.record(None), Step::Read { channel: 0, device: 1, addr: 2 });
    // The abandoned channel's later device is skipped; channel B goes on.
    assert_eq!(a.record(None), Step::Read { channel: 1, device: 0, addr: 4 });
    assert_eq!(a.record(Some(24_000)), Step::Finished);
    assert_eq!(values(&a), vec![20_000, 11_000, 12_000, 24_000]);
    assert_eq!(a.data.temperatures.len(), 4);
}

#[test]
fn retry_that_succeeds_records_value() {
    let mut a = Acquisition::new(vec![channel("A", &[9])], 4);
    a.begin_cycle();
    assert_eq!(a.record(None), Step::Read { channel: 0, device: 0, addr: 9 });
    assert_eq!(a.record(None), Step::Read { channel: 0, device: 0, addr: 9 });
    assert_eq!(a.record(Some(-5_500)), Step::Finished);
    assert_eq!(values(&a), vec![-5_500]);
}

#[test]
fn zero_retries_abandon_on_first_failure() {
    let mut a = Acquisition::new(vec![channel("A", &[1, 2])], 0);
    a.begin_cycle();
    assert_eq!(a.record(None), Step::Finished);
    assert_eq!(values(&a), vec![NO_TEMP, NO_TEMP]);
}

#[test]
fn reading_length_never_changes_over_cycles() {
    let mut a = Acquisition::new(vec![channel("A", &[1, 2]), channel("B", &[3])], 1);
    for round in 0..5 {
        let mut step = a.begin_cycle();
        let mut n = 0;
        while let Step::Read { .. } = step {
            n += 1;
            step = a.record(if (n + round) % 3 == 0 { None } else { Some(n * 100) });
        }
        assert_eq!(a.data.temperatures.len(), 3);
    }
}

#[test]
fn readers_see_only_measured_slots() {
    let mut a = Acquisition::new(vec![channel("A", &[1, 2, 3])], 0);
    a.begin_cycle();
    a.record(Some(1_000));
    a.record(None);
    let v = a.valid_readings();
    assert_eq!(v.temperatures.len(), 1);
    assert_eq!(v.temperatures[0].value, 1_000);
    let empty = TempValues::unmeasured(3).valid();
    assert!(empty.temperatures.is_empty());
}

#[test]
fn temp_values_constructors_are_empty() {
    assert!(TempValues::new().temperatures.is_empty());
    assert!(TempValues::with_capacity(8).temperatures.is_empty());
    assert!(TempValues::default().temperatures.is_empty());
    assert_eq!(TempValues::unmeasured(4).temperatures.len(), 4);
}

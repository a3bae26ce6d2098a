use monitor_rs::config::{BleDevice, MacAddr, ScanConfig};
use monitor_rs::messages::{DevicePresence, StateAnnouncement};
use monitor_rs::scanner::{interpret_probe_output, DeviceSeen, Scanner};

fn test_config() -> ScanConfig {
    ScanConfig {
        device_seen_debounce_seconds: Some(60),
        device_trigger_debounce_seconds: Some(60),
        interscan_delay_seconds: Some(5),
        presence_timeout_seconds: Some(120),
    }
}

fn registry_ab() -> Vec<BleDevice> {
    vec![
        BleDevice {
            address: MacAddr { octets: [0x01, 0x02, 0x03, 0x04, 0x05, 0x06] },
            name: "A".to_string(),
            manufacturer: None,
        },
        BleDevice {
            address: MacAddr { octets: [0x80, 0xFA, 0x5B, 0x41, 0x10, 0x6B] },
            name: "B".to_string(),
            manufacturer: None,
        },
    ]
}

#[test]
fn test_new_scanner_registry() {
    let scanner = Scanner::new(&test_config(), &registry_ab());
    assert_eq!(scanner.devices.len(), 2);
    assert_eq!(scanner.devices[0].name, "A");
    assert_eq!(scanner.devices[0].mac_address, "01:02:03:04:05:06");
    assert_eq!(scanner.devices[0].seen, DeviceSeen::NotSeen);
    assert_eq!(scanner.devices[1].name, "B");
    assert_eq!(scanner.devices[1].mac_address, "80:FA:5B:41:10:6B");
    assert_eq!(scanner.devices[1].seen, DeviceSeen::NotSeen);
    assert_eq!(scanner.last_global_trigger, None);
}

#[test]
fn test_default_policy() {
    let scanner = Scanner::new(&ScanConfig::unset(), &registry_ab());
    assert_eq!(scanner.policy.device_seen_debounce, 60);
    assert_eq!(scanner.policy.device_trigger_debounce, 120);
    assert_eq!(scanner.policy.interscan_delay, 5);
    assert_eq!(scanner.policy.presence_timeout, 120);
}

// A device with no prior sighting is probed exactly once by an arrival
// sweep, and the probe yields exactly one announcement for it.
#[test]
fn test_arrival_probes_unseen_once() {
    let mut scanner = Scanner::new(&test_config(), &registry_ab());
    let plan = scanner.handle_command(&StateAnnouncement::ScanArrive, 1000);
    assert_eq!(plan, vec![0, 1]);
    assert_eq!(plan.iter().filter(|i| **i == 0).count(), 1);
    let (announcement, _) = scanner.record_probe(0, true, 1000);
    assert_eq!(announcement.name, "A");
    assert_eq!(announcement.mac_address, "01:02:03:04:05:06");
    assert_eq!(announcement.presence, DevicePresence::Present(100));
}

// Registry = {A: never seen, B: seen 5 s ago}, seen debounce 60 s,
// event ScanArrive: exactly one probe, of A.
#[test]
fn test_arrival_sweep_skips_recently_seen() {
    let mut scanner = Scanner::new(&test_config(), &registry_ab());
    let (announcement, recheck) = scanner.record_probe(1, true, 995);
    assert_eq!(announcement.presence, DevicePresence::Present(100));
    assert!(recheck);
    let plan = scanner.handle_command(&StateAnnouncement::ScanArrive, 1000);
    assert_eq!(plan, vec![0]);
    assert_eq!(scanner.last_global_trigger, Some(1000));
}

// Same registry, event ScanDepart: both probed, A then B, and the probe
// spacing is the interscan delay.
#[test]
fn test_departure_sweep_probes_everyone() {
    let mut scanner = Scanner::new(&test_config(), &registry_ab());
    let _ = scanner.record_probe(1, true, 995);
    let plan = scanner.handle_command(&StateAnnouncement::ScanDepart, 1000);
    assert_eq!(plan, vec![0, 1]);
    assert_eq!(scanner.delay_before_probe(0), 0);
    assert_eq!(scanner.delay_before_probe(1), 5);
}

// lastGlobalTrigger = now - 10 s, trigger debounce 60 s, event
// DeviceTrigger: dropped, zero probes.
#[test]
fn test_device_trigger_debounced() {
    let mut scanner = Scanner::new(&test_config(), &registry_ab());
    let _ = scanner.handle_command(&StateAnnouncement::ScanArrive, 990);
    let plan = scanner.handle_command(&StateAnnouncement::DeviceTrigger, 1000);
    assert_eq!(plan, Vec::<usize>::new());
    assert_eq!(scanner.last_global_trigger, Some(990));
}

// A DeviceTrigger at or after the trigger debounce runs a full arrival
// sweep.
#[test]
fn test_device_trigger_after_debounce_sweeps() {
    let mut scanner = Scanner::new(&test_config(), &registry_ab());
    let _ = scanner.handle_command(&StateAnnouncement::ScanArrive, 1000);
    // Exactly at the debounce boundary: the sweep runs.
    let plan = scanner.handle_command(&StateAnnouncement::DeviceTrigger, 1060);
    assert_eq!(plan, vec![0, 1]);
    assert_eq!(scanner.last_global_trigger, Some(1060));
}

#[test]
fn test_first_device_trigger_sweeps() {
    let mut scanner = Scanner::new(&test_config(), &registry_ab());
    let plan = scanner.handle_command(&StateAnnouncement::DeviceTrigger, 1000);
    assert_eq!(plan, vec![0, 1]);
}

// The seen debounce is strict: a sighting exactly the debounce ago is
// still trusted; one second older and the device is probed again.
#[test]
fn test_seen_debounce_boundary() {
    let mut scanner = Scanner::new(&test_config(), &registry_ab());
    let _ = scanner.record_probe(0, true, 940);
    let _ = scanner.record_probe(1, true, 939);
    let plan = scanner.handle_command(&StateAnnouncement::ScanArrive, 1000);
    assert_eq!(plan, vec![1]);
}

// A device confirmed present asks for exactly one re-verification;
// delivering it probes that device only.
#[test]
fn test_recheck_probes_single_device() {
    let mut scanner = Scanner::new(&test_config(), &registry_ab());
    let (_, recheck) = scanner.record_probe(1, true, 1000);
    assert!(recheck);
    assert_eq!(scanner.policy.presence_timeout, 120);
    let plan = scanner
        .handle_command(&StateAnnouncement::CheckStillPresent("B".to_string()), 1120);
    assert_eq!(plan, vec![1]);
    // The recheck bypasses the seen debounce: B was seen 120 s ago but
    // also would have been due anyway; probe again right after to see
    // the bypass: B seen 1 s ago is still probed by a recheck.
    let _ = scanner.record_probe(1, true, 1120);
    let plan = scanner
        .handle_command(&StateAnnouncement::CheckStillPresent("B".to_string()), 1121);
    assert_eq!(plan, vec![1]);
}

#[test]
fn test_recheck_unknown_device_ignored() {
    let mut scanner = Scanner::new(&test_config(), &registry_ab());
    let plan = scanner
        .handle_command(&StateAnnouncement::CheckStillPresent("C".to_string()), 1000);
    assert_eq!(plan, Vec::<usize>::new());
    assert_eq!(scanner.last_global_trigger, None);
}

// An absent probe clears the sighting, announces absence, and schedules
// no re-verification.
#[test]
fn test_absent_probe_clears_sighting() {
    let mut scanner = Scanner::new(&test_config(), &registry_ab());
    let _ = scanner.record_probe(0, true, 1000);
    assert_eq!(scanner.devices[0].seen, DeviceSeen::Seen(1000));
    let (announcement, recheck) = scanner.record_probe(0, false, 1010);
    assert_eq!(scanner.devices[0].seen, DeviceSeen::NotSeen);
    assert_eq!(announcement.presence, DevicePresence::Absent);
    assert_eq!(announcement.name, "A");
    assert_eq!(announcement.mac_address, "01:02:03:04:05:06");
    assert!(!recheck);
}

#[test]
fn test_interpret_probe_output() {
    match interpret_probe_output(true, &b"Phone".to_vec(), Vec::new()) {
        Ok(present) => assert!(present),
        Err(_) => panic!("a successful command is a liveness answer"),
    }
    match interpret_probe_output(true, &Vec::new(), Vec::new()) {
        Ok(present) => assert!(!present),
        Err(_) => panic!("a successful command is a liveness answer"),
    }
    match interpret_probe_output(false, &Vec::new(), b"busy".to_vec()) {
        Err(e) => assert_eq!(e.stderr, b"busy".to_vec()),
        Ok(_) => panic!("a failed command must be an error"),
    }
}

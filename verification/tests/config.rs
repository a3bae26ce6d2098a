use monitor_rs::config::{MacAddr, MqttConfig, MqttSettings, ScanConfig, ScanPolicy};

#[test]
fn test_scan_policy_from_config() {
    let cfg = ScanConfig {
        device_seen_debounce_seconds: Some(60),
        device_trigger_debounce_seconds: Some(60),
        interscan_delay_seconds: Some(5),
        presence_timeout_seconds: None,
    };
    let policy = ScanPolicy::from_config(&cfg);
    assert_eq!(policy.device_seen_debounce, 60);
    assert_eq!(policy.device_trigger_debounce, 60);
    assert_eq!(policy.interscan_delay, 5);
    assert_eq!(policy.presence_timeout, 120);
}

#[test]
fn test_scan_policy_defaults() {
    let policy = ScanPolicy::from_config(&ScanConfig::unset());
    assert_eq!(policy.device_seen_debounce, 60);
    assert_eq!(policy.device_trigger_debounce, 120);
    assert_eq!(policy.interscan_delay, 5);
    assert_eq!(policy.presence_timeout, 120);
}

#[test]
fn test_mqtt_settings_defaults() {
    let cfg = MqttConfig {
        host: "localhost".to_string(),
        port: None,
        username: None,
        password: None,
        publisher_id: None,
        topic_path: None,
        keep_alive_seconds: None,
    };
    let settings = MqttSettings::from_config(&cfg);
    assert_eq!(settings.host, "localhost");
    assert_eq!(settings.port, 1883);
    assert_eq!(settings.publisher_id, "monitor-rs");
    assert_eq!(settings.topic_path, "monitor");
    assert_eq!(settings.keep_alive_seconds, 5);
    assert!(settings.credentials.is_none());
}

#[test]
fn test_mqtt_settings_configured() {
    let cfg = MqttConfig {
        host: "broker.local".to_string(),
        port: Some(8883),
        username: Some("user".to_string()),
        password: Some("pass".to_string()),
        publisher_id: Some("sentinel".to_string()),
        topic_path: Some("presence".to_string()),
        keep_alive_seconds: Some(30),
    };
    let settings = MqttSettings::from_config(&cfg);
    assert_eq!(settings.host, "broker.local");
    assert_eq!(settings.port, 8883);
    assert_eq!(settings.publisher_id, "sentinel");
    assert_eq!(settings.topic_path, "presence");
    assert_eq!(settings.keep_alive_seconds, 30);
    assert_eq!(
        settings.credentials,
        Some(("user".to_string(), "pass".to_string()))
    );
}

#[test]
fn test_mqtt_settings_credentials_need_both_parts() {
    let cfg = MqttConfig {
        host: "localhost".to_string(),
        port: None,
        username: Some("user".to_string()),
        password: None,
        publisher_id: None,
        topic_path: None,
        keep_alive_seconds: None,
    };
    let settings = MqttSettings::from_config(&cfg);
    assert!(settings.credentials.is_none());
}

#[test]
fn test_mac_addr_formatting() {
    let mac = MacAddr { octets: [0x80, 0xFA, 0x5B, 0x41, 0x10, 0x6B] };
    assert_eq!(mac.to_hex_string(), "80:FA:5B:41:10:6B");
    let low = MacAddr { octets: [0x00, 0x01, 0x02, 0x0A, 0x0F, 0xFF] };
    assert_eq!(low.to_hex_string(), "00:01:02:0A:0F:FF");
}

use co2_alert::config::{
    resolve, resolve_from_text, ConfigError, ConfigField, RawConfig,
};

fn expect_err(r: Result<co2_alert::config::Config, ConfigError>) -> ConfigError {
    match r {
        Err(e) => e,
        Ok(_) => panic!("expected an error"),
    }
}

fn full_raw() -> RawConfig {
    RawConfig {
        sensor_api_key: Some("sensor-key".to_string()),
        device_id: Some("device-1".to_string()),
        threshold: Some("800.0".to_string()),
        notify_token: Some("notify-token".to_string()),
        notify_channel: Some("#alerts".to_string()),
        notify_message: Some("CO2 is high".to_string()),
    }
}

#[test]
fn resolve_accepts_full_configuration() {
    let config = resolve(full_raw()).unwrap();
    assert_eq!(config.sensor_api_key, "sensor-key");
    assert_eq!(config.device_id, "device-1");
    assert_eq!(config.threshold.centi, 80000);
    assert_eq!(config.notify_token, "notify-token");
    assert_eq!(config.notify_channel, "#alerts");
    assert_eq!(config.notify_message, "CO2 is high");
}

#[test]
fn resolve_names_absent_threshold() {
    let mut raw = full_raw();
    raw.threshold = None;
    assert_eq!(expect_err(resolve(raw)), ConfigError::Missing(ConfigField::Threshold));
}

#[test]
fn resolve_treats_empty_as_missing() {
    let mut raw = full_raw();
    raw.sensor_api_key = Some(String::new());
    assert_eq!(expect_err(resolve(raw)), ConfigError::Missing(ConfigField::SensorApiKey));
}

#[test]
fn resolve_names_each_missing_field() {
    let cases: [(ConfigField, usize); 6] = [
        (ConfigField::SensorApiKey, 0),
        (ConfigField::DeviceId, 1),
        (ConfigField::Threshold, 2),
        (ConfigField::NotifyToken, 3),
        (ConfigField::NotifyChannel, 4),
        (ConfigField::NotifyMessage, 5),
    ];
    for (field, index) in cases {
        let mut raw = full_raw();
        match index {
            0 => raw.sensor_api_key = None,
            1 => raw.device_id = None,
            2 => raw.threshold = None,
            3 => raw.notify_token = None,
            4 => raw.notify_channel = None,
            _ => raw.notify_message = None,
        }
        assert_eq!(expect_err(resolve(raw)), ConfigError::Missing(field));
    }
}

#[test]
fn resolve_rejects_non_decimal_threshold() {
    let mut raw = full_raw();
    raw.threshold = Some("eight hundred".to_string());
    assert_eq!(expect_err(resolve(raw)), ConfigError::InvalidThreshold);
}

#[test]
fn yaml_configuration_resolves() {
    let text = "datacake:\n  key: sensor-key\ndevice: device-1\nthreshold: 800.0\nslack:\n  token: notify-token\n  channel: \"#alerts\"\n  message: CO2 is high\n";
    let config = resolve_from_text(text).unwrap();
    assert_eq!(config.sensor_api_key, "sensor-key");
    assert_eq!(config.device_id, "device-1");
    assert_eq!(config.threshold.centi, 80000);
    assert_eq!(config.notify_channel, "#alerts");
}

#[test]
fn yaml_integer_threshold_resolves() {
    let text = "datacake:\n  key: k\ndevice: d\nthreshold: 800\nslack:\n  token: t\n  channel: c\n  message: m\n";
    let config = resolve_from_text(text).unwrap();
    assert_eq!(config.threshold.centi, 80000);
}

#[test]
fn yaml_without_threshold_names_it() {
    let text = "datacake:\n  key: k\ndevice: d\nslack:\n  token: t\n  channel: c\n  message: m\n";
    assert_eq!(expect_err(resolve_from_text(text)), ConfigError::Missing(ConfigField::Threshold));
}

#[test]
fn unparsable_yaml_is_a_distinct_parse_error() {
    assert_eq!(expect_err(resolve_from_text("threshold: [unclosed")), ConfigError::Parse);
}

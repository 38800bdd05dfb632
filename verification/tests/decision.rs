use co2_alert::config::{resolve, RawConfig};
use co2_alert::config::Config;
use co2_alert::measurement::{Measurement, MeasurementSet};
use co2_alert::pipeline::{run_decision, should_alert};
use co2_alert::ppm::Ppm;

fn config_with_threshold(threshold: &str) -> Config {
    resolve(RawConfig {
        sensor_api_key: Some("sensor-key".to_string()),
        device_id: Some("device-1".to_string()),
        threshold: Some(threshold.to_string()),
        notify_token: Some("notify-token".to_string()),
        notify_channel: Some("#alerts".to_string()),
        notify_message: Some("CO2 is high".to_string()),
    })
    .unwrap()
}

fn co2_set(centi: i64) -> MeasurementSet {
    MeasurementSet {
        records: vec![Measurement {
            field_name: "CO2_CONCENTRATION".to_string(),
            value: Some(Ppm { centi }),
            modified: String::new(),
        }],
    }
}

#[test]
fn threshold_boundary() {
    assert!(!should_alert(Ppm { centi: 80000 }, Ppm { centi: 80000 }));
    assert!(should_alert(Ppm { centi: 80001 }, Ppm { centi: 80000 }));
    assert!(!should_alert(Ppm { centi: 79999 }, Ppm { centi: 80000 }));
}

#[test]
fn reading_below_threshold_sends_nothing() {
    let config = config_with_threshold("800.0");
    let report = run_decision(&co2_set(45000), &config).unwrap();
    assert_eq!(report.value, Ppm { centi: 45000 });
    assert_eq!(report.value_text, "450.00");
    assert!(report.notification.is_none());
}

#[test]
fn reading_above_threshold_builds_one_notification() {
    let config = config_with_threshold("800.0");
    let report = run_decision(&co2_set(95000), &config).unwrap();
    assert_eq!(report.value, Ppm { centi: 95000 });
    assert_eq!(report.value_text, "950.00");
    let body = report.notification.expect("an alert is owed");
    assert!(body.contains("950.00"));
    assert!(body.contains("ppm"));
    assert!(body.contains("#alerts"));
    assert!(body.contains("CO2 is high"));
}

#[test]
fn reading_equal_to_threshold_sends_nothing() {
    let config = config_with_threshold("800.0");
    let report = run_decision(&co2_set(80000), &config).unwrap();
    assert!(report.notification.is_none());
}

#[test]
fn missing_field_ends_the_run_without_notification() {
    let config = config_with_threshold("800.0");
    let set = MeasurementSet { records: vec![] };
    assert!(run_decision(&set, &config).is_err());
}

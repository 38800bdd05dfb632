use co2_alert::fetch::{build_measure_query, process_fetch, FetchError, FetchOutcome};
use co2_alert::measurement::MeasurementSet;
use co2_alert::notify::{build_alert_message, process_notify, NotifyError, NotifyOutcome};
use co2_alert::ppm::Ppm;

fn expect_set(r: Result<MeasurementSet, FetchError>) -> MeasurementSet {
    match r {
        Ok(set) => set,
        Err(_) => panic!("expected a measurement set"),
    }
}

fn expect_fetch_err(r: Result<MeasurementSet, FetchError>) -> FetchError {
    match r {
        Ok(_) => panic!("expected an error"),
        Err(e) => e,
    }
}

#[test]
fn transport_failure_ends_the_run_before_extraction() {
    assert_eq!(expect_fetch_err(process_fetch(FetchOutcome::Transport)), FetchError::Transport);
}

#[test]
fn auth_status_is_an_auth_error() {
    let r = process_fetch(FetchOutcome::Http(401, "{}".to_string()));
    assert_eq!(expect_fetch_err(r), FetchError::Auth);
    let r = process_fetch(FetchOutcome::Http(403, "{}".to_string()));
    assert_eq!(expect_fetch_err(r), FetchError::Auth);
}

#[test]
fn unparsable_body_is_malformed() {
    let r = process_fetch(FetchOutcome::Http(200, "not json".to_string()));
    assert_eq!(expect_fetch_err(r), FetchError::MalformedResponse);
}

#[test]
fn body_without_measurements_is_malformed() {
    let r = process_fetch(FetchOutcome::Http(200, "{\"data\":{\"device\":null}}".to_string()));
    assert_eq!(expect_fetch_err(r), FetchError::MalformedResponse);
}

#[test]
fn measurements_come_through_in_order() {
    let body = "{\"data\":{\"device\":{\"currentMeasurements\":[\
        {\"value\":21.5,\"field\":{\"fieldName\":\"TEMPERATURE\",\"verboseFieldName\":\"Temperature\"},\"modified\":\"2024-01-01T00:00:00Z\"},\
        {\"value\":812.5,\"field\":{\"fieldName\":\"CO2_CONCENTRATION\",\"verboseFieldName\":\"CO2\"},\"modified\":\"2024-01-01T00:00:00Z\"}\
        ]}}}";
    let set = expect_set(process_fetch(FetchOutcome::Http(200, body.to_string())));
    assert_eq!(set.records.len(), 2);
    assert_eq!(set.records[0].field_name, "TEMPERATURE");
    assert_eq!(set.records[1].field_name, "CO2_CONCENTRATION");
    assert_eq!(set.records[0].modified, "2024-01-01T00:00:00Z");
    assert_eq!(set.extract_co2(), Ok(Ppm { centi: 81250 }));
}

#[test]
fn non_numeric_value_stays_non_numeric() {
    let body = "{\"data\":{\"device\":{\"currentMeasurements\":[\
        {\"value\":\"high\",\"field\":{\"fieldName\":\"CO2_CONCENTRATION\"},\"modified\":null}\
        ]}}}";
    let set = expect_set(process_fetch(FetchOutcome::Http(200, body.to_string())));
    assert_eq!(set.records.len(), 1);
    assert_eq!(set.records[0].value, None);
    assert!(set.extract_co2().is_err());
}

#[test]
fn measure_query_names_the_device() {
    let query = build_measure_query("device-1");
    assert!(query.contains("\"deviceId\":\"device-1\""));
    assert!(query.contains("currentMeasurements(allActiveFields:true)"));
}

#[test]
fn measure_query_escapes_the_device_id() {
    let query = build_measure_query("dev\"x");
    assert!(query.contains("dev\\\"x"));
}

#[test]
fn alert_message_carries_value_and_unit() {
    let body = build_alert_message("#alerts", "CO2 is high", Ppm { centi: 95000 });
    assert!(body.contains("\"channel\":\"#alerts\""));
    assert!(body.contains("CO2 is high"));
    assert!(body.contains("950.00"));
    assert!(body.contains("ppm"));
    assert!(body.contains("@channel"));
    assert!(body.contains("divider"));
}

#[test]
fn alert_message_escapes_its_inputs() {
    let body = build_alert_message("a\"b", "line\nbreak \\ here", Ppm { centi: 100 });
    assert!(body.contains("a\\\"b"));
    assert!(body.contains("line\\nbreak \\\\ here"));
    let parsed: Result<serde_json::Value, _> = serde_json::from_str(&body);
    assert!(parsed.is_ok());
}

#[test]
fn notify_transport_failure_is_reported() {
    assert_eq!(process_notify(NotifyOutcome::Transport), Err(NotifyError::Transport));
}

#[test]
fn notify_auth_status_is_an_auth_error() {
    let r = process_notify(NotifyOutcome::Http(401, "{}".to_string()));
    assert_eq!(r, Err(NotifyError::Auth));
}

#[test]
fn notify_ok_body_is_success() {
    let r = process_notify(NotifyOutcome::Http(200, "{\"ok\":true}".to_string()));
    assert_eq!(r, Ok(()));
}

#[test]
fn notify_logical_failure_is_an_error_despite_http_success() {
    let r = process_notify(NotifyOutcome::Http(200, "{\"ok\":false,\"error\":\"invalid_auth\"}".to_string()));
    assert_eq!(r, Err(NotifyError::MalformedResponse));
    let r = process_notify(NotifyOutcome::Http(200, "{}".to_string()));
    assert_eq!(r, Err(NotifyError::MalformedResponse));
}

#[test]
fn notify_unparsable_body_is_malformed() {
    let r = process_notify(NotifyOutcome::Http(200, "<html>".to_string()));
    assert_eq!(r, Err(NotifyError::MalformedResponse));
}

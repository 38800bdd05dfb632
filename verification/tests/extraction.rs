use co2_alert::measurement::{FieldNotFoundError, Measurement, MeasurementSet};
use co2_alert::ppm::Ppm;

fn record(name: &str, centi: i64) -> Measurement {
    Measurement {
        field_name: name.to_string(),
        value: Some(Ppm { centi }),
        modified: "2024-01-01T00:00:00Z".to_string(),
    }
}

#[test]
fn extraction_returns_matching_value() {
    let set = MeasurementSet {
        records: vec![record("TEMPERATURE", 2150), record("CO2_CONCENTRATION", 81250)],
    };
    assert_eq!(set.extract_value("CO2_CONCENTRATION"), Ok(Ppm { centi: 81250 }));
    assert_eq!(set.extract_co2(), Ok(Ppm { centi: 81250 }));
}

#[test]
fn extraction_fails_without_matching_record() {
    let set = MeasurementSet { records: vec![record("TEMPERATURE", 2150)] };
    assert_eq!(set.extract_co2(), Err(FieldNotFoundError));
    let empty = MeasurementSet { records: vec![] };
    assert_eq!(empty.extract_co2(), Err(FieldNotFoundError));
}

#[test]
fn extraction_takes_first_match() {
    let set = MeasurementSet {
        records: vec![record("CO2_CONCENTRATION", 40000), record("CO2_CONCENTRATION", 90000)],
    };
    assert_eq!(set.extract_co2(), Ok(Ppm { centi: 40000 }));
}

#[test]
fn extraction_is_case_sensitive() {
    let set = MeasurementSet { records: vec![record("co2_concentration", 40000)] };
    assert_eq!(set.extract_co2(), Err(FieldNotFoundError));
}

#[test]
fn extraction_fails_on_non_numeric_first_match() {
    let set = MeasurementSet {
        records: vec![
            Measurement {
                field_name: "CO2_CONCENTRATION".to_string(),
                value: None,
                modified: String::new(),
            },
            record("CO2_CONCENTRATION", 90000),
        ],
    };
    assert_eq!(set.extract_co2(), Err(FieldNotFoundError));
}
